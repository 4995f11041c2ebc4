use vstd::prelude::*;

verus! {

/// One remote asset: its name, its content hash and the pack it belongs to.
pub struct AssetData {
    pub name: String,
    pub md5: String,
    pub pack_id: Option<String>,
}

/// One downloadable pack.
pub struct PackData {
    pub name: String,
}

/// The remote manifest: every asset and every pack.
pub struct UpdateInfo {
    pub ab_infos: Vec<AssetData>,
    pub pack_infos: Vec<PackData>,
}

impl AssetData {
    pub fn new(name: String, md5: String, pack_id: Option<String>) -> (r: Self)
        ensures
            r.name@ == name@,
            r.md5@ == md5@,
            r.pack_id == pack_id,
    {
        AssetData { name, md5, pack_id }
    }
}

impl PackData {
    pub fn new(name: String) -> (r: Self)
        ensures
            r.name@ == name@,
    {
        PackData { name }
    }
}

impl UpdateInfo {
    pub fn new(ab_infos: Vec<AssetData>, pack_infos: Vec<PackData>) -> (r: Self)
        ensures
            r.ab_infos@ == ab_infos@,
            r.pack_infos@ == pack_infos@,
    {
        UpdateInfo { ab_infos, pack_infos }
    }
}

} // verus!
