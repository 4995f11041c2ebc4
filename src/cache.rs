use vstd::prelude::*;

use crate::manifest::{AssetData, UpdateInfo};
use crate::whitelist::{is_in_whitelist, passes, whitelist_view};

verus! {

#[verifier::external_type_specification]
#[verifier::external_body]
pub struct ExAhashRandomState(ahash::RandomState);

/// The cache that records nothing.
pub open spec fn no_hashes() -> Map<Seq<char>, Seq<char>> {
    Map::empty()
}

/// What an `ahash` map from names to hashes holds.
pub uninterp spec fn stored_hashes(m: ahash::HashMap<String, String>) -> Map<Seq<char>, Seq<char>>;

/// Relies on `Default` for `ahash::HashMap`: a new map holds nothing.
#[verifier::external_body]
fn map_new() -> (r: ahash::HashMap<String, String>)
    ensures
        stored_hashes(r) == no_hashes(),
{
    ahash::HashMap::default()
}

/// Relies on `HashMap::insert`: the key now maps to the value, other keys
/// keep theirs.
#[verifier::external_body]
fn map_insert(m: &mut ahash::HashMap<String, String>, k: String, v: String)
    ensures
        stored_hashes(*final(m)) == stored_hashes(*old(m)).insert(k@, v@),
{
    m.insert(k, v);
}

/// Relies on `HashMap::get`: the value stored under the key, if any.
#[verifier::external_body]
fn map_get(m: &ahash::HashMap<String, String>, k: &str) -> (r: Option<String>)
    ensures
        match r {
            None => !stored_hashes(*m).contains_key(k@),
            Some(v) => stored_hashes(*m).contains_key(k@) && v@ == stored_hashes(*m)[k@],
        },
{
    m.get(k).cloned()
}

/// Relies on `HashMap::is_empty`: true iff the map holds no entry.
#[verifier::external_body]
fn map_is_empty(m: &ahash::HashMap<String, String>) -> (r: bool)
    ensures
        r == (stored_hashes(*m) == no_hashes()),
{
    m.is_empty()
}

/// Relies on `HashMap::iter`: every entry once, in an order that the hasher
/// decides.
#[verifier::external_body]
fn map_entries(m: &ahash::HashMap<String, String>) -> (r: Vec<(String, String)>)
    ensures
        r@.len() == stored_hashes(*m).dom().len(),
        forall|i: int|
            0 <= i < r@.len() ==> stored_hashes(*m).contains_key(#[trigger] r@[i].0@)
                && stored_hashes(*m)[r@[i].0@] == r@[i].1@,
        forall|i: int, j: int|
            0 <= i < j < r@.len() ==> #[trigger] r@[i].0@ != #[trigger] r@[j].0@,
{
    m.iter().map(|(k, v)| (k.clone(), v.clone())).collect()
}

/// The hashes that a manifest's assets give to a cache: each whitelisted
/// asset's name maps to its hash, a later asset of the same name winning.
pub open spec fn whitelisted_hashes(assets: Seq<AssetData>, wl: Option<Seq<Seq<char>>>) -> Map<Seq<char>, Seq<char>>
    decreases assets.len(),
{
    if assets.len() == 0 {
        no_hashes()
    } else {
        let rest = whitelisted_hashes(assets.drop_last(), wl);
        let a = assets.last();
        if passes(wl, a.name@) {
            rest.insert(a.name@, a.md5@)
        } else {
            rest
        }
    }
}

/// The map that a list of pairs gives, a later pair of the same name winning.
pub open spec fn pairs_map(pairs: Seq<(String, String)>) -> Map<Seq<char>, Seq<char>>
    decreases pairs.len(),
{
    if pairs.len() == 0 {
        no_hashes()
    } else {
        pairs_map(pairs.drop_last()).insert(pairs.last().0@, pairs.last().1@)
    }
}

/// The persisted record of which hash each synchronised asset had.
pub struct NameHashMapping {
    inner: ahash::HashMap<String, String>,
}

impl View for NameHashMapping {
    type V = Map<Seq<char>, Seq<char>>;

    closed spec fn view(&self) -> Map<Seq<char>, Seq<char>> {
        stored_hashes(self.inner)
    }
}

impl NameHashMapping {
    /// An empty cache.
    pub fn new() -> (r: Self)
        ensures
            r@ == no_hashes(),
    {
        NameHashMapping { inner: map_new() }
    }

    /// A cache holding the given pairs, a later pair of the same name winning.
    pub fn from_entries(pairs: Vec<(String, String)>) -> (r: Self)
        ensures
            r@ == pairs_map(pairs@),
    {
        let mut inner = map_new();
        let mut i: usize = 0;
        while i < pairs.len()
            invariant
                0 <= i <= pairs.len(),
                stored_hashes(inner) == pairs_map(pairs@.take(i as int)),
            decreases pairs.len() - i,
        {
            let k = pairs[i].0.clone();
            let v = pairs[i].1.clone();
            proof {
                assert(pairs@.take(i + 1).drop_last() == pairs@.take(i as int));
            }
            map_insert(&mut inner, k, v);
            i += 1;
        }
        assert(pairs@.take(pairs@.len() as int) == pairs@);
        NameHashMapping { inner }
    }

    /// Every entry once, in no particular order.
    pub fn entries(&self) -> (r: Vec<(String, String)>)
        ensures
            r@.len() == self@.dom().len(),
            forall|i: int|
                0 <= i < r@.len() ==> self@.contains_key(#[trigger] r@[i].0@) && self@[r@[i].0@]
                    == r@[i].1@,
            forall|i: int, j: int| 0 <= i < j < r@.len() ==> #[trigger] r@[i].0@ != #[trigger] r@[j].0@,
    {
        map_entries(&self.inner)
    }

    pub fn is_empty(&self) -> (r: bool)
        ensures
            r == (self@ == no_hashes()),
    {
        map_is_empty(&self.inner)
    }

    /// The hash recorded for `name`, if any.
    pub fn get(&self, name: &str) -> (r: Option<String>)
        ensures
            match r {
                None => !self@.contains_key(name@),
                Some(v) => self@.contains_key(name@) && v@ == self@[name@],
            },
    {
        map_get(&self.inner, name)
    }

    /// Replaces the whole cache by the hashes of the manifest's whitelisted
    /// assets.
    pub fn set(&mut self, data: &UpdateInfo, whitelist: &Option<Vec<String>>)
        ensures
            final(self)@ == whitelisted_hashes(data.ab_infos@, whitelist_view(whitelist)),
    {
        let assets = &data.ab_infos;
        let mut inner = map_new();
        let mut i: usize = 0;
        while i < assets.len()
            invariant
                0 <= i <= assets.len(),
                stored_hashes(inner) == whitelisted_hashes(assets@.take(i as int), whitelist_view(whitelist)),
            decreases assets.len() - i,
        {
            let a = &assets[i];
            proof {
                assert(assets@.take(i + 1).drop_last() == assets@.take(i as int));
            }
            if is_in_whitelist(whitelist, a.name.as_str()) {
                map_insert(&mut inner, a.name.clone(), a.md5.clone());
            }
            i += 1;
        }
        assert(assets@.take(assets@.len() as int) == assets@);
        self.inner = inner;
    }
}

} // verus!
