use vstd::prelude::*;

use crate::cache::{no_hashes, NameHashMapping};
use crate::manifest::{AssetData, PackData, UpdateInfo};
use crate::text::{replace_all, str_replace};
use crate::whitelist::{is_in_whitelist, passes, whitelist_view};

verus! {

/// How a run synchronises: whole packs on a first run, single assets after.
#[derive(Clone, Copy, Debug, PartialEq, Eq, Structural)]
pub enum SyncMode {
    ColdStart,
    Incremental,
}

/// Whether a target names a pack or a single asset.
#[derive(Clone, Copy, Debug, PartialEq, Eq, Structural)]
pub enum SourceKind {
    Pack,
    LooseAsset,
}

/// One archive to download.
pub struct FetchTarget {
    pub name: String,
    pub kind: SourceKind,
}

/// What a run does: its mode, whether the atlas directory is purged first,
/// and the archives it downloads.
pub struct SyncPlan {
    pub mode: SyncMode,
    pub purge: bool,
    pub targets: Vec<FetchTarget>,
}

/// The directory under the output root whose files an incremental run
/// deletes before it downloads.
pub const PURGE_DIR: &'static str = "torappu/dynamicassets/arts/charportraits/UIAtlasTextureRef";

/// A first run is one with an empty cache and no whitelist.
pub open spec fn mode_for(cache: Map<Seq<char>, Seq<char>>, wl: Option<Seq<Seq<char>>>) -> SyncMode {
    if cache == no_hashes() && wl is None {
        SyncMode::ColdStart
    } else {
        SyncMode::Incremental
    }
}

pub open spec fn target_view(t: FetchTarget) -> (Seq<char>, SourceKind) {
    (t.name@, t.kind)
}

pub open spec fn targets_view(ts: Seq<FetchTarget>) -> Seq<(Seq<char>, SourceKind)> {
    ts.map_values(|t: FetchTarget| target_view(t))
}

/// One pack target per pack, in the manifest's order.
pub open spec fn pack_targets(packs: Seq<PackData>) -> Seq<(Seq<char>, SourceKind)> {
    packs.map_values(|p: PackData| (p.name@, SourceKind::Pack))
}

/// One asset target per whitelisted asset, in the manifest's order; with
/// `packless_only`, only for assets that belong to no pack.
pub open spec fn asset_targets(
    assets: Seq<AssetData>,
    wl: Option<Seq<Seq<char>>>,
    packless_only: bool,
) -> Seq<(Seq<char>, SourceKind)>
    decreases assets.len(),
{
    if assets.len() == 0 {
        seq![]
    } else {
        let rest = asset_targets(assets.drop_last(), wl, packless_only);
        let a = assets.last();
        if passes(wl, a.name@) && (!packless_only || a.pack_id is None) {
            rest.push((a.name@, SourceKind::LooseAsset))
        } else {
            rest
        }
    }
}

/// The targets of a run: on a first run every pack and every packless
/// whitelisted asset, else every whitelisted asset.
pub open spec fn planned_targets(
    mode: SyncMode,
    info: UpdateInfo,
    wl: Option<Seq<Seq<char>>>,
) -> Seq<(Seq<char>, SourceKind)> {
    match mode {
        SyncMode::ColdStart => pack_targets(info.pack_infos@) + asset_targets(info.ab_infos@, wl, true),
        SyncMode::Incremental => asset_targets(info.ab_infos@, wl, false),
    }
}

/// Chooses the mode of a run from the cache and the whitelist.
pub fn select_mode(cache: &NameHashMapping, whitelist: &Option<Vec<String>>) -> (r: SyncMode)
    ensures
        r == mode_for(cache@, whitelist_view(whitelist)),
        r == SyncMode::ColdStart <==> (cache@ == no_hashes() && whitelist is None),
{
    if cache.is_empty() && whitelist.is_none() {
        SyncMode::ColdStart
    } else {
        SyncMode::Incremental
    }
}

/// Appends a target for each whitelisted asset (only packless ones when
/// `packless_only`).
fn push_asset_targets(
    out: &mut Vec<FetchTarget>,
    assets: &Vec<AssetData>,
    whitelist: &Option<Vec<String>>,
    packless_only: bool,
)
    ensures
        targets_view(final(out)@) == targets_view(old(out)@) + asset_targets(
            assets@,
            whitelist_view(whitelist),
            packless_only,
        ),
{
    let ghost start = targets_view(out@);
    let ghost wl = whitelist_view(whitelist);
    let mut i: usize = 0;
    while i < assets.len()
        invariant
            0 <= i <= assets.len(),
            wl == whitelist_view(whitelist),
            targets_view(out@) == start + asset_targets(assets@.take(i as int), wl, packless_only),
        decreases assets.len() - i,
    {
        let a = &assets[i];
        proof {
            assert(assets@.take(i + 1).drop_last() == assets@.take(i as int));
            assert(assets@.take(i + 1).last() == *a);
        }
        if is_in_whitelist(whitelist, a.name.as_str()) && (!packless_only || a.pack_id.is_none()) {
            let ghost before = out@;
            out.push(FetchTarget { name: a.name.clone(), kind: SourceKind::LooseAsset });
            proof {
                assert(out@ == before.push(out@.last()));
                assert(targets_view(out@) == targets_view(before).push(target_view(out@.last())));
                assert(start + asset_targets(assets@.take(i + 1), wl, packless_only) =~= (start
                    + asset_targets(assets@.take(i as int), wl, packless_only)).push(
                    (a.name@, SourceKind::LooseAsset),
                ));
            }
        }
        i += 1;
    }
    assert(assets@.take(assets@.len() as int) == assets@);
}

/// The targets of a run in the given mode.
pub fn plan_targets(mode: SyncMode, whitelist: &Option<Vec<String>>, info: &UpdateInfo) -> (r: Vec<
    FetchTarget,
>)
    ensures
        targets_view(r@) == planned_targets(mode, *info, whitelist_view(whitelist)),
{
    let mut out: Vec<FetchTarget> = Vec::new();
    match mode {
        SyncMode::ColdStart => {
            let packs = &info.pack_infos;
            let mut i: usize = 0;
            while i < packs.len()
                invariant
                    0 <= i <= packs.len(),
                    targets_view(out@) == pack_targets(packs@.take(i as int)),
                decreases packs.len() - i,
            {
                let ghost before = out@;
                out.push(FetchTarget { name: packs[i].name.clone(), kind: SourceKind::Pack });
                proof {
                    assert(out@ == before.push(out@.last()));
                    assert(targets_view(out@) == targets_view(before).push(target_view(out@.last())));
                    assert(pack_targets(packs@.take(i + 1)) == pack_targets(packs@.take(i as int)).push(
                        (packs@[i as int].name@, SourceKind::Pack),
                    ));
                }
                i += 1;
            }
            assert(packs@.take(packs@.len() as int) == packs@);
            push_asset_targets(&mut out, &info.ab_infos, whitelist, true);
        },
        SyncMode::Incremental => {
            push_asset_targets(&mut out, &info.ab_infos, whitelist, false);
        },
    }
    out
}

/// Plans a run: the mode that the cache and whitelist select, the purge
/// that an incremental run does first, and the targets of that mode.
pub fn plan(cache: &NameHashMapping, whitelist: &Option<Vec<String>>, info: &UpdateInfo) -> (r: SyncPlan)
    ensures
        r.mode == mode_for(cache@, whitelist_view(whitelist)),
        r.purge == (r.mode == SyncMode::Incremental),
        targets_view(r.targets@) == planned_targets(r.mode, *info, whitelist_view(whitelist)),
{
    let mode = select_mode(cache, whitelist);
    let targets = plan_targets(mode, whitelist, info);
    SyncPlan { mode, purge: mode == SyncMode::Incremental, targets }
}

/// The file stem under which the server stores an archive: `.ab` and `.mp4`
/// removed, `/` turned into `_`, `#` into `__`, in that order.
pub open spec fn sanitized(name: Seq<char>) -> Seq<char> {
    replace_all(
        replace_all(
            replace_all(replace_all(name, ".ab"@, ""@), ".mp4"@, ""@),
            "/"@,
            "_"@,
        ),
        "#"@,
        "__"@,
    )
}

/// Turns an asset or pack name into the stem of its archive on the server.
pub fn sanitize(name: &str) -> (r: String)
    ensures
        r@ == sanitized(name@),
{
    proof {
        reveal_strlit(".ab");
        reveal_strlit(".mp4");
        reveal_strlit("/");
        reveal_strlit("#");
    }
    let a = str_replace(name, ".ab", "");
    let b = str_replace(a.as_str(), ".mp4", "");
    let c = str_replace(b.as_str(), "/", "_");
    str_replace(c.as_str(), "#", "__")
}

/// The address of a target's archive: `<base>/assets/<version>/<stem>.dat`.
pub open spec fn archive_url(base: Seq<char>, version: Seq<char>, name: Seq<char>) -> Seq<char> {
    base + "/assets/"@ + version + "/"@ + sanitized(name) + ".dat"@
}

/// Builds the download address of the archive named `name`.
pub fn download_url(base: &str, version: &str, name: &str) -> (r: String)
    ensures
        r@ == archive_url(base@, version@, name@),
{
    let mut url = String::from_str(base);
    url.append("/assets/");
    url.append(version);
    url.append("/");
    let stem = sanitize(name);
    url.append(stem.as_str());
    url.append(".dat");
    url
}

} // verus!

verus! {

/// A first run is chosen exactly when the cache is empty and no whitelist is
/// configured; a non-empty cache or any whitelist, even an empty one, makes
/// the run incremental.
pub proof fn cold_start_rule(cache: Map<Seq<char>, Seq<char>>, wl: Option<Seq<Seq<char>>>)
    ensures
        mode_for(cache, wl) == SyncMode::ColdStart <==> (cache == no_hashes() && wl is None),
        wl is Some ==> mode_for(cache, wl) == SyncMode::Incremental,
        cache != no_hashes() ==> mode_for(cache, wl) == SyncMode::Incremental,
{
}

/// Filtering and sanitising depend on their inputs alone: two calls on the
/// same input give the same answer.
pub proof fn filter_and_sanitize_are_deterministic(
    wl: Option<Seq<Seq<char>>>,
    name: Seq<char>,
    first_pass: bool,
    second_pass: bool,
    first_stem: Seq<char>,
    second_stem: Seq<char>,
)
    requires
        first_pass == passes(wl, name),
        second_pass == passes(wl, name),
        first_stem == sanitized(name),
        second_stem == sanitized(name),
    ensures
        first_pass == second_pass,
        first_stem == second_stem,
{
}

} // verus!
