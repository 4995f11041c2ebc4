use vstd::prelude::*;

use crate::cache::{whitelisted_hashes, NameHashMapping};
use crate::manifest::UpdateInfo;
use crate::whitelist::whitelist_view;

verus! {

/// How one download task of a batch ended.
#[derive(Clone, Copy, Debug, PartialEq, Eq, Structural)]
pub enum TaskOutcome {
    /// The archive was fetched and handed on for extraction.
    Fetched,
    /// Every attempt failed.
    RetriesExhausted,
    /// The archive, or one of its entries, could not be read.
    Corrupt,
}

/// A batch succeeds when every one of its tasks fetched its archive.
pub open spec fn batch_succeeded(outcomes: Seq<TaskOutcome>) -> bool {
    forall|i: int| 0 <= i < outcomes.len() ==> #[trigger] outcomes[i] == TaskOutcome::Fetched
}

/// Whether every task of a batch fetched its archive.
pub fn all_fetched(outcomes: &Vec<TaskOutcome>) -> (r: bool)
    ensures
        r == batch_succeeded(outcomes@),
{
    let mut i: usize = 0;
    while i < outcomes.len()
        invariant
            0 <= i <= outcomes.len(),
            forall|j: int| 0 <= j < i ==> #[trigger] outcomes@[j] == TaskOutcome::Fetched,
        decreases outcomes.len() - i,
    {
        if outcomes[i] != TaskOutcome::Fetched {
            return false;
        }
        i += 1;
    }
    true
}

/// Ends a batch: when every task succeeded, the cache takes the hashes of the
/// manifest's whitelisted assets and `true` says it is to be persisted; on
/// any failure the cache is left as it was and `false` is returned.
pub fn commit_batch(
    cache: &mut NameHashMapping,
    info: &UpdateInfo,
    whitelist: &Option<Vec<String>>,
    outcomes: &Vec<TaskOutcome>,
) -> (r: bool)
    ensures
        r == batch_succeeded(outcomes@),
        r ==> final(cache)@ == whitelisted_hashes(info.ab_infos@, whitelist_view(whitelist)),
        !r ==> final(cache)@ == old(cache)@,
{
    if all_fetched(outcomes) {
        cache.set(info, whitelist);
        true
    } else {
        false
    }
}

/// One task that did not fetch its archive fails the whole batch, whatever
/// the others did.
pub proof fn one_failure_fails_batch(outcomes: Seq<TaskOutcome>, k: int)
    requires
        0 <= k < outcomes.len(),
        outcomes[k] != TaskOutcome::Fetched,
    ensures
        !batch_succeeded(outcomes),
{
}

} // verus!
