use vstd::prelude::*;

use crate::text::{occurs_in, str_contains};

verus! {

/// The patterns of a whitelist as character sequences; `None` means that no
/// whitelist is configured.
pub open spec fn whitelist_view(wl: &Option<Vec<String>>) -> Option<Seq<Seq<char>>> {
    match wl {
        None => None,
        Some(v) => Some(pattern_views(v@)),
    }
}

/// The views of a list of patterns.
pub open spec fn pattern_views(v: Seq<String>) -> Seq<Seq<char>> {
    v.map_values(|p: String| p@)
}

/// A name passes when no whitelist is configured, or when one of its
/// patterns occurs in the name.
pub open spec fn passes(wl: Option<Seq<Seq<char>>>, name: Seq<char>) -> bool {
    match wl {
        None => true,
        Some(ps) => some_pattern_occurs(ps, name),
    }
}

/// One of the patterns `ps` occurs in `name`.
pub open spec fn some_pattern_occurs(ps: Seq<Seq<char>>, name: Seq<char>) -> bool {
    exists|i: int| 0 <= i < ps.len() && occurs_in(name, #[trigger] ps[i])
}

/// Decides whether the asset `test` is eligible for synchronisation.
pub fn is_in_whitelist(whitelist: &Option<Vec<String>>, test: &str) -> (r: bool)
    ensures
        r == passes(whitelist_view(whitelist), test@),
{
    match whitelist {
        None => true,
        Some(list) => {
            let ghost ps = pattern_views(list@);
            let mut i: usize = 0;
            while i < list.len()
                invariant
                    0 <= i <= list.len(),
                    ps == pattern_views(list@),
                    ps.len() == list@.len(),
                    whitelist_view(whitelist) == Some(ps),
                    forall|j: int| 0 <= j < i ==> !occurs_in(test@, #[trigger] ps[j]),
                decreases list.len() - i,
            {
                if str_contains(test, list[i].as_str()) {
                    assert(ps[i as int] == list@[i as int]@);
                    assert(occurs_in(test@, ps[i as int]));
                    assert(some_pattern_occurs(ps, test@));
                    return true;
                }
                i += 1;
            }
            false
        },
    }
}

/// With no whitelist configured, every name passes.
pub proof fn absent_whitelist_admits_all(name: Seq<char>)
    ensures
        passes(None, name),
{
}

} // verus!
