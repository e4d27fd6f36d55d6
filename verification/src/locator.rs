//! Finding a shared library among several plausible file names.

use vstd::prelude::*;

verus! {

/// `opener` can be asked about every name in `candidates`.
pub open spec fn can_probe<H, E, O: Fn(&str) -> Result<H, E>>(
    candidates: Seq<&'static str>,
    opener: O,
) -> bool {
    forall|i: int| 0 <= i < candidates.len() ==> call_requires(opener, (#[trigger] candidates[i],))
}

/// `opener` may fail on the `index`-th candidate, with `error`.
pub open spec fn misses_with<H, E, O: Fn(&str) -> Result<H, E>>(
    candidates: Seq<&'static str>,
    opener: O,
    index: int,
    error: E,
) -> bool {
    call_ensures(opener, (candidates[index],), Err::<H, E>(error))
}

/// `opener` may fail on the `index`-th candidate.
pub open spec fn may_miss<H, E, O: Fn(&str) -> Result<H, E>>(
    candidates: Seq<&'static str>,
    opener: O,
    index: int,
) -> bool {
    exists|error: E| misses_with::<H, E, O>(candidates, opener, index, error)
}

/// What a search over `candidates` with `opener` may answer: the first
/// candidate, in order, on which `opener` succeeded, together with the
/// handle from that very attempt; or nothing, once `opener` has failed on
/// every candidate.
pub open spec fn search_result<H, E, O: Fn(&str) -> Result<H, E>>(
    candidates: Seq<&'static str>,
    opener: O,
    found: Option<(usize, H)>,
) -> bool {
    match found {
        Some((index, handle)) => {
            &&& index < candidates.len()
            &&& call_ensures(opener, (candidates[index as int],), Ok::<H, E>(handle))
            &&& forall|j: int|
                0 <= j < index ==> #[trigger] may_miss::<H, E, O>(candidates, opener, j)
        },
        None => forall|j: int|
            0 <= j < candidates.len() ==> #[trigger] may_miss::<H, E, O>(candidates, opener, j),
    }
}

/// Tries the candidates in order and stops at the first one that opens.
///
/// A candidate that fails to open is no error, whatever the reason; only
/// running out of candidates means that the library is absent.
pub fn locate<H, E, O: Fn(&str) -> Result<H, E>>(candidates: &[&'static str], opener: &O) -> (found:
    Option<(usize, H)>)
    requires
        can_probe(candidates@, *opener),
    ensures
        search_result(candidates@, *opener, found),
{
    let mut index: usize = 0;
    while index < candidates.len()
        invariant
            index <= candidates.len(),
            can_probe(candidates@, *opener),
            forall|j: int|
                0 <= j < index ==> #[trigger] may_miss::<H, E, O>(candidates@, *opener, j),
        decreases candidates.len() - index,
    {
        match opener(candidates[index]) {
            Ok(handle) => {
                return Some((index, handle));
            },
            Err(error) => {
                assert(misses_with::<H, E, O>(candidates@, *opener, index as int, error));
            },
        }
        index += 1;
    }
    None
}

/// Candidate order. A search never goes past a candidate that is sure to
/// open: the answer is that candidate or an earlier one. With the versioned
/// file name listed first and present, the unversioned one is never the
/// answer.
pub proof fn lemma_present_candidate_bounds_search<H, E, O: Fn(&str) -> Result<H, E>>(
    candidates: Seq<&'static str>,
    opener: O,
    found: Option<(usize, H)>,
    present: int,
)
    requires
        search_result(candidates, opener, found),
        0 <= present < candidates.len(),
        !may_miss::<H, E, O>(candidates, opener, present),
    ensures
        found matches Some((index, _)) && index <= present,
{
    assert(may_miss::<H, E, O>(candidates, opener, present) || found is Some);
}

/// A library counts as absent only when every candidate failed.
pub proof fn lemma_absent_means_all_missed<H, E, O: Fn(&str) -> Result<H, E>>(
    candidates: Seq<&'static str>,
    opener: O,
    found: Option<(usize, H)>,
    index: int,
)
    requires
        search_result(candidates, opener, found),
        found is None,
        0 <= index < candidates.len(),
    ensures
        may_miss::<H, E, O>(candidates, opener, index),
{
}

/// With an opener that answers each name in one way only, the search has
/// one possible answer.
pub proof fn lemma_search_is_determined<H, E, O: Fn(&str) -> Result<H, E>>(
    candidates: Seq<&'static str>,
    opener: O,
    first: Option<(usize, H)>,
    second: Option<(usize, H)>,
)
    requires
        search_result(candidates, opener, first),
        search_result(candidates, opener, second),
        forall|name: &str, a: Result<H, E>, b: Result<H, E>|
            call_ensures(opener, (name,), a) && call_ensures(opener, (name,), b) ==> a == b,
    ensures
        first == second,
{
    match (first, second) {
        (Some((i, h)), Some((j, g))) => {
            if i < j {
                lemma_hit_excludes_miss(candidates, opener, i as int, h);
                assert(may_miss::<H, E, O>(candidates, opener, i as int));
            } else if j < i {
                lemma_hit_excludes_miss(candidates, opener, j as int, g);
                assert(may_miss::<H, E, O>(candidates, opener, j as int));
            }
        },
        (Some((i, h)), None) => {
            lemma_hit_excludes_miss(candidates, opener, i as int, h);
            assert(may_miss::<H, E, O>(candidates, opener, i as int));
        },
        (None, Some((j, g))) => {
            lemma_hit_excludes_miss(candidates, opener, j as int, g);
            assert(may_miss::<H, E, O>(candidates, opener, j as int));
        },
        (None, None) => {},
    }
}

/// An opener that answers each name in one way only cannot both open a
/// candidate and fail on it.
proof fn lemma_hit_excludes_miss<H, E, O: Fn(&str) -> Result<H, E>>(
    candidates: Seq<&'static str>,
    opener: O,
    index: int,
    handle: H,
)
    requires
        call_ensures(opener, (candidates[index],), Ok::<H, E>(handle)),
        forall|name: &str, a: Result<H, E>, b: Result<H, E>|
            call_ensures(opener, (name,), a) && call_ensures(opener, (name,), b) ==> a == b,
    ensures
        !may_miss::<H, E, O>(candidates, opener, index),
{
    if may_miss::<H, E, O>(candidates, opener, index) {
        let error = choose|error: E| misses_with::<H, E, O>(candidates, opener, index, error);
        assert(Ok::<H, E>(handle) == Err::<H, E>(error));
    }
}

} // verus!
