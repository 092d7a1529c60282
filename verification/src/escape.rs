//! Escape-time counting.  The orbit of a point under the quadratic map is
//! summarised by a sequence of flags, one per iteration: flag `i` says
//! whether the orbit had left the escape bound when checked at the start of
//! iteration `i` (check before update).  The escape time is the index of the
//! first set flag below the iteration limit, or nothing when no flag below
//! the limit is set.

use vstd::prelude::*;

verus! {

/// `r` is the escape time that `limit` iterations over the flags `escaped`
/// determine: the first set flag's index when one lies below `limit`, and
/// nothing otherwise.
pub open spec fn is_escape_result(escaped: Seq<bool>, limit: int, r: Option<usize>) -> bool {
    match r {
        Some(i) => 0 <= i < limit && escaped[i as int] && (forall|j: int|
            0 <= j < i ==> !escaped[j]),
        None => forall|j: int| 0 <= j < limit ==> !escaped[j],
    }
}

/// Number of iterations the orbit described by `escaped` stayed within the
/// bound, up to `limit` checks: `Some(i)` when the check at the start of
/// iteration `i` was the first to find the bound exceeded, `None` when all
/// `limit` checks passed.
pub fn escape_time(escaped: &Vec<bool>, limit: usize) -> (r: Option<usize>)
    requires
        limit <= escaped.len(),
    ensures
        is_escape_result(escaped@, limit as int, r),
{
    let mut i: usize = 0;
    while i < limit
        invariant
            i <= limit,
            limit <= escaped.len(),
            forall|j: int| 0 <= j < i ==> !escaped@[j],
        decreases limit - i,
    {
        if escaped[i] {
            return Some(i);
        }
        i = i + 1;
    }
    None
}

/// An orbit that never leaves the bound is reported as not escaping,
/// whatever the limit: the outcome for a point whose orbit stays put, such
/// as the origin.
pub proof fn lemma_no_escape(escaped: Seq<bool>, limit: int, r: Option<usize>)
    requires
        is_escape_result(escaped, limit, r),
        forall|j: int| 0 <= j < limit ==> !escaped[j],
    ensures
        r is None,
{
}

/// An orbit seen past the bound at some check below the limit is reported
/// as escaping, no later than that check.
pub proof fn lemma_escapes(escaped: Seq<bool>, limit: int, r: Option<usize>, k: int)
    requires
        is_escape_result(escaped, limit, r),
        0 <= k < limit,
        escaped[k],
    ensures
        r matches Some(i) && i <= k,
{
}

/// The escape time is a function of the flags and the limit alone: two
/// results for the same inputs agree.
pub proof fn lemma_escape_result_unique(
    escaped: Seq<bool>,
    limit: int,
    r1: Option<usize>,
    r2: Option<usize>,
)
    requires
        is_escape_result(escaped, limit, r1),
        is_escape_result(escaped, limit, r2),
    ensures
        r1 == r2,
{
}

} // verus!
