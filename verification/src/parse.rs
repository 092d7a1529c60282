//! Coordinate-pair parsing: a string of the form `<left><sep><right>` is
//! split at the first occurrence of the separator character, and each side
//! is parsed independently as the target numeric type.

use std::str::FromStr;
use vstd::prelude::*;

verus! {

/// The separator occurs somewhere in the sequence.
pub open spec fn contains_char(s: Seq<char>, sep: char) -> bool {
    exists|i: int| 0 <= i < s.len() && s[i] == sep
}

/// `i` is the index of the first occurrence of `sep` in `s`.
pub open spec fn is_first_occurrence(s: Seq<char>, sep: char, i: int) -> bool {
    &&& 0 <= i < s.len()
    &&& s[i] == sep
    &&& forall|j: int| 0 <= j < i ==> s[j] != sep
}

/// Index of the first occurrence of `sep` in `s`, or `None` if absent.
pub fn find_char(s: &str, sep: char) -> (r: Option<usize>)
    ensures
        match r {
            Some(i) => is_first_occurrence(s@, sep, i as int),
            None => !contains_char(s@, sep),
        },
{
    let len = s.unicode_len();
    let mut i: usize = 0;
    while i < len
        invariant
            i <= len,
            len == s@.len(),
            forall|j: int| 0 <= j < i ==> s@[j] != sep,
        decreases len - i,
    {
        if s.get_char(i) == sep {
            return Some(i);
        }
        i = i + 1;
    }
    None
}

/// Split `s` at the first occurrence of `separator` into the part before it
/// and the part after it; `None` when the separator does not occur.
pub fn split_pair(s: &str, separator: char) -> (r: Option<(String, String)>)
    ensures
        r is Some <==> contains_char(s@, separator),
        forall|i: int|
            is_first_occurrence(s@, separator, i) ==> (r matches Some(p) && p.0@ == s@.take(i)
                && p.1@ == s@.skip(i + 1)),
{
    let len = s.unicode_len();
    match find_char(s, separator) {
        None => None,
        Some(i) => {
            let left = s.substring_char(0, i);
            let right = s.substring_char(i + 1, len);
            proof {
                assert(contains_char(s@, separator)) by {
                    assert(s@[i as int] == separator);
                }
                assert forall|k: int| is_first_occurrence(s@, separator, k) implies k == i by {
                    if k < i {
                        assert(s@[k] == separator);
                    }
                    if k > i {
                        assert(s@[i as int] != separator);
                    }
                }
            }
            Some((left.to_owned(), right.to_owned()))
        },
    }
}

/// Combine the parse results of the two sides: a pair exactly when both
/// sides parsed.
pub fn pair_of<T>(left: Option<T>, right: Option<T>) -> (r: Option<(T, T)>)
    ensures
        r == match (left, right) {
            (Some(l), Some(rr)) => Some((l, rr)),
            _ => None::<(T, T)>,
        },
{
    match (left, right) {
        (Some(l), Some(rr)) => Some((l, rr)),
        _ => None,
    }
}

/// Relies on std's `FromStr::from_str`: parses the whole of `s` as a `T`.
/// Nothing is promised of the outcome for an arbitrary `T`.
#[verifier::external_body]
fn from_str_opt<T: FromStr>(s: &str) -> Option<T> {
    match T::from_str(s) {
        Ok(v) => Some(v),
        Err(_) => None,
    }
}

/// Parse `s` as a coordinate pair of the form `<left><sep><right>`, where
/// `<sep>` is `separator` and both sides parse as `T`; the right side must
/// consume the whole remaining string, so trailing text fails the parse.
pub fn parse_pair<T: FromStr>(s: &str, separator: char) -> (r: Option<(T, T)>)
    ensures
        !contains_char(s@, separator) ==> r is None,
        r is Some ==> contains_char(s@, separator),
{
    match split_pair(s, separator) {
        None => None,
        Some((left, right)) => pair_of(
            from_str_opt(left.as_str()),
            from_str_opt(right.as_str()),
        ),
    }
}

} // verus!
