//! Parsing of paired command-line values such as an image size.
//!
//! The launcher hands the renderer its output size as a single argument of
//! the shape `WIDTHxHEIGHT`. The work that can be pinned down exactly —
//! locating the first occurrence of the separator and splitting the text
//! around it — is verified here; turning each half into a number is left
//! to the `FromStr` implementation of the target type.

use std::str::FromStr;
use vstd::prelude::*;

verus! {

use vstd::string::StrSliceExecFns;

/// Whether the character `c` occurs anywhere in `s`.
pub open spec fn contains_char(s: Seq<char>, c: char) -> bool {
    exists|i: int| 0 <= i < s.len() && s[i] == c
}

/// Whether `i` is the index of the first occurrence of `c` in `s`.
pub open spec fn is_first_occurrence(s: Seq<char>, c: char, i: int) -> bool {
    &&& 0 <= i < s.len()
    &&& s[i] == c
    &&& forall|j: int| 0 <= j < i ==> s[j] != c
}

/// Splits `s` at the first occurrence of `separator` into the text before
/// it and the text after it, the separator itself dropped. Returns `None`
/// exactly when the separator does not occur in `s`.
pub fn split_at_separator<'a>(s: &'a str, separator: char) -> (r: Option<(&'a str, &'a str)>)
    ensures
        r is None <==> !contains_char(s@, separator),
        r matches Some((left, right)) ==> exists|i: int|
            {
                &&& #[trigger] is_first_occurrence(s@, separator, i)
                &&& left@ == s@.subrange(0, i)
                &&& right@ == s@.subrange(i + 1, s@.len() as int)
            },
{
    let n = s.unicode_len();
    let mut i: usize = 0;
    while i < n
        invariant
            i <= n,
            n == s@.len(),
            forall|j: int| 0 <= j < i ==> s@[j] != separator,
        decreases n - i,
    {
        if s.get_char(i) == separator {
            let left = s.substring_char(0, i);
            let right = s.substring_char(i + 1, n);
            proof {
                assert(is_first_occurrence(s@, separator, i as int));
            }
            return Some((left, right));
        }
        i = i + 1;
    }
    None
}

/// Relies on the `FromStr` implementation of `T` to read one component;
/// nothing is assumed about which strings it accepts or what value it
/// yields.
#[verifier::external_body]
fn parse_component<T: FromStr>(s: &str) -> Option<T> {
    T::from_str(s).ok()
}

/// Parses `s` as a pair of `T` values standing left and right of the first
/// occurrence of `separator` — an image size such as `400x800` with
/// separator `x`, or a coordinate pair with separator `,`. Returns `None`
/// when the separator does not occur or either side fails to parse.
pub fn parse_pair<T: FromStr>(s: &str, separator: char) -> (r: Option<(T, T)>)
    ensures
        !contains_char(s@, separator) ==> r is None,
        r is Some ==> contains_char(s@, separator),
{
    match split_at_separator(s, separator) {
        None => None,
        Some((left, right)) => match (
            parse_component::<T>(left),
            parse_component::<T>(right),
        ) {
            (Some(a), Some(b)) => Some((a, b)),
            _ => None,
        },
    }
}

} // verus!
