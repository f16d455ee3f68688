//! Runtime switches read from the environment: a switch is on when its
//! value is `1`, `true`, `yes` or `on`, in any ASCII case.

use crate::text::is_named;
use vstd::prelude::*;

verus! {

/// A character with ASCII `A`..=`Z` mapped to `a`..=`z`.
pub open spec fn ascii_lower_char(c: char) -> char {
    if 65 <= (c as int) && (c as int) <= 90 {
        ((c as int) + 32) as char
    } else {
        c
    }
}

/// A string with its ASCII capitals lowered and every other character kept.
pub open spec fn ascii_lowercase(s: Seq<char>) -> Seq<char> {
    s.map_values(|c: char| ascii_lower_char(c))
}

/// `str::to_ascii_lowercase`: as its documentation says, ASCII letters `A` to
/// `Z` become `a` to `z` and every other character is left as it is.
#[verifier::external_body]
fn to_ascii_lowercase(s: &str) -> (lower: String)
    ensures
        lower@ == ascii_lowercase(s@),
{
    s.to_ascii_lowercase()
}

/// The lowercase words that switch a setting on.
pub open spec fn is_on_word(s: Seq<char>) -> bool {
    ||| s == "1"@
    ||| s == "true"@
    ||| s == "yes"@
    ||| s == "on"@
}

/// Whether an already lowercased setting value switches the setting on.
pub fn is_on_lowercase(lower: &String) -> (on: bool)
    ensures
        on == is_on_word(lower@),
{
    is_named(lower, "1") || is_named(lower, "true")
        || is_named(lower, "yes") || is_named(lower, "on")
}

/// Whether a setting value switches the setting on, in any ASCII case.
pub fn is_enabled_flag(value: &str) -> (on: bool)
    ensures
        on == is_on_word(ascii_lowercase(value@)),
{
    let lower = to_ascii_lowercase(value);
    is_on_lowercase(&lower)
}

} // verus!
