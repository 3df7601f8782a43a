//! Comparison and splitting of string slices.

use vstd::prelude::*;

verus! {

/// Whether two string slices hold the same characters.
pub(crate) fn same_text(a: &str, b: &str) -> (same: bool)
    ensures
        same == (a@ == b@),
{
    a.to_string() == b.to_string()
}

/// What follows `prefix` in `s`, if `s` starts with it.
///
/// Trusted: calls `str::strip_prefix`, which returns the slice after the
/// prefix where the string starts with the prefix, and `None` where it does
/// not.
#[verifier::external_body]
pub(crate) fn after_prefix<'a>(s: &'a str, prefix: &str) -> (rest: Option<&'a str>)
    ensures
        match rest {
            Some(r) => s@ == prefix@ + r@,
            None => !prefix@.is_prefix_of(s@),
        },
{
    s.strip_prefix(prefix)
}

/// Whether `c` is white space: one of the 25 characters with the Unicode
/// property `White_Space`.
pub open spec fn is_space(c: char) -> bool {
    let code = c as u32;
    ||| 0x09 <= code <= 0x0D
    ||| code == 0x20
    ||| code == 0x85
    ||| code == 0xA0
    ||| code == 0x1680
    ||| 0x2000 <= code <= 0x200A
    ||| code == 0x2028
    ||| code == 0x2029
    ||| code == 0x202F
    ||| code == 0x205F
    ||| code == 0x3000
}

/// Whether a text holds nothing but white space.
pub open spec fn blank(text: Seq<char>) -> bool {
    forall|i: int| 0 <= i < text.len() ==> is_space(#[trigger] text[i])
}

/// Whether `inner` is `whole` without the white space at its two ends:
/// what stands before and after it in `whole` is white space, and it
/// neither starts nor ends with white space.
pub open spec fn trims_to(whole: Seq<char>, inner: Seq<char>) -> bool {
    &&& exists|lead: Seq<char>, trail: Seq<char>|
        whole == lead + inner + trail && blank(lead) && blank(trail)
    &&& inner.len() > 0 ==> !is_space(inner.first()) && !is_space(inner.last())
}

/// `s` without the white space at its two ends.
///
/// Trusted: calls `str::trim`, which returns the slice left when the
/// leading and the trailing characters with the Unicode property
/// `White_Space` are cut off.
#[verifier::external_body]
pub(crate) fn trimmed(s: &str) -> (inner: &str)
    ensures
        trims_to(s@, inner@),
{
    s.trim()
}

} // verus!
