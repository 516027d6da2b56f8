//! What the input reader does with a line once it has been read.
use vstd::prelude::*;

verus! {

/// The characters with the Unicode `White_Space` property.
pub open spec fn is_whitespace(c: char) -> bool {
    let v = c as u32;
    (0x9 <= v <= 0xd) || v == 0x20 || v == 0x85 || v == 0xa0 || v == 0x1680 || (0x2000 <= v
        <= 0x200a) || v == 0x2028 || v == 0x2029 || v == 0x202f || v == 0x205f || v == 0x3000
}

/// `r` is `s` with its leading and trailing whitespace removed: the part of
/// `s` from `i` to `j`, where everything outside it is whitespace and it
/// neither starts nor ends with whitespace.
pub open spec fn trimmed_between(s: Seq<char>, r: Seq<char>, i: int, j: int) -> bool {
    &&& 0 <= i <= j <= s.len()
    &&& r == s.subrange(i, j)
    &&& forall|k: int| 0 <= k < i ==> is_whitespace(#[trigger] s[k])
    &&& forall|k: int| j <= k < s.len() ==> is_whitespace(#[trigger] s[k])
    &&& i < j ==> !is_whitespace(s[i]) && !is_whitespace(s[j - 1])
}

/// `r` is `s` with its leading and trailing whitespace removed.
pub open spec fn is_trim_of(s: Seq<char>, r: Seq<char>) -> bool {
    exists|i: int, j: int| trimmed_between(s, r, i, j)
}

/// Relies on str::trim: it removes the leading and trailing characters that
/// have the Unicode White_Space property, and keeps the rest.
#[verifier::external_body]
fn trim_whitespace(s: &str) -> (r: String)
    ensures
        is_trim_of(s@, r@),
{
    s.trim().to_string()
}

/// A line as entered, without the whitespace around it (the line terminator
/// included); whitespace inside it is kept.
pub fn clean_line(line: &str) -> (r: String)
    ensures
        is_trim_of(line@, r@),
{
    trim_whitespace(line)
}

} // verus!
