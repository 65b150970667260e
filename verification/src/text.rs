//! Text primitives shared by the input validators: whitespace detection,
//! grapheme counting and lowercasing.

use vstd::prelude::*;

verus! {

/// The Unicode White_Space property of a character, as `char::is_whitespace`
/// decides it.
pub uninterp spec fn char_is_whitespace(c: char) -> bool;

/// Relies on `char::is_whitespace` from std: whether `c` has the Unicode
/// White_Space property; the answer depends on the character alone.
#[verifier::external_body]
fn is_whitespace_char(c: char) -> (r: bool)
    ensures
        r == char_is_whitespace(c),
{
    c.is_whitespace()
}

/// Whether trimming the string would leave nothing: it is empty or every
/// character is whitespace.
pub open spec fn empty_or_whitespace(s: Seq<char>) -> bool {
    forall|i: int| 0 <= i < s.len() ==> char_is_whitespace(s[i])
}

/// Whether the string is empty or consists of whitespace alone.
pub fn is_empty_or_whitespace(s: &str) -> (r: bool)
    ensures
        r == empty_or_whitespace(s@),
{
    let n = s.unicode_len();
    let mut i: usize = 0;
    while i < n
        invariant
            0 <= i <= n,
            n as nat == s@.len(),
            forall|j: int| 0 <= j < i ==> char_is_whitespace(s@[j]),
        decreases n - i,
    {
        let c = s.get_char(i);
        if !is_whitespace_char(c) {
            assert(!empty_or_whitespace(s@));
            return false;
        }
        i += 1;
    }
    true
}

/// The number of extended grapheme clusters of a string, as the
/// unicode-segmentation crate segments it.
pub uninterp spec fn grapheme_count_of(s: Seq<char>) -> nat;

/// Relies on `UnicodeSegmentation::graphemes` from unicode-segmentation:
/// counts the extended grapheme clusters of `s`; the segmentation depends on
/// the characters alone.
#[verifier::external_body]
pub fn grapheme_count(s: &str) -> (r: usize)
    ensures
        r as nat == grapheme_count_of(s@),
{
    unicode_segmentation::UnicodeSegmentation::graphemes(s, true).count()
}

/// The lowercase form of a string, as `str::to_lowercase` maps it.
pub uninterp spec fn lower_of(s: Seq<char>) -> Seq<char>;

/// Relies on `str::to_lowercase` from std: the result depends on the
/// characters alone.
#[verifier::external_body]
pub fn to_lowercase(s: &str) -> (r: String)
    ensures
        r@ == lower_of(s@),
{
    s.to_lowercase()
}

/// Whether two string slices hold the same characters.
pub fn str_eq(a: &str, b: &str) -> (r: bool)
    ensures
        r == (a@ == b@),
{
    let n = a.unicode_len();
    if n != b.unicode_len() {
        return false;
    }
    let mut i: usize = 0;
    while i < n
        invariant
            0 <= i <= n,
            n as nat == a@.len(),
            n as nat == b@.len(),
            forall|j: int| 0 <= j < i ==> a@[j] == b@[j],
        decreases n - i,
    {
        if a.get_char(i) != b.get_char(i) {
            return false;
        }
        i += 1;
    }
    proof {
        assert(a@ =~= b@);
    }
    true
}

} // verus!
