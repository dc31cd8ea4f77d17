//! Character classification and case-insensitive text comparison used by the
//! lexers.

use vstd::prelude::*;
use vstd::string::StrSliceExecFns;

verus! {

/// Whether `c` separates tokens: the Unicode white-space property.
pub uninterp spec fn whitespace(c: char) -> bool;

/// Whether `c` may form part of a keyword or identifier run: the Unicode
/// alphabetic property.
pub uninterp spec fn alphabetic(c: char) -> bool;

/// Relies on `char::is_whitespace`: whether the character has the Unicode
/// `White_Space` property, a function of the character alone.
#[verifier::external_body]
pub(crate) fn char_is_whitespace(c: char) -> (r: bool)
    ensures
        r == whitespace(c),
{
    c.is_whitespace()
}

/// Relies on `char::is_alphabetic`: whether the character has the Unicode
/// `Alphabetic` property, a function of the character alone.
#[verifier::external_body]
pub(crate) fn char_is_alphabetic(c: char) -> (r: bool)
    ensures
        r == alphabetic(c),
{
    c.is_alphabetic()
}

/// The code point of `c`, with ASCII capital letters folded to lower case.
pub open spec fn lower_code(c: char) -> int {
    if 65 <= c as u32 && c as u32 <= 90 {
        c as u32 + 32
    } else {
        c as u32 as int
    }
}

/// Case-insensitive equality of single characters (ASCII folding).
pub open spec fn ci_char_eq(a: char, b: char) -> bool {
    lower_code(a) == lower_code(b)
}

/// Case-insensitive equality of character sequences (ASCII folding).
pub open spec fn ci_seq_eq(a: Seq<char>, b: Seq<char>) -> bool {
    a.len() == b.len() && (forall|i: int| 0 <= i < a.len() ==> ci_char_eq(a[i], b[i]))
}

/// Texts that agree up to case agree on any further case-insensitive
/// comparison.
pub proof fn lemma_ci_seq_eq_common(a: Seq<char>, b: Seq<char>, k: Seq<char>)
    requires
        ci_seq_eq(a, b),
    ensures
        ci_seq_eq(a, k) == ci_seq_eq(b, k),
{
    if ci_seq_eq(a, k) {
        assert forall|i: int| 0 <= i < b.len() implies ci_char_eq(b[i], k[i]) by {
            assert(ci_char_eq(a[i], b[i]));
            assert(ci_char_eq(a[i], k[i]));
        }
    }
    if ci_seq_eq(b, k) {
        assert forall|i: int| 0 <= i < a.len() implies ci_char_eq(a[i], k[i]) by {
            assert(ci_char_eq(a[i], b[i]));
            assert(ci_char_eq(b[i], k[i]));
        }
    }
}

/// The folded code point of a character, for comparisons.
fn lower_code_exec(c: char) -> (v: u32)
    ensures
        v == lower_code(c),
{
    let u = c as u32;
    if 65 <= u && u <= 90 {
        u + 32
    } else {
        u
    }
}

/// Case-insensitive comparison of two texts (ASCII folding).
pub(crate) fn str_ci_eq(s: &str, t: &str) -> (r: bool)
    ensures
        r == ci_seq_eq(s@, t@),
{
    let n = s.unicode_len();
    if n != t.unicode_len() {
        return false;
    }
    let mut i: usize = 0;
    while i < n
        invariant
            n == s@.len(),
            n == t@.len(),
            i <= n,
            forall|j: int| 0 <= j < i ==> ci_char_eq(s@[j], t@[j]),
        decreases n - i,
    {
        let a = lower_code_exec(s.get_char(i));
        let b = lower_code_exec(t.get_char(i));
        if a != b {
            return false;
        }
        i = i + 1;
    }
    true
}

} // verus!
