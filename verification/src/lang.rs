//! Language codes and their canonical (upper-case) form.

use vstd::prelude::*;

verus! {

/// The ASCII upper-case counterpart of a character: `a`..`z` map to `A`..`Z`,
/// every other character maps to itself.
pub open spec fn upper_char(c: char) -> char {
    if 'a' <= c && c <= 'z' {
        ((c as u32) - 32) as char
    } else {
        c
    }
}

/// A text with every character replaced by its ASCII upper-case counterpart.
pub open spec fn ascii_upper(s: Seq<char>) -> Seq<char> {
    Seq::new(s.len(), |i: int| upper_char(s[i]))
}

/// A language code in canonical form: not empty, and free of ASCII lower-case
/// letters.
pub open spec fn is_language_code(s: Seq<char>) -> bool {
    s.len() > 0 && ascii_upper(s) == s
}

/// Two language codes name the same language when they agree up to ASCII case.
pub open spec fn same_language(a: Seq<char>, b: Seq<char>) -> bool {
    ascii_upper(a) == ascii_upper(b)
}

/// Upper-casing is idempotent: a code that went through it is canonical unless
/// it is empty.
pub proof fn lemma_ascii_upper_idempotent(s: Seq<char>)
    ensures
        ascii_upper(ascii_upper(s)) == ascii_upper(s),
        ascii_upper(s).len() == s.len(),
{
    assert forall|i: int| 0 <= i < s.len() implies upper_char(upper_char(s[i])) == upper_char(
        s[i],
    ) by {
        let c = s[i];
        if 'a' <= c && c <= 'z' {
            assert(upper_char(c) as u32 == (c as u32) - 32);
        }
    }
    assert(ascii_upper(ascii_upper(s)) =~= ascii_upper(s));
}

/// Calls `str::to_ascii_uppercase` of the standard library, which is documented
/// to return a copy of the text in which the ASCII letters `a` to `z` are mapped
/// to `A` to `Z` and every other character is left as it is.
#[verifier::external_body]
fn to_ascii_uppercase(s: &str) -> (r: String)
    ensures
        r@ == ascii_upper(s@),
{
    s.to_ascii_uppercase()
}

/// The canonical form of a language code.
pub fn normalize(code: &str) -> (r: String)
    ensures
        r@ == ascii_upper(code@),
        r@.len() == code@.len(),
        code@.len() > 0 ==> is_language_code(r@),
{
    proof {
        lemma_ascii_upper_idempotent(code@);
    }
    to_ascii_uppercase(code)
}

/// Whether two language codes agree up to ASCII case.
pub fn codes_match(a: &str, b: &str) -> (r: bool)
    ensures
        r == same_language(a@, b@),
{
    let x = to_ascii_uppercase(a);
    let y = to_ascii_uppercase(b);
    x == y
}

} // verus!
