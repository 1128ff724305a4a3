//! Short-code generation: random, URL-safe identifiers of a fixed length.
//!
//! The generator promises a shape (length and alphabet), never global
//! uniqueness; uniqueness is the store's job.

use vstd::prelude::*;

verus! {

/// Length of every generator-produced code.
pub const CODE_LEN: usize = 21;

/// The URL-safe alphabet: ASCII letters, digits, `_` and `-`.
pub open spec fn is_url_safe_char(c: char) -> bool {
    let u = c as u32;
    (('a' as u32) <= u && u <= ('z' as u32)) || (('A' as u32) <= u && u <= ('Z' as u32)) || ((
    '0' as u32) <= u && u <= ('9' as u32)) || u == ('_' as u32) || u == ('-' as u32)
}

/// The shape every generator-produced code has: fixed length, URL-safe
/// characters only.
pub open spec fn is_generated_code(s: Seq<char>) -> bool {
    &&& s.len() == CODE_LEN
    &&& forall|i: int| 0 <= i < s.len() ==> is_url_safe_char(#[trigger] s[i])
}

/// Relies on nanoid::format with the default rng and the URL-safe alphabet
/// `nanoid::alphabet::SAFE` (`A-Za-z0-9_-`): it returns exactly `size`
/// characters, each drawn from that alphabet. The result is random, so
/// nothing more is promised of it.
#[verifier::external_body]
pub(crate) fn generate() -> (code: String)
    ensures
        is_generated_code(code@),
{
    nanoid::format(nanoid::rngs::default, &nanoid::alphabet::SAFE, CODE_LEN)
}

/// Whether every character of `s` comes from the URL-safe alphabet.
pub fn is_url_safe(s: &str) -> (r: bool)
    ensures
        r == forall|i: int| 0 <= i < s@.len() ==> is_url_safe_char(#[trigger] s@[i]),
{
    let len = s.unicode_len();
    let mut i: usize = 0;
    while i < len
        invariant
            i <= len,
            len == s@.len(),
            forall|j: int| 0 <= j < i ==> is_url_safe_char(#[trigger] s@[j]),
        decreases len - i,
    {
        let c = s.get_char(i);
        let u = c as u32;
        let lower = 'a' as u32;
        let upper = 'A' as u32;
        let digit = '0' as u32;
        let ok = (lower <= u && u <= 'z' as u32) || (upper <= u && u <= 'Z' as u32) || (digit <= u
            && u <= '9' as u32) || u == '_' as u32 || u == '-' as u32;
        if !ok {
            return false;
        }
        i = i + 1;
    }
    true
}

} // verus!
