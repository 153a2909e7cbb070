//! Fresh identifiers for the files of a build.
//!
//! Builds share one temporary directory, within a process and across
//! processes, so a build names its files by an identifier drawn at random and
//! long enough that two builds are not expected to draw the same one.

use rand::Rng;
use vstd::prelude::*;

verus! {

/// The number of characters in an identifier.
pub const IDENTIFIER_LEN: usize = 24;

/// An ASCII letter or digit.
pub open spec fn is_alphanumeric(c: char) -> bool {
    ||| 'a' <= c <= 'z'
    ||| 'A' <= c <= 'Z'
    ||| '0' <= c <= '9'
}

/// The shape of every identifier this module produces: `IDENTIFIER_LEN`
/// ASCII letters and digits.
pub open spec fn is_identifier(id: Seq<char>) -> bool {
    &&& id.len() == IDENTIFIER_LEN
    &&& forall|i: int| 0 <= i < id.len() ==> is_alphanumeric(#[trigger] id[i])
}

/// `String::push` of the standard library: the character is appended and
/// nothing else changes.
pub assume_specification[ String::push ](s: &mut String, c: char)
    ensures
        final(s)@ == old(s)@.push(c),
;

/// One draw from `rand`'s `Alphanumeric` distribution on the generator of
/// the current thread (`rand::thread_rng`, then `Rng::sample`).
///
/// The distribution returns one byte of a fixed table of the ASCII letters
/// and digits; that the byte is one of those is all the contract claims.
/// Which one it is depends on chance, so nothing is said of it. The generator
/// is seeded by the operating system on first use in a thread, and `rand`
/// panics there if the operating system has no randomness to give.
#[verifier::external_body]
fn draw_alphanumeric() -> (b: u8)
    ensures
        is_alphanumeric(b as char),
{
    rand::thread_rng().sample(rand::distributions::Alphanumeric)
}

/// Draws a fresh identifier.
///
/// Two calls are not expected to return the same identifier, but nothing
/// here rules it out: what is promised is the shape alone.
pub fn fresh_identifier() -> (id: String)
    ensures
        is_identifier(id@),
{
    let mut id = String::new();
    let mut n: usize = 0;
    while n < IDENTIFIER_LEN
        invariant
            n <= IDENTIFIER_LEN,
            id@.len() == n,
            forall|i: int| 0 <= i < id@.len() ==> is_alphanumeric(#[trigger] id@[i]),
        decreases IDENTIFIER_LEN - n,
    {
        let b = draw_alphanumeric();
        id.push(b as char);
        n = n + 1;
    }
    id
}

} // verus!
