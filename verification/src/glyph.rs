//! Code page 437 glyph codes, as the terminal renderer draws them.
use vstd::prelude::*;

verus! {

/// A glyph code of the terminal font (code page 437).
pub type FontCharType = u16;

/// The code page 437 code of a character, as `bracket_terminal::prelude::to_cp437`
/// computes it (a fixed table; characters without an entry map to 0).
pub uninterp spec fn cp437(c: char) -> u16;

/// Calls `bracket_terminal::prelude::to_cp437`, the code page 437 table of
/// the bracket-lib terminal crates (the one of them that the registry offers;
/// the game's renderer draws with the same codes).
///
/// Trusted: the result is `cp437(c)`, a function of `c` alone. Beside that
/// name the contract states the table entries that the library relies on, all
/// plainly written in the crate's match: printable ASCII (space to `~`) maps to
/// its own code, and the four arrows map to 16, 17, 30 and 31. Nothing is said
/// of other characters here.
#[verifier::external_body]
pub fn to_cp437(c: char) -> (r: FontCharType)
    ensures
        r == cp437(c),
        32 <= (c as u32) <= 126 ==> r == (c as u32),
        c == '\u{25BA}' ==> r == 16,
        c == '\u{25C4}' ==> r == 17,
        c == '\u{25B2}' ==> r == 30,
        c == '\u{25BC}' ==> r == 31,
{
    bracket_terminal::prelude::to_cp437(c)
}

} // verus!
