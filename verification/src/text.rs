//! Text as a child process hands it back: bytes to characters, and trimming.

use vstd::prelude::*;
use vstd::utf8::{decode_utf8, valid_utf8};

verus! {

/// The text that `String::from_utf8_lossy` makes of `bytes`: their decoding
/// where they are valid UTF-8, and otherwise a text in which each invalid
/// stretch is replaced.
pub uninterp spec fn lossy_text(bytes: Seq<u8>) -> Seq<char>;

/// Whether `c` has the Unicode property `White_Space`, by which `str::trim`
/// tells what to remove.
pub uninterp spec fn white_space(c: char) -> bool;

/// The number of white-space characters that `text` begins with.
pub open spec fn leading_space(text: Seq<char>) -> nat
    decreases text.len(),
{
    if text.len() > 0 && white_space(text.first()) {
        1 + leading_space(text.drop_first())
    } else {
        0
    }
}

/// The number of white-space characters that `text` ends with.
pub open spec fn trailing_space(text: Seq<char>) -> nat
    decreases text.len(),
{
    if text.len() > 0 && white_space(text.last()) {
        1 + trailing_space(text.drop_last())
    } else {
        0
    }
}

/// `text` without the white space that it begins and ends with.
pub open spec fn trimmed(text: Seq<char>) -> Seq<char> {
    let rest = text.skip(leading_space(text) as int);
    rest.take(rest.len() - trailing_space(rest))
}

/// `String::from_utf8_lossy`, as an owned string. The result depends on the
/// bytes alone; valid UTF-8 is decoded as it stands.
#[verifier::external_body]
pub(crate) fn decode_lossy(bytes: &[u8]) -> (text: String)
    ensures
        text@ == lossy_text(bytes@),
        valid_utf8(bytes@) ==> text@ == decode_utf8(bytes@),
{
    String::from_utf8_lossy(bytes).into_owned()
}

/// `str::trim`, as an owned string: the text between the leading and the
/// trailing white space, which neither begins nor ends with a white-space
/// character.
#[verifier::external_body]
pub(crate) fn trim(text: &str) -> (kept: String)
    ensures
        kept@ == trimmed(text@),
        kept@.len() > 0 ==> !white_space(kept@.first()) && !white_space(kept@.last()),
{
    text.trim().to_string()
}

} // verus!
