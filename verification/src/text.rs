//! Operations on text that the rest of the library is stated over.
//!
//! Text is modelled as a sequence of characters. Whatever this module proves is
//! proved over that model; the few operations that are left to the standard
//! library are marked as such and say what they take on trust.

use vstd::prelude::*;
use vstd::string::StrSliceExecFns;
use vstd::string::StringExecFns;

verus! {

/// The upper-case form of a text, as the standard library computes it from the
/// Unicode character database.
pub uninterp spec fn uppercase_of(text: Seq<char>) -> Seq<char>;

/// The lower-case form of a text, as the standard library computes it from the
/// Unicode character database.
pub uninterp spec fn lowercase_of(text: Seq<char>) -> Seq<char>;

/// The text that a run of bytes decodes to when every ill-formed part of it is
/// replaced by U+FFFD.
pub uninterp spec fn lossy_text(bytes: Seq<u8>) -> Seq<char>;

/// Calls `str::to_uppercase`. Trusted: the result is `uppercase_of` of the
/// argument, that is, it depends on the characters of the argument alone.
#[verifier::external_body]
pub(crate) fn to_upper(text: &str) -> (r: String)
    ensures
        r@ == uppercase_of(text@),
{
    text.to_uppercase()
}

/// Calls `str::to_lowercase`. Trusted: the result is `lowercase_of` of the
/// argument, that is, it depends on the characters of the argument alone.
#[verifier::external_body]
pub(crate) fn to_lower(text: &str) -> (r: String)
    ensures
        r@ == lowercase_of(text@),
{
    text.to_lowercase()
}

/// Calls `String::from_utf8_lossy`. Trusted: the result is `lossy_text` of the
/// bytes, that is, it depends on the bytes alone.
#[verifier::external_body]
pub(crate) fn decode_lossy(bytes: &Vec<u8>) -> (r: String)
    ensures
        r@ == lossy_text(bytes@),
{
    String::from_utf8_lossy(bytes).into_owned()
}

/// Calls `String::push`. Trusted: the character is appended and nothing else
/// changes.
#[verifier::external_body]
pub(crate) fn push_char(text: &mut String, c: char)
    ensures
        final(text)@ == old(text)@.push(c),
{
    text.push(c)
}

/// The ASCII upper-case form of a character: `a` to `z` become `A` to `Z`,
/// every other character stays.
pub open spec fn ascii_upper(c: char) -> char {
    if 'a' <= c && c <= 'z' {
        ((c as u32) - 32) as char
    } else {
        c
    }
}

/// The ASCII upper-case form of a text, character by character.
pub open spec fn ascii_uppercase_of(text: Seq<char>) -> Seq<char> {
    text.map_values(|c: char| ascii_upper(c))
}

/// The ASCII upper-case form of a character.
pub fn char_to_ascii_upper(c: char) -> (r: char)
    ensures
        r == ascii_upper(c),
{
    if 'a' <= c && c <= 'z' {
        ((c as u8) - 32) as char
    } else {
        c
    }
}

/// The ASCII upper-case form of a text.
pub fn to_ascii_upper(text: &str) -> (r: String)
    ensures
        r@ == ascii_uppercase_of(text@),
{
    let mut out = String::new();
    for c in it: text.chars()
        invariant
            it.seq() == text@,
            out@ == ascii_uppercase_of(text@.take(it.index())),
    {
        push_char(&mut out, char_to_ascii_upper(c));
    }
    out
}

/// Whether two texts hold the same characters.
pub fn same_text(a: &str, b: &str) -> (r: bool)
    ensures
        r == (a@ == b@),
{
    let x = a.to_owned();
    let y = b.to_owned();
    x == y
}

/// Whether `text` begins with `prefix`.
pub fn starts_with(text: &str, prefix: &str) -> (r: bool)
    ensures
        r == prefix@.is_prefix_of(text@),
{
    let n = prefix.unicode_len();
    if text.unicode_len() < n {
        return false;
    }
    let head = text.substring_char(0, n);
    assert(head@ == text@.subrange(0, n as int));
    let r = same_text(head, prefix);
    proof {
        if r {
            assert(prefix@ =~= text@.subrange(0, prefix@.len() as int));
        }
    }
    r
}

/// The text without its first character; the empty text stays empty.
pub fn without_first(text: &str) -> (r: String)
    ensures
        r@ == if text@.len() > 0 {
            text@.skip(1)
        } else {
            text@
        },
{
    let n = text.unicode_len();
    if n == 0 {
        text.to_owned()
    } else {
        text.substring_char(1, n).to_owned()
    }
}

/// The text that holds the one character `c`.
pub fn char_text(c: char) -> (r: String)
    ensures
        r@ == seq![c],
{
    let mut out = String::new();
    push_char(&mut out, c);
    assert(out@ =~= seq![c]);
    out
}

} // verus!
