//! Decoding of the instrument's answers.
//!
//! An answer is a frame of bytes that holds a real number as text. The text
//! is cut out of the frame here; the number it reads as is truncated towards
//! zero by the caller, and its low 16 bits are the memory word.

use vstd::prelude::*;
use vstd::utf8::{decode_utf8, valid_utf8};

verus! {

/// Whether `c` is white space in the sense of Unicode's `White_Space`
/// property.
pub open spec fn is_space(c: char) -> bool {
    let v = c as u32;
    ||| 0x09 <= v <= 0x0D
    ||| v == 0x20
    ||| v == 0x85
    ||| v == 0xA0
    ||| v == 0x1680
    ||| 0x2000 <= v <= 0x200A
    ||| v == 0x2028
    ||| v == 0x2029
    ||| v == 0x202F
    ||| v == 0x205F
    ||| v == 0x3000
}

/// Number of white-space characters at the start of `text`.
pub open spec fn leading_spaces(text: Seq<char>) -> nat
    decreases text.len(),
{
    if text.len() > 0 && is_space(text[0]) {
        1 + leading_spaces(text.skip(1))
    } else {
        0
    }
}

/// Whether `text` ends with `suffix`.
pub open spec fn ends_with(text: Seq<char>, suffix: Seq<char>) -> bool {
    &&& suffix.len() <= text.len()
    &&& forall|i: int|
        0 <= i < suffix.len() ==> text[text.len() - suffix.len() + i] == #[trigger] suffix[i]
}

/// The line terminator that may close an answer.
pub open spec fn line_end() -> Seq<char> {
    seq!['\r', '\n']
}

/// `text` without its closing line terminator, if it has one.
pub open spec fn spec_strip_line_end(text: Seq<char>) -> Seq<char> {
    if ends_with(text, line_end()) {
        text.take(text.len() - 2)
    } else {
        text
    }
}

/// The part of an answer that is read as a number: the text without its
/// closing line terminator and without white space at its start.
pub open spec fn spec_number_text(text: Seq<char>) -> Seq<char> {
    let body = spec_strip_line_end(text);
    body.skip(leading_spaces(body) as int)
}

/// The memory word that a truncated number stands for: its low 16 bits.
pub open spec fn spec_word(value: i32) -> u16 {
    (value & 0xffff) as u16
}

/// The two bytes of a word, most significant first.
pub open spec fn spec_word_bytes(word: u16) -> Seq<u8> {
    seq![(word / 256) as u8, (word % 256) as u8]
}

/// Calls `String::from_utf8` on a copy of `frame`. The call succeeds exactly
/// on well-formed UTF-8 and then yields the characters that the bytes encode.
#[verifier::external_body]
fn utf8_text(frame: &[u8]) -> (r: Option<String>)
    ensures
        r.is_some() == valid_utf8(frame@),
        r matches Some(s) ==> s@ == decode_utf8(frame@),
{
    match String::from_utf8(frame.to_vec()) {
        Ok(s) => Some(s),
        Err(_) => None,
    }
}

/// Calls `str::strip_suffix`. The call yields a result exactly when `text`
/// ends with `suffix`, and the result is `text` without that ending.
#[verifier::external_body]
fn strip_suffix<'a>(text: &'a str, suffix: &str) -> (r: Option<&'a str>)
    ensures
        r.is_some() == ends_with(text@, suffix@),
        r matches Some(t) ==> t@ == text@.take(text@.len() - suffix@.len()),
{
    text.strip_suffix(suffix)
}

/// Calls `str::trim_start`, which drops the white space at the start of
/// `text` and nothing else.
#[verifier::external_body]
fn trim_start<'a>(text: &'a str) -> (r: &'a str)
    ensures
        r@ == text@.skip(leading_spaces(text@) as int),
{
    text.trim_start()
}

/// Cuts the number's text out of an answer frame. The frame must be
/// well-formed UTF-8; what it holds beyond that is not judged here.
pub fn response_text(frame: &[u8]) -> (r: Option<String>)
    ensures
        r.is_some() == valid_utf8(frame@),
        r matches Some(t) ==> t@ == spec_number_text(decode_utf8(frame@)),
{
    match utf8_text(frame) {
        None => None,
        Some(whole) => {
            proof {
                reveal_strlit("\r\n");
                assert("\r\n"@ =~= line_end());
            }
            let body: &str = match strip_suffix(whole.as_str(), "\r\n") {
                Some(t) => t,
                None => whole.as_str(),
            };
            let number: &str = trim_start(body);
            Some(number.to_owned())
        },
    }
}

/// The memory word for a number that was truncated towards zero: its low 16
/// bits, whatever its sign.
pub fn word_from_number(value: i32) -> (word: u16)
    ensures
        word == spec_word(value),
        word as int == (value as int) % 0x10000,
{
    let low: i32 = value & 0xffff;
    proof {
        assert(0 <= value & 0xffff <= 0xffff) by (bit_vector);
        lemma_low_bits(value);
    }
    low as u16
}

/// The low 16 bits of a number are its remainder modulo 65536, taken
/// non-negative.
pub proof fn lemma_low_bits(value: i32)
    ensures
        spec_word(value) as int == (value as int) % 0x10000,
{
    assert(0 <= value & 0xffff <= 0xffff) by (bit_vector);
    assert(value == (value >> 16) * 0x10000 + (value & 0xffff)) by (bit_vector);
    vstd::arithmetic::div_mod::lemma_fundamental_div_mod_converse(
        value as int,
        0x10000,
        (value >> 16) as int,
        (value & 0xffff) as int,
    );
}

/// The two bytes of `word`, most significant first.
pub fn word_bytes(word: u16) -> (bytes: [u8; 2])
    ensures
        bytes@ == spec_word_bytes(word),
{
    let high: u8 = (word >> 8) as u8;
    let low: u8 = (word & 0xff) as u8;
    proof {
        assert(word >> 8 == word / 256) by (bit_vector);
        assert(word & 0xff == word % 256) by (bit_vector);
    }
    let bytes: [u8; 2] = [high, low];
    assert(bytes@ =~= spec_word_bytes(word));
    bytes
}

} // verus!
