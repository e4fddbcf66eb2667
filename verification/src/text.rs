//! Printable text as bytes and as strings.
//!
//! The editor keeps its line as bytes and the history keeps strings. Both hold
//! printable characters only, of one byte each, so the two forms turn into
//! each other character by character.

use vstd::prelude::*;
use vstd::string::*;
use vstd::utf8::*;

verus! {

/// A byte that stands for a printable character.
pub open spec fn printable(b: u8) -> bool {
    0x20 <= b <= 0x7e
}

/// Every byte is printable.
pub open spec fn printable_bytes(bytes: Seq<u8>) -> bool {
    forall|i: int| 0 <= i < bytes.len() ==> printable(#[trigger] bytes[i])
}

/// Every character is printable and takes one byte.
pub open spec fn printable_text(text: Seq<char>) -> bool {
    forall|i: int| 0 <= i < text.len() ==> ' ' <= #[trigger] text[i] <= '~'
}

/// The characters that the bytes stand for, one for one.
pub open spec fn text_of(bytes: Seq<u8>) -> Seq<char> {
    Seq::new(bytes.len(), |i: int| bytes[i] as char)
}

/// The bytes that stand for the characters, one for one.
pub open spec fn bytes_of(text: Seq<char>) -> Seq<u8> {
    Seq::new(text.len(), |i: int| text[i] as u8)
}

/// Nothing but spaces, the only white space among the printable characters.
pub open spec fn blank(bytes: Seq<u8>) -> bool {
    forall|i: int| 0 <= i < bytes.len() ==> #[trigger] bytes[i] == 0x20
}

/// Printable bytes and printable text are two forms of one thing.
pub proof fn lemma_text_round_trip(bytes: Seq<u8>)
    requires
        printable_bytes(bytes),
    ensures
        printable_text(text_of(bytes)),
        bytes_of(text_of(bytes)) == bytes,
{
    assert(bytes_of(text_of(bytes)) =~= bytes);
}

/// Printable text and printable bytes are two forms of one thing.
pub proof fn lemma_bytes_round_trip(text: Seq<char>)
    requires
        printable_text(text),
    ensures
        printable_bytes(bytes_of(text)),
        text_of(bytes_of(text)) == text,
{
    assert(text_of(bytes_of(text)) =~= text);
}

/// Printable text is encoded by its bytes, one for each character.
pub proof fn lemma_printable_encoding(text: Seq<char>)
    requires
        printable_text(text),
    ensures
        is_ascii_chars(text),
        encode_utf8(text) == bytes_of(text),
{
    is_ascii_chars_encode_utf8(text);
    assert(encode_utf8(text) =~= bytes_of(text));
}

/// `String::from_utf8`: the string whose encoding is `bytes`, handed out
/// exactly when `bytes` is well-formed UTF-8.
#[verifier::external_body]
fn string_from_utf8(bytes: Vec<u8>) -> (r: Option<String>)
    ensures
        r.is_some() == valid_utf8(bytes@),
        r.is_some() ==> encode_utf8(r.unwrap()@) == bytes@,
{
    match String::from_utf8(bytes) {
        Ok(s) => Some(s),
        Err(_) => None,
    }
}

/// Whether every byte is printable.
pub fn is_printable(bytes: &[u8]) -> (b: bool)
    ensures
        b == printable_bytes(bytes@),
{
    let mut i: usize = 0;
    while i < bytes.len()
        invariant
            i <= bytes.len(),
            forall|j: int| 0 <= j < i ==> printable(#[trigger] bytes@[j]),
        decreases bytes.len() - i,
    {
        if bytes[i] < 0x20 || bytes[i] > 0x7e {
            return false;
        }
        i += 1;
    }
    true
}

/// Whether the bytes are nothing but spaces.
pub fn is_blank(bytes: &[u8]) -> (b: bool)
    ensures
        b == blank(bytes@),
{
    let mut i: usize = 0;
    while i < bytes.len()
        invariant
            i <= bytes.len(),
            forall|j: int| 0 <= j < i ==> #[trigger] bytes@[j] == 0x20,
        decreases bytes.len() - i,
    {
        if bytes[i] != 0x20 {
            return false;
        }
        i += 1;
    }
    true
}

/// Appends the bytes of `src` from `from` up to `to`.
pub fn append_bytes(dst: &mut Vec<u8>, src: &[u8], from: usize, to: usize)
    requires
        from <= to <= src@.len(),
    ensures
        final(dst)@ == old(dst)@ + src@.subrange(from as int, to as int),
{
    let mut i: usize = from;
    while i < to
        invariant
            from <= i <= to <= src@.len(),
            dst@ == old(dst)@ + src@.subrange(from as int, i as int),
        decreases to - i,
    {
        dst.push(src[i]);
        assert(dst@ =~= old(dst)@ + src@.subrange(from as int, i + 1));
        i += 1;
    }
    assert(dst@ =~= old(dst)@ + src@.subrange(from as int, to as int));
}

/// The string that printable bytes spell.
pub fn to_text(bytes: &Vec<u8>) -> (text: String)
    requires
        printable_bytes(bytes@),
    ensures
        text@ == text_of(bytes@),
{
    let copy = bytes.clone();
    assert(copy@ =~= bytes@);
    proof {
        let spelled = text_of(bytes@);
        lemma_text_round_trip(bytes@);
        lemma_printable_encoding(spelled);
        encode_utf8_valid_utf8(spelled);
    }
    let decoded = string_from_utf8(copy);
    let text = decoded.unwrap();
    proof {
        encode_utf8_decode_utf8(text@);
        encode_utf8_decode_utf8(text_of(bytes@));
    }
    text
}

/// The bytes of a string, handed out exactly when the string is printable.
pub fn to_bytes(text: &str) -> (r: Option<Vec<u8>>)
    ensures
        r.is_some() == printable_text(text@),
        r.is_some() ==> r.unwrap()@ == bytes_of(text@),
{
    if !text.is_ascii() {
        return None;
    }
    let bytes = text.as_bytes_vec();
    proof {
        is_ascii_chars_encode_utf8(text@);
        assert(bytes@ =~= bytes_of(text@));
    }
    if is_printable(bytes.as_slice()) {
        proof {
            assert forall|i: int| 0 <= i < text@.len() implies ' ' <= #[trigger] text@[i] <= '~' by {
                assert(printable(bytes@[i]));
            }
        }
        Some(bytes)
    } else {
        proof {
            if printable_text(text@) {
                lemma_bytes_round_trip(text@);
            }
        }
        None
    }
}

} // verus!
