//! The URL-safe base64 alphabet, on characters and on UTF-8 bytes.

use vstd::prelude::*;
use vstd::utf8::*;

verus! {

/// Whether `c` is a letter, a digit, `-` or `_`.
pub open spec fn url_safe_char(c: char) -> bool {
    ('0' <= c && c <= '9') || ('A' <= c && c <= 'Z') || ('a' <= c && c <= 'z') || c == '-' || c
        == '_'
}

/// Whether `b` is the ASCII code of a letter, a digit, `-` or `_`.
pub open spec fn url_safe_byte(b: u8) -> bool {
    (0x30 <= b && b <= 0x39) || (0x41 <= b && b <= 0x5a) || (0x61 <= b && b <= 0x7a) || b == 0x2d
        || b == 0x5f
}

/// Whether every character of `text` is in the alphabet.
pub open spec fn url_safe_text(text: Seq<char>) -> bool {
    forall|i: int| 0 <= i < text.len() ==> url_safe_char(#[trigger] text[i])
}

/// Whether every byte of `bytes` is in the alphabet.
pub open spec fn url_safe_bytes(bytes: Seq<u8>) -> bool {
    forall|i: int| 0 <= i < bytes.len() ==> url_safe_byte(#[trigger] bytes[i])
}

/// Tests one byte against the alphabet.
pub fn is_url_safe_byte(b: u8) -> (r: bool)
    ensures
        r == url_safe_byte(b),
{
    (b >= 0x30 && b <= 0x39) || (b >= 0x41 && b <= 0x5a) || (b >= 0x61 && b <= 0x7a) || b == 0x2d
        || b == 0x5f
}

/// A character whose code is below 0x80 is ASCII.
proof fn lemma_ascii_char(c: char)
    ensures
        (c as u32) < 0x80 <==> '\0' <= c <= '\u{7f}',
{
}

/// The first byte of a character's encoding is below 0x80 only for an ASCII
/// character.
proof fn lemma_leading_byte(c: u32)
    requires
        is_scalar(c),
        encode_scalar(c)[0] < 0x80,
    ensures
        has_width_1_encoding(c),
{
    let two: u8 = ((c >> 6) & 0x1F) as u8;
    let three: u8 = ((c >> 12) & 0x0F) as u8;
    let four: u8 = ((c >> 18) & 0x7) as u8;
    assert(0xC0u8 | two >= 0x80) by (bit_vector);
    assert(0xE0u8 | three >= 0x80) by (bit_vector);
    assert(0xF0u8 | four >= 0x80) by (bit_vector);
}

/// Text whose UTF-8 encoding holds no byte from 0x80 on is ASCII.
pub proof fn lemma_ascii_encoding(text: Seq<char>)
    requires
        forall|i: int| 0 <= i < encode_utf8(text).len() ==> #[trigger] encode_utf8(text)[i] < 0x80,
    ensures
        is_ascii_chars(text),
    decreases text.len(),
{
    if text.len() > 0 {
        let c = text[0] as u32;
        let head = encode_scalar(c);
        let tail = encode_utf8(text.drop_first());
        let bytes = encode_utf8(text);
        assert(bytes == head + tail);
        char_is_scalar(text[0]);
        assert(bytes[0] == head[0]);
        lemma_leading_byte(c);
        assert forall|i: int| 0 <= i < tail.len() implies #[trigger] tail[i] < 0x80 by {
            assert(bytes[i + 1] == tail[i]);
        }
        lemma_ascii_encoding(text.drop_first());
        assert forall|i: int| 0 <= i < text.len() implies '\0' <= #[trigger] text[i] <= '\u{7f}' by {
            if i > 0 {
                assert(text[i] == text.drop_first()[i - 1]);
            } else {
                lemma_ascii_char(text[0]);
            }
        }
    }
}

/// The encoding of a text lies in the alphabet exactly when the text does, and
/// then has one byte for each character.
pub proof fn lemma_url_safe_encoding(text: Seq<char>)
    ensures
        url_safe_bytes(encode_utf8(text)) <==> url_safe_text(text),
        url_safe_text(text) ==> encode_utf8(text).len() == text.len(),
{
    let bytes = encode_utf8(text);
    if url_safe_text(text) {
        assert(is_ascii_chars(text)) by {
            assert forall|i: int| 0 <= i < text.len() implies '\0' <= #[trigger] text[i]
                <= '\u{7f}' by {
                assert(url_safe_char(text[i]));
            }
        }
        is_ascii_chars_encode_utf8(text);
        assert forall|i: int| 0 <= i < bytes.len() implies url_safe_byte(#[trigger] bytes[i]) by {
            assert(url_safe_char(text[i]));
            assert(text[i] as u8 == bytes[i]);
        }
    }
    if url_safe_bytes(bytes) {
        assert forall|i: int| 0 <= i < bytes.len() implies #[trigger] bytes[i] < 0x80 by {
            assert(url_safe_byte(bytes[i]));
        }
        lemma_ascii_encoding(text);
        is_ascii_chars_encode_utf8(text);
        assert forall|i: int| 0 <= i < text.len() implies url_safe_char(#[trigger] text[i]) by {
            assert(url_safe_byte(bytes[i]));
            assert(text[i] as u8 == bytes[i]);
        }
    }
}

} // verus!
