//! How a spending key is written, and that it reads back.

use vstd::prelude::*;

use crate::outside::{
    base64_byte, base64_bytes, base64_digit, base64_padding, hex_bytes, hex_digit, is_base64,
    sextet,
};
use crate::wallet::usk_bytes;

verus! {

/// Whether `text` writes `bytes` in hexadecimal: two digits a byte, each in either
/// case, the high one first.
pub open spec fn writes_hex(text: Seq<char>, bytes: Seq<u8>) -> bool {
    &&& text.len() == 2 * bytes.len()
    &&& forall|i: int|
        0 <= i < bytes.len() ==> {
            &&& hex_digit(text[2 * i]) == Some(#[trigger] bytes[i] as int / 16)
            &&& hex_digit(text[2 * i + 1]) == Some(bytes[i] as int % 16)
        }
}

/// The digit for `value`, in upper or in lower case throughout.
pub open spec fn digit_for(value: int, upper: bool) -> char {
    if value < 10 {
        ('0' as int + value) as char
    } else if upper {
        ('A' as int + value - 10) as char
    } else {
        ('a' as int + value - 10) as char
    }
}

/// `bytes` in hexadecimal, in upper or in lower case throughout.
pub open spec fn hex_text(bytes: Seq<u8>, upper: bool) -> Seq<char> {
    Seq::new(
        2 * bytes.len(),
        |k: int|
            if k % 2 == 0 {
                digit_for(bytes[k / 2] as int / 16, upper)
            } else {
                digit_for(bytes[k / 2] as int % 16, upper)
            },
    )
}

/// A spending key that is written in hexadecimal reads back as it was, whatever its
/// bytes are and however the case of its digits is mixed.
pub proof fn hex_key_reads_back(text: Seq<char>, bytes: Seq<u8>)
    requires
        writes_hex(text, bytes),
    ensures
        usk_bytes(text) == Some(bytes),
{
    assert forall|k: int| 0 <= k < text.len() implies hex_digit(#[trigger] text[k]) is Some by {
        let byte = bytes[k / 2];
        assert(k == 2 * (k / 2) || k == 2 * (k / 2) + 1);
    }
    assert(hex_bytes(text)->0 =~= bytes) by {
        assert forall|i: int| 0 <= i < bytes.len() implies hex_bytes(text)->0[i] == #[trigger] bytes[i] by {
        }
    }
}

/// A spending key reads back from its hexadecimal in lower case, and from that in
/// upper case.
pub proof fn hex_text_reads_back(bytes: Seq<u8>, upper: bool)
    ensures
        usk_bytes(hex_text(bytes, upper)) == Some(bytes),
{
    let text = hex_text(bytes, upper);
    assert forall|i: int| 0 <= i < bytes.len() implies {
        &&& hex_digit(text[2 * i]) == Some(#[trigger] bytes[i] as int / 16)
        &&& hex_digit(text[2 * i + 1]) == Some(bytes[i] as int % 16)
    } by {
        assert((2 * i) / 2 == i && (2 * i + 1) / 2 == i);
    }
    hex_key_reads_back(text, bytes);
}

/// The letter of the base64 alphabet for `value`.
pub open spec fn letter_for(value: int) -> char {
    if value < 26 {
        ('A' as int + value) as char
    } else if value < 52 {
        ('a' as int + value - 26) as char
    } else if value < 62 {
        ('0' as int + value - 52) as char
    } else if value == 62 {
        '+'
    } else {
        '/'
    }
}

/// The byte at `i`; zero past the end.
pub open spec fn byte_or_zero(bytes: Seq<u8>, i: int) -> int {
    if i < bytes.len() {
        bytes[i] as int
    } else {
        0
    }
}

/// The six bits at `k`, of the four times six that each group of three bytes makes.
pub open spec fn six_bits(bytes: Seq<u8>, k: int) -> int {
    let i = k / 4 * 3;
    if k % 4 == 0 {
        byte_or_zero(bytes, i) / 4
    } else if k % 4 == 1 {
        byte_or_zero(bytes, i) % 4 * 16 + byte_or_zero(bytes, i + 1) / 16
    } else if k % 4 == 2 {
        byte_or_zero(bytes, i + 1) % 16 * 4 + byte_or_zero(bytes, i + 2) / 64
    } else {
        byte_or_zero(bytes, i + 2) % 64
    }
}

/// `bytes` in base64, with padding up to a whole group of four.
pub open spec fn base64_text(bytes: Seq<u8>) -> Seq<char> {
    Seq::new(
        (bytes.len() + 2) / 3 * 4,
        |k: int|
            if k < (4 * bytes.len() + 2) / 3 {
                letter_for(six_bits(bytes, k))
            } else {
                '='
            },
    )
}

/// What is written at `k` stands for the six bits there.
proof fn lemma_sextet_of_text(bytes: Seq<u8>, k: int)
    requires
        0 <= k < base64_text(bytes).len(),
    ensures
        0 <= six_bits(bytes, k) < 64,
        sextet(base64_text(bytes), k) == six_bits(bytes, k),
        base64_digit(base64_text(bytes)[k]) is Some <==> k < (4 * bytes.len() + 2) / 3,
        base64_text(bytes)[k] == '=' <==> k >= (4 * bytes.len() + 2) / 3,
{
}

/// Three bytes come back from the four times six bits that they make.
proof fn lemma_group(b0: int, b1: int, b2: int)
    requires
        0 <= b0 < 256,
        0 <= b1 < 256,
        0 <= b2 < 256,
    ensures
        b0 / 4 * 4 + (b0 % 4 * 16 + b1 / 16) / 16 == b0,
        (b0 % 4 * 16 + b1 / 16) % 16 * 16 + (b1 % 16 * 4 + b2 / 64) / 4 == b1,
        (b1 % 16 * 4 + b2 / 64) % 4 * 64 + b2 % 64 == b2,
{
}

/// The byte at `i` can be read from what is written.
proof fn lemma_byte_of_text(bytes: Seq<u8>, i: int)
    requires
        0 <= i < bytes.len(),
    ensures
        base64_byte(base64_text(bytes), i) == bytes[i],
{
    let k = i / 3 * 4;
    let g = i / 3 * 3;
    lemma_sextet_of_text(bytes, k);
    lemma_sextet_of_text(bytes, k + 1);
    lemma_sextet_of_text(bytes, k + 2);
    lemma_sextet_of_text(bytes, k + 3);
    lemma_group(
        byte_or_zero(bytes, g),
        byte_or_zero(bytes, g + 1),
        byte_or_zero(bytes, g + 2),
    );
}

/// What is written is base64, and ends in as much padding as it needs.
proof fn lemma_text_is_base64(bytes: Seq<u8>)
    ensures
        is_base64(base64_text(bytes)),
        base64_text(bytes).len() / 4 * 3 - base64_padding(base64_text(bytes)) == bytes.len(),
{
    let text = base64_text(bytes);
    let letters = (4 * bytes.len() + 2) / 3;
    assert forall|k: int| 0 <= k < letters implies base64_digit(#[trigger] text[k]) is Some by {
        lemma_sextet_of_text(bytes, k);
    }
    if bytes.len() > 0 {
        lemma_sextet_of_text(bytes, text.len() - 1);
        lemma_sextet_of_text(bytes, text.len() - 2);
        lemma_sextet_of_text(bytes, text.len() - 3);
    }
}

/// A spending key that is written in base64 reads back as it was, unless what is
/// written is hexadecimal too, and is read as that.
pub proof fn base64_key_reads_back(bytes: Seq<u8>)
    requires
        bytes.len() == 0 || hex_bytes(base64_text(bytes)) is None,
    ensures
        usk_bytes(base64_text(bytes)) == Some(bytes),
{
    if bytes.len() > 0 {
        lemma_text_is_base64(bytes);
        assert forall|i: int| 0 <= i < bytes.len() implies base64_bytes(base64_text(bytes))->0[i]
            == #[trigger] bytes[i] by {
            lemma_byte_of_text(bytes, i);
        }
    }
}

/// What is hexadecimal writes the bytes that are read from it.
proof fn lemma_hex_is_written(text: Seq<char>)
    requires
        hex_bytes(text) is Some,
    ensures
        writes_hex(text, hex_bytes(text)->0),
{
    let bytes = hex_bytes(text)->0;
    assert forall|i: int| 0 <= i < bytes.len() implies {
        &&& hex_digit(text[2 * i]) == Some(#[trigger] bytes[i] as int / 16)
        &&& hex_digit(text[2 * i + 1]) == Some(bytes[i] as int % 16)
    } by {
    }
}

/// A letter of the alphabet is the one for its six bits.
proof fn lemma_letter(c: char)
    requires
        base64_digit(c) is Some,
    ensures
        0 <= base64_digit(c)->0 < 64,
        letter_for(base64_digit(c)->0) == c,
{
}

/// Four times six bits come back from the three bytes that they make.
proof fn lemma_letters(s0: int, s1: int, s2: int, s3: int)
    requires
        0 <= s0 < 64,
        0 <= s1 < 64,
        0 <= s2 < 64,
        0 <= s3 < 64,
    ensures
        ({
            let (b0, b1, b2) = (s0 * 4 + s1 / 16, s1 % 16 * 16 + s2 / 4, s2 % 4 * 64 + s3);
            &&& 0 <= b0 < 256 && 0 <= b1 < 256 && 0 <= b2 < 256
            &&& b0 / 4 == s0
            &&& b0 % 4 * 16 + b1 / 16 == s1
            &&& b1 % 16 * 4 + b2 / 64 == s2
            &&& b2 % 64 == s3
        }),
{
}

/// The six bits at any place of a text are no more than six.
proof fn lemma_sextet_range(text: Seq<char>, k: int)
    ensures
        0 <= sextet(text, k) < 64,
{
}

/// The byte at `i` is the one that the text writes there; where padding stands in for
/// it, the text writes zero.
proof fn lemma_bytes_of_base64(text: Seq<char>, i: int)
    requires
        is_base64(text),
        0 <= i < text.len() / 4 * 3,
    ensures
        byte_or_zero(base64_bytes(text)->0, i) == base64_byte(text, i),
        0 <= base64_byte(text, i) < 256,
{
    let k = i / 3 * 4;
    lemma_sextet_range(text, k);
    lemma_sextet_range(text, k + 1);
    lemma_sextet_range(text, k + 2);
    lemma_sextet_range(text, k + 3);
    lemma_letters(
        sextet(text, k),
        sextet(text, k + 1),
        sextet(text, k + 2),
        sextet(text, k + 3),
    );
}

/// What is base64 is how the bytes that are read from it are written.
proof fn lemma_base64_is_written(text: Seq<char>)
    requires
        is_base64(text),
    ensures
        base64_text(base64_bytes(text)->0) == text,
{
    let bytes = base64_bytes(text)->0;
    assert(base64_text(bytes).len() == text.len());
    assert forall|k: int| 0 <= k < text.len() implies base64_text(bytes)[k] == #[trigger] text[k] by {
        let i = k / 4 * 3;
        let g = k / 4 * 4;
        lemma_bytes_of_base64(text, i);
        lemma_bytes_of_base64(text, i + 1);
        lemma_bytes_of_base64(text, i + 2);
        lemma_sextet_range(text, g);
        lemma_sextet_range(text, g + 1);
        lemma_sextet_range(text, g + 2);
        lemma_sextet_range(text, g + 3);
        lemma_letters(
            sextet(text, g),
            sextet(text, g + 1),
            sextet(text, g + 2),
            sextet(text, g + 3),
        );
        if k < text.len() - base64_padding(text) {
            lemma_letter(text[k]);
        }
    }
}

/// A key is read only from a text that writes it, in hexadecimal or in base64. No other
/// text passes for a key.
pub proof fn only_written_keys_are_read(text: Seq<char>, bytes: Seq<u8>)
    ensures
        usk_bytes(text) == Some(bytes) <==> writes_hex(text, bytes) || (text == base64_text(bytes)
            && (forall|other: Seq<u8>| !#[trigger] writes_hex(text, other))),
{
    if hex_bytes(text) is Some {
        lemma_hex_is_written(text);
    }
    if writes_hex(text, bytes) {
        hex_key_reads_back(text, bytes);
    }
    if usk_bytes(text) == Some(bytes) && hex_bytes(text) is None {
        lemma_base64_is_written(text);
        assert forall|other: Seq<u8>| !#[trigger] writes_hex(text, other) by {
            if writes_hex(text, other) {
                lemma_written_is_hex(text, other);
            }
        }
    }
    if text == base64_text(bytes) && (forall|other: Seq<u8>| !#[trigger] writes_hex(text, other)) {
        base64_key_reads_back(bytes);
    }
}

/// What writes bytes in hexadecimal is hexadecimal.
proof fn lemma_written_is_hex(text: Seq<char>, bytes: Seq<u8>)
    requires
        writes_hex(text, bytes),
    ensures
        hex_bytes(text) is Some,
{
    assert forall|k: int| 0 <= k < text.len() implies hex_digit(#[trigger] text[k]) is Some by {
        let byte = bytes[k / 2];
        assert(k == 2 * (k / 2) || k == 2 * (k / 2) + 1);
    }
}

} // verus!
