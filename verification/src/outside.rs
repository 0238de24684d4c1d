//! The calls into other crates, each with what is claimed of it.

use vstd::prelude::*;

use axum::http::Uri;
use base64::engine::general_purpose::STANDARD;
use base64::Engine;
use bip0039::{English, Mnemonic};
use pepper_sync::config::TransparentAddressDiscovery;
use zcash_address::ZcashAddress;
use zcash_protocol::memo::MemoBytes;
use zcash_protocol::value::Zatoshis;

use crate::text::text_outcome;

verus! {

/// The bytes in an optional vector.
pub open spec fn bytes_of(bytes: Option<Vec<u8>>) -> Option<Seq<u8>> {
    match bytes {
        Some(b) => Some(b@),
        None => None,
    }
}

/// The most zatoshis that can ever exist: twenty-one million coins.
pub const MAX_MONEY: u64 = 2_100_000_000_000_000;

/// The length of every memo field, in bytes.
pub const MEMO_LENGTH: usize = 512;

/// The value of a hexadecimal digit, in either case.
pub open spec fn hex_digit(c: char) -> Option<int> {
    if '0' <= c <= '9' {
        Some(c as int - '0' as int)
    } else if 'a' <= c <= 'f' {
        Some(c as int - 'a' as int + 10)
    } else if 'A' <= c <= 'F' {
        Some(c as int - 'A' as int + 10)
    } else {
        None
    }
}

/// The bytes that `text` writes in hexadecimal, two digits a byte, the high one
/// first.
pub open spec fn hex_bytes(text: Seq<char>) -> Option<Seq<u8>> {
    if text.len() % 2 == 0 && (forall|i: int|
        0 <= i < text.len() ==> hex_digit(#[trigger] text[i]) is Some) {
        Some(
            Seq::new(
                text.len() / 2,
                |i: int| (hex_digit(text[2 * i])->0 * 16 + hex_digit(text[2 * i + 1])->0) as u8,
            ),
        )
    } else {
        None
    }
}

/// Calls `hex::decode`. The contract claims that it reads pairs of hexadecimal
/// digits in either case, and refuses texts of odd length or with any other
/// character.
#[verifier::external_body]
pub(crate) fn hex_decode(text: &str) -> (bytes: Option<Vec<u8>>)
    ensures
        bytes_of(bytes) == hex_bytes(text@),
{
    hex::decode(text).ok()
}

/// The six bits that a letter of the base64 alphabet stands for.
pub open spec fn base64_digit(c: char) -> Option<int> {
    if 'A' <= c <= 'Z' {
        Some(c as int - 'A' as int)
    } else if 'a' <= c <= 'z' {
        Some(c as int - 'a' as int + 26)
    } else if '0' <= c <= '9' {
        Some(c as int - '0' as int + 52)
    } else if c == '+' {
        Some(62)
    } else if c == '/' {
        Some(63)
    } else {
        None
    }
}

/// How many signs of padding `text` ends in; two at most.
pub open spec fn base64_padding(text: Seq<char>) -> int {
    if text.len() >= 2 && text.last() == '=' {
        if text[text.len() - 2] == '=' {
            2
        } else {
            1
        }
    } else {
        0
    }
}

/// The six bits at `k`; padding stands for zeros.
pub open spec fn sextet(text: Seq<char>, k: int) -> int {
    match base64_digit(text[k]) {
        Some(value) => value,
        None => 0,
    }
}

/// The byte at `i`, of the three that each group of four letters writes.
pub open spec fn base64_byte(text: Seq<char>, i: int) -> int {
    let k = i / 3 * 4;
    if i % 3 == 0 {
        sextet(text, k) * 4 + sextet(text, k + 1) / 16
    } else if i % 3 == 1 {
        sextet(text, k + 1) % 16 * 16 + sextet(text, k + 2) / 4
    } else {
        sextet(text, k + 2) % 4 * 64 + sextet(text, k + 3)
    }
}

/// Whether `text` is base64: whole groups of four, letters of the alphabet up to the
/// padding, and zeros in the bits of the last letter that no byte takes up.
pub open spec fn is_base64(text: Seq<char>) -> bool {
    let padding = base64_padding(text);
    &&& text.len() % 4 == 0
    &&& forall|k: int|
        0 <= k < text.len() - padding ==> base64_digit(#[trigger] text[k]) is Some
    &&& padding == 1 ==> sextet(text, text.len() - 2) % 4 == 0
    &&& padding == 2 ==> sextet(text, text.len() - 3) % 16 == 0
}

/// The bytes that `text` writes in base64.
pub open spec fn base64_bytes(text: Seq<char>) -> Option<Seq<u8>> {
    if is_base64(text) {
        Some(
            Seq::new(
                (text.len() / 4 * 3 - base64_padding(text)) as nat,
                |i: int| base64_byte(text, i) as u8,
            ),
        )
    } else {
        None
    }
}

/// Calls `Engine::decode` on `base64::engine::general_purpose::STANDARD`. The
/// contract claims that it reads the alphabet with `+` and `/` and the padding that
/// fills the last group of four, and refuses any other character, padding that is
/// missing or out of place, and bits of the last letter that are not zero and that no
/// byte takes up.
#[verifier::external_body]
pub(crate) fn base64_decode(text: &str) -> (bytes: Option<Vec<u8>>)
    ensures
        bytes_of(bytes) == base64_bytes(text@),
{
    STANDARD.decode(text).ok()
}

/// The phrase of the English BIP 39 mnemonic that `text` spells, with its words
/// normalized and set apart by single spaces. Where `text` spells none, what is
/// wrong with it in the words of `bip0039::Error`.
pub uninterp spec fn mnemonic_phrase(text: Seq<char>) -> Result<Seq<char>, Seq<char>>;

/// Calls `bip0039::Mnemonic::from_phrase`. The contract claims that the outcome
/// depends on the text alone, and names it: the phrase of the mnemonic, or the error
/// as it is displayed.
#[verifier::external_body]
pub(crate) fn parse_mnemonic(text: &str) -> (phrase: Result<String, String>)
    ensures
        text_outcome(phrase) == mnemonic_phrase(text@),
{
    match Mnemonic::<English>::from_phrase(text) {
        Ok(mnemonic) => Ok(mnemonic.phrase().to_string()),
        Err(error) => Err(error.to_string()),
    }
}

/// The URI that `text` reads as, written out again. Where it is no URI, what is wrong
/// with it in the words of `http::uri::InvalidUri`.
pub uninterp spec fn uri_text(text: Seq<char>) -> Result<Seq<char>, Seq<char>>;

/// Calls `http::Uri::from_str`, through `str::parse`. The contract claims that
/// the outcome depends on the text alone, and names it: the text of the URI, or the
/// error as it is displayed.
#[verifier::external_body]
pub(crate) fn parse_uri(text: &str) -> (uri: Result<String, String>)
    ensures
        text_outcome(uri) == uri_text(text@),
{
    match text.parse::<Uri>() {
        Ok(uri) => Ok(uri.to_string()),
        Err(error) => Err(error.to_string()),
    }
}

/// The canonical encoding of the Zcash address that `text` reads as. `None` where
/// it reads as none.
pub uninterp spec fn address_encoding(text: Seq<char>) -> Option<Seq<char>>;

/// Calls `zcash_address::ZcashAddress::try_from_encoded`. The contract claims
/// that the outcome depends on the text alone, and names the address by its
/// canonical encoding.
#[verifier::external_body]
pub(crate) fn parse_address(text: &str) -> (address: Option<String>)
    ensures
        address.deep_view() == address_encoding(text@),
{
    match ZcashAddress::try_from_encoded(text) {
        Ok(address) => Some(address.encode()),
        Err(_) => None,
    }
}

/// Calls `zcash_protocol::value::Zatoshis::from_u64`. The contract claims that it
/// takes every amount up to `MAX_MONEY` as it is and refuses larger ones.
#[verifier::external_body]
pub(crate) fn zatoshis_from_u64(amount: u64) -> (zatoshis: Option<u64>)
    ensures
        zatoshis == (if amount <= MAX_MONEY {
            Some(amount)
        } else {
            None
        }),
{
    match Zatoshis::from_u64(amount) {
        Ok(zatoshis) => Some(zatoshis.into_u64()),
        Err(_) => None,
    }
}

/// The memo field that carries `bytes`: the bytes, then zeros up to the full
/// length. `None` where the bytes do not fit.
pub open spec fn memo_field(bytes: Seq<u8>) -> Option<Seq<u8>> {
    if bytes.len() <= MEMO_LENGTH {
        Some(
            Seq::new(
                MEMO_LENGTH as nat,
                |i: int|
                    if i < bytes.len() {
                        bytes[i]
                    } else {
                        0
                    },
            ),
        )
    } else {
        None
    }
}

/// Calls `zcash_protocol::memo::MemoBytes::from_bytes`. The contract claims that
/// it takes at most `MEMO_LENGTH` bytes, fills the rest of the field with zeros,
/// and refuses longer input.
#[verifier::external_body]
pub(crate) fn memo_from_bytes(bytes: &[u8]) -> (memo: Option<Vec<u8>>)
    ensures
        bytes_of(memo) == memo_field(bytes@),
{
    match MemoBytes::from_bytes(bytes) {
        Ok(memo) => Some(memo.as_array().to_vec()),
        Err(_) => None,
    }
}

/// How far and where the wallet looks for transparent addresses in use.
#[derive(Clone, Copy, Debug, PartialEq, Eq)]
pub struct AddressDiscovery {
    pub gap_limit: u8,
    pub external: bool,
    pub internal: bool,
    pub refund: bool,
}

/// Calls `pepper_sync::config::TransparentAddressDiscovery::minimal`. The contract
/// claims that it looks one address ahead, in the external and the refund scope
/// and not in the internal one.
#[verifier::external_body]
pub(crate) fn minimal_discovery() -> (discovery: AddressDiscovery)
    ensures
        discovery.gap_limit == 1,
        discovery.external,
        !discovery.internal,
        discovery.refund,
{
    let minimal = TransparentAddressDiscovery::minimal();
    AddressDiscovery {
        gap_limit: minimal.gap_limit,
        external: minimal.scopes.external,
        internal: minimal.scopes.internal,
        refund: minimal.scopes.refund,
    }
}

/// A memo of up to 512 bytes is kept as it is and followed by zeros; a longer one is
/// refused.
pub proof fn memo_is_kept_and_padded(bytes: Seq<u8>)
    ensures
        memo_field(bytes) is Some <==> bytes.len() <= 512,
        memo_field(bytes) is Some ==> {
            let field = memo_field(bytes)->0;
            &&& field.len() == 512
            &&& field.take(bytes.len() as int) == bytes
            &&& forall|i: int| bytes.len() <= i < 512 ==> #[trigger] field[i] == 0
        },
{
}

} // verus!
