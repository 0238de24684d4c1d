//! Which requests are let in.

use vstd::prelude::*;
use vstd::utf8::{encode_utf8, encode_utf8_decode_utf8, is_ascii_chars_encode_utf8};

use crate::error::StatusCode;
use crate::settings::settings_in;
use crate::text::blank;

verus! {

/// The header in which a request presents its key.
pub const API_KEY_HEADER: &'static str = "x-api-key";

/// The bytes that a header value may hold to count as text: visible ASCII, space
/// and tab.
pub open spec fn visible(b: u8) -> bool {
    32 <= b < 127 || b == 9
}

/// The text of a header value. `None` where it holds anything else than text.
pub open spec fn header_text(value: Seq<u8>) -> Option<Seq<char>> {
    if forall|i: int| 0 <= i < value.len() ==> visible(#[trigger] value[i]) {
        Some(value.map_values(|b: u8| b as char))
    } else {
        None
    }
}

/// The bytes of a header value that may be absent.
pub open spec fn header_bytes(header: Option<&[u8]>) -> Option<Seq<u8>> {
    match header {
        Some(value) => Some(value@),
        None => None,
    }
}

/// Whether a request that presents `header` is let in where `api_key` is asked
/// for.
pub open spec fn admitted(header: Option<Seq<u8>>, api_key: Option<Seq<char>>) -> bool {
    match api_key {
        Some(key) => header is Some && header_text(header->0) == Some(key),
        None => true,
    }
}

/// The text of a header value has the value's bytes as its UTF-8.
proof fn lemma_header_text_utf8(value: Seq<u8>)
    requires
        header_text(value) is Some,
    ensures
        encode_utf8(header_text(value)->0) == value,
{
    let text = header_text(value)->0;
    assert forall|i: int| 0 <= i < text.len() implies 0 <= #[trigger] text[i] < 128 by {
        assert(visible(value[i]));
    }
    is_ascii_chars_encode_utf8(text);
    assert(encode_utf8(text) =~= value);
}

/// Tells whether a header value is text that equals `key`.
fn header_is(value: &[u8], key: &str) -> (r: bool)
    ensures
        r == (header_text(value@) == Some(key@)),
{
    let bytes = key.as_bytes();
    proof {
        if header_text(value@) is Some {
            lemma_header_text_utf8(value@);
            encode_utf8_decode_utf8(header_text(value@)->0);
            encode_utf8_decode_utf8(key@);
        }
    }
    if value.len() != bytes.len() {
        return false;
    }
    for i in 0..value.len()
        invariant
            value.len() == bytes.len(),
            bytes@ == encode_utf8(key@),
            header_text(value@) == Some(key@) ==> value@ == bytes@,
            forall|j: int| 0 <= j < i ==> visible(#[trigger] value@[j]) && value@[j] == bytes@[j],
    {
        let b: u8 = value[i];
        if !((32 <= b && b < 127) || b == 9) || b != bytes[i] {
            return false;
        }
    }
    assert(value@ == bytes@);
    true
}

/// Lets a request in or refuses it. `header` is the value of the request's key
/// header, where it has one; `api_key` is the key that is asked for, if any.
pub fn auth(header: Option<&[u8]>, api_key: &Option<String>) -> (decision: Result<(), StatusCode>)
    ensures
        match decision {
            Ok(_) => admitted(header_bytes(header), api_key.deep_view()),
            Err(status) => status == StatusCode::Unauthorized && !admitted(
                header_bytes(header),
                api_key.deep_view(),
            ),
        },
        decision is Err ==> decision->Err_0 == StatusCode::Unauthorized,
        api_key is None ==> decision is Ok,
        api_key is Some && header is None ==> decision is Err,
        api_key is Some && header is Some ==> (decision is Ok <==> {
            let (key, sent) = (api_key->0@, header->0@);
            &&& sent.len() == key.len()
            &&& forall|i: int|
                #![trigger sent[i]]
                0 <= i < sent.len() ==> sent[i] as char == key[i] && (32 <= sent[i] <= 126
                    || sent[i] == 9)
        }),
{
    proof {
        if api_key is Some && header is Some {
            header_text_is_its_bytes(header->0@, api_key->0@);
        }
    }
    if let Some(api_key) = api_key {
        if let Some(sent_key) = header {
            if header_is(sent_key, api_key.as_str()) {
                return Ok(());
            }
        }
        Err(StatusCode::Unauthorized)
    } else {
        Ok(())
    }
}

/// A blank `ZCASH_LIGHT_CLIENT_API_KEY` asks for no key, as does one that is not
/// set: every request is let in. Any other is asked for as it stands: a request is
/// let in exactly when its key header is text and equals the key.
pub proof fn key_guards_requests(
    env: Map<Seq<char>, Seq<char>>,
    fault: Seq<char>,
    header: Option<Seq<u8>>,
)
    requires
        settings_in(env, fault) is Ok,
    ensures
        ({
            let name = "ZCASH_LIGHT_CLIENT_API_KEY"@;
            let let_in = admitted(header, settings_in(env, fault)->Ok_0.api_key);
            if !env.contains_key(name) || blank(env[name]) {
                let_in
            } else {
                let_in <==> header is Some && header_text(header->0) == Some(env[name])
            }
        }),
{
}

/// The text of a header value has a character for each of its bytes, and every value of
/// printable ASCII, spaces and tabs is text.
pub proof fn header_text_is_its_bytes(value: Seq<u8>, text: Seq<char>)
    ensures
        header_text(value) == Some(text) <==> {
            &&& value.len() == text.len()
            &&& forall|i: int|
                #![trigger value[i]]
                0 <= i < value.len() ==> value[i] as char == text[i] && (32 <= value[i] <= 126
                    || value[i] == 9)
        },
{
    if value.len() == text.len() && (forall|i: int|
        #![trigger value[i]]
        0 <= i < value.len() ==> value[i] as char == text[i] && (32 <= value[i] <= 126 || value[i]
            == 9)) {
        assert(header_text(value)->0 =~= text);
    }
}

/// Where a key is asked for, a request is let in exactly when it presents that key, and
/// presenting any other is like presenting none. Where none is asked for, whatever a
/// request presents lets it in.
pub proof fn only_the_key_opens(header: Option<Seq<u8>>, key: Seq<char>)
    ensures
        admitted(header, None),
        admitted(header, Some(key)) <==> header is Some && header_text(header->0) == Some(key),
        !admitted(None, Some(key)),
        API_KEY_HEADER@ == "x-api-key"@,
{
}

} // verus!
