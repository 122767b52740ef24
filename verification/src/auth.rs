use vstd::prelude::*;
use vstd::string::StringSliceAdditionalSpecFns;
use vstd::utf8::encode_utf8;

use crate::codec::{append_bytes, Decoded};
use crate::types::ConnectionConfig;

verus! {

/// The one response byte that admits the device.
pub const AUTH_ACCEPTED: u8 = 0x01;

/// The byte that stands between user and secret.
pub const AUTH_SEPARATOR: u8 = 0x3a;

/// The text that proves who the device is: user, a colon, secret.
pub open spec fn auth_text(user: Seq<char>, secret: Seq<char>) -> Seq<char> {
    user + seq![':'] + secret
}

/// The longest text, in bytes of its UTF-8 encoding, whose length one byte
/// can hold.
pub const AUTH_TEXT_MAX: usize = 255;

/// The bytes of the text for `user` and `secret`: its UTF-8 encoding.
pub open spec fn auth_text_bytes(user: Seq<char>, secret: Seq<char>) -> Seq<u8> {
    encode_utf8(auth_text(user, secret))
}

/// Whether the text for `user` and `secret` fits behind a length byte.
pub open spec fn auth_fits(user: Seq<char>, secret: Seq<char>) -> bool {
    auth_text_bytes(user, secret).len() <= AUTH_TEXT_MAX
}

/// The authentication request: one byte that holds the length of the
/// text in bytes, then that many bytes, the text itself. A text of more
/// than 255 bytes has no request.
pub open spec fn auth_request(user: Seq<char>, secret: Seq<char>) -> Option<Seq<u8>> {
    let text = auth_text_bytes(user, secret);
    if auth_fits(user, secret) {
        Some(seq![text.len() as u8] + text)
    } else {
        None
    }
}

/// In every authentication request the length byte counts exactly the
/// bytes that follow it, and those are the text.
pub proof fn lemma_auth_length_byte_counts_text(user: Seq<char>, secret: Seq<char>)
    requires
        auth_fits(user, secret),
    ensures
        auth_request(user, secret) matches Some(request) && request.len() >= 1 && request[0]
            == request.len() - 1 && request.drop_first() == auth_text_bytes(user, secret),
{
    let text = auth_text_bytes(user, secret);
    let request = seq![text.len() as u8] + text;
    assert(request.drop_first() =~= text);
}

/// The UTF-8 encoding of a text is that of its front followed by that of
/// its back.
pub proof fn lemma_encode_utf8_concat(front: Seq<char>, back: Seq<char>)
    ensures
        encode_utf8(front + back) == encode_utf8(front) + encode_utf8(back),
    decreases front.len(),
{
    if front.len() == 0 {
        assert(front + back =~= back);
        assert(encode_utf8(front) + encode_utf8(back) =~= encode_utf8(back));
    } else {
        assert((front + back).drop_first() =~= front.drop_first() + back);
        lemma_encode_utf8_concat(front.drop_first(), back);
        assert((front + back)[0] == front[0]);
        assert(encode_utf8(front + back) =~= encode_utf8(front) + encode_utf8(back));
    }
}

/// A colon is encoded as the single separator byte.
pub proof fn lemma_encode_separator()
    ensures
        encode_utf8(seq![':']) == seq![AUTH_SEPARATOR],
{
    let colon = seq![':'];
    assert(colon.drop_first() =~= Seq::<char>::empty());
    assert(encode_utf8(colon.drop_first()) =~= Seq::<u8>::empty());
    assert(':' as u32 == 0x3a);
    assert((0x3au32 & 0x7f) as u8 == 0x3a) by (bit_vector);
    assert(0x3au32 <= 0x7f);
    assert(encode_utf8(colon) =~= seq![AUTH_SEPARATOR]);
}

/// Builds the authentication request for the credentials in `config`, or
/// nothing where their text is too long for the length byte: such
/// credentials are never put on the wire.
pub fn encode_auth(config: &ConnectionConfig) -> (request: Option<Vec<u8>>)
    ensures
        request is Some <==> auth_fits(config@.user, config@.secret),
        match request {
            Some(bytes) => Some(bytes@) == auth_request(config@.user, config@.secret),
            None => auth_request(config@.user, config@.secret) is None,
        },
{
    let mut request: Vec<u8> = Vec::new();
    append_bytes(&mut request, config.user.as_str().as_bytes());
    request.push(AUTH_SEPARATOR);
    append_bytes(&mut request, config.secret.as_str().as_bytes());
    proof {
        lemma_encode_separator();
        lemma_encode_utf8_concat(config@.user, seq![':']);
        lemma_encode_utf8_concat(config@.user + seq![':'], config@.secret);
        assert(request@ =~= auth_text_bytes(config@.user, config@.secret));
    }
    if request.len() > AUTH_TEXT_MAX {
        return None;
    }
    let length: u8 = request.len() as u8;
    request.insert(0, length);
    assert(request@ =~= seq![length] + auth_text_bytes(config@.user, config@.secret));
    Some(request)
}

/// How many bytes the server's verdict takes: one.
pub open spec fn auth_frame_len() -> nat {
    1
}

/// Decodes the server's verdict on an authentication request from the
/// bytes received so far: admitted on the accepting byte, turned away on
/// any other.
pub fn decode_auth(bytes: &[u8]) -> (r: Decoded<bool>)
    ensures
        match r {
            Decoded::Complete { value, consumed } => {
                &&& bytes@.len() >= auth_frame_len()
                &&& consumed == auth_frame_len()
                &&& value == (bytes@[0] == AUTH_ACCEPTED)
            },
            Decoded::Incomplete { missing } => {
                &&& bytes@.len() < auth_frame_len()
                &&& missing == auth_frame_len() - bytes@.len()
            },
        },
{
    if bytes.len() < 1 {
        Decoded::Incomplete { missing: 1 }
    } else {
        Decoded::Complete { value: bytes[0] == AUTH_ACCEPTED, consumed: 1 }
    }
}

} // verus!
