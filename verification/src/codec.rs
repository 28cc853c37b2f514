//! The session codec: sealing an identity into the `token` cookie value
//! and opening it again.
//!
//! The identity is laid out as bytes, spelled as lowercase hex, and then
//! sealed by the `cookie` crate's private jar: AES-256-GCM under keys
//! derived once from the configured master secret, with the cookie name
//! as associated data.  Opening is the exact inverse for values sealed
//! under the same secret; anything absent, malformed, tampered with, or
//! sealed under another key opens to nothing — never to an error.

use vstd::prelude::*;
use vstd::utf8::{
    decode_utf8, encode_utf8, encode_utf8_decode_utf8, encode_utf8_valid_utf8, is_ascii_chars,
    is_ascii_chars_encode_utf8, valid_utf8,
};

use crate::hexcode::{hex_decode, hex_encode, lemma_hex_ascii, lemma_unhex_hex, spec_hex,
    spec_unhex};
use crate::pages::index::{UserInfo, UserInfoV};
use crate::wire::{
    bytes_to_string, identity_wf, lemma_parse_serialize, parse_identity, serialize_identity,
    spec_parse, spec_serialize,
};

verus! {

/// The declaration of the `cookie` crate's key type, so that a field can
/// hold one.
#[verifier::external_type_specification]
#[verifier::external_body]
pub struct ExKey(cookie::Key);

/// The process-lifetime session key, carrying (as ghost state) the master
/// secret it was derived from.  Only `derive_session_key` constructs one,
/// which is what ties the ghost secret to the real key material.
pub struct SessionKey {
    key: cookie::Key,
    secret: Ghost<Seq<u8>>,
}

impl SessionKey {
    /// The master secret this key was derived from.
    pub closed spec fn secret(self) -> Seq<u8> {
        self.secret@
    }
}

/// What a sealed value opens to under a master secret and a cookie name:
/// the name of the `cookie` crate's deterministic authenticated
/// decryption (`PrivateJar::decrypt`), a function of exactly these
/// arguments.
pub uninterp spec fn unsealed(secret: Seq<u8>, name: Seq<char>, value: Seq<char>) -> Option<
    Seq<char>,
>;

/// Relies on `cookie::Key::derive_from`: deterministic HKDF expansion of
/// a master secret into the signing and encryption keys.  It panics on a
/// secret shorter than 32 bytes, so the precondition excludes that.
#[verifier::external_body]
fn derive_key_material(master: &[u8]) -> cookie::Key
    requires
        master@.len() >= 32,
{
    cookie::Key::derive_from(master)
}

/// Relies on the `cookie` crate's private jar (`PrivateJar::add`): it
/// seals a value with authenticated encryption under the jar's key, with
/// the cookie's name as associated data, and decryption of the sealed
/// value under the same secret and name returns exactly the value.
#[verifier::external_body]
fn seal(key: &SessionKey, name: &str, value: &str) -> (r: String)
    ensures
        unsealed(key.secret(), name@, r@) == Some(value@),
{
    let mut jar = cookie::CookieJar::new();
    jar.private_mut(&key.key).add(cookie::Cookie::new(name.to_owned(), value.to_owned()));
    jar.get(name).unwrap().value().to_owned()
}

/// Relies on `PrivateJar::decrypt`: authenticated decryption under the
/// jar's key and the cookie's name, deterministic in its inputs; it
/// returns the original plaintext for values sealed under the same secret
/// and name, and nothing for anything else.
#[verifier::external_body]
fn unseal(key: &SessionKey, name: &str, value: &str) -> (r: Option<String>)
    ensures
        match r {
            Some(s) => unsealed(key.secret(), name@, value@) == Some(s@),
            None => unsealed(key.secret(), name@, value@) is None,
        },
{
    let jar = cookie::CookieJar::new();
    let sealed = cookie::Cookie::new(name.to_owned(), value.to_owned());
    jar.private(&key.key).decrypt(sealed).map(|c| c.value().to_owned())
}

/// Derives the process-lifetime session key from the configured master
/// secret.  The secret must hold at least 32 bytes; a shorter one is
/// refused rather than accepted weakly.
pub fn derive_session_key(secret: &[u8]) -> (r: Option<SessionKey>)
    ensures
        r is Some <==> secret@.len() >= 32,
        r matches Some(k) ==> k.secret() == secret@,
{
    if secret.len() >= 32 {
        Some(SessionKey { key: derive_key_material(secret), secret: Ghost(secret@) })
    } else {
        None
    }
}

/// The name of the session cookie, as characters.
pub open spec fn token_cookie_chars() -> Seq<char> {
    "token"@
}

/// The sealed payload of an identity: its wire bytes spelled as hex
/// characters.
pub open spec fn payload_chars(v: UserInfoV) -> Seq<char> {
    spec_hex(spec_serialize(v)).map_values(|b: u8| b as char)
}

/// What a plaintext payload decodes to: un-hex its UTF-8 bytes and parse
/// the wire form; nothing if either step refuses.
pub open spec fn payload_to_identity(p: Seq<char>) -> Option<UserInfoV> {
    match spec_unhex(encode_utf8(p)) {
        None => None,
        Some(raw) => spec_parse(raw),
    }
}

/// What a cookie value decodes to under a master secret: nothing unless
/// it opens, and then whatever its payload spells.
pub open spec fn decoded_session(secret: Seq<u8>, value: Seq<char>) -> Option<UserInfoV> {
    match unsealed(secret, token_cookie_chars(), value) {
        None => None,
        Some(p) => payload_to_identity(p),
    }
}

/// A sequence of bytes below 128 is valid UTF-8 and decodes to the same
/// values as characters.
proof fn lemma_ascii_bytes_chars(bytes: Seq<u8>)
    requires
        forall|i: int| 0 <= i < bytes.len() ==> bytes[i] < 128,
    ensures
        valid_utf8(bytes),
        decode_utf8(bytes) == bytes.map_values(|b: u8| b as char),
        encode_utf8(bytes.map_values(|b: u8| b as char)) == bytes,
{
    let chars = bytes.map_values(|b: u8| b as char);
    assert(is_ascii_chars(chars));
    is_ascii_chars_encode_utf8(chars);
    assert(encode_utf8(chars) =~= bytes);
    encode_utf8_valid_utf8(chars);
    encode_utf8_decode_utf8(chars);
}

/// Seals an identity into a `token` cookie value.  The result opens,
/// under the same key, to exactly this identity's payload.
pub fn encode_session(u: &UserInfo, key: &SessionKey) -> (r: String)
    ensures
        unsealed(key.secret(), token_cookie_chars(), r@) == Some(payload_chars(u@)),
        identity_wf(u@),
{
    let raw = serialize_identity(u);
    let hexed = hex_encode(raw.as_slice());
    proof {
        lemma_hex_ascii(raw@);
        lemma_ascii_bytes_chars(hexed@);
    }
    let payload = match bytes_to_string(hexed) {
        Some(s) => s,
        None => {
            proof {
                assert(false);
            }
            String::new()
        },
    };
    proof {
        encode_utf8_decode_utf8(payload@);
        assert(payload@ == payload_chars(u@));
    }
    seal(key, "token", payload.as_str())
}

/// Opens a `token` cookie value back into an identity.  A value that is
/// tampered with, malformed, or sealed under another key yields `None`,
/// exactly as an absent session does.
pub fn decode_session(value: &str, key: &SessionKey) -> (r: Option<UserInfo>)
    ensures
        match r {
            Some(u) => decoded_session(key.secret(), value@) == Some(u@),
            None => decoded_session(key.secret(), value@) is None,
        },
{
    let payload = match unseal(key, "token", value) {
        Some(s) => s,
        None => {
            return None;
        },
    };
    let raw = match hex_decode(payload.as_str().as_bytes()) {
        Some(v) => v,
        None => {
            return None;
        },
    };
    parse_identity(raw.as_slice())
}

/// What a whole request's session decodes to under a master secret: the
/// value of its first `token` cookie pair, read as text and opened;
/// nothing when the header, the pair, or the opening fails.
pub open spec fn spec_request_session(secret: Seq<u8>, req: crate::request::RequestV) -> Option<
    UserInfoV,
> {
    match req.cookie_header {
        None => None,
        Some(h) => match crate::cookies::spec_token_value(h) {
            None => None,
            Some(vb) => if valid_utf8(vb) {
                decoded_session(secret, decode_utf8(vb))
            } else {
                None
            },
        },
    }
}

/// Reads the session identity a request carries: the first `token`
/// cookie's value, opened under the key.  Anything absent, unreadable, or
/// sealed under another key is no session.
pub fn session_from_request(request: &crate::request::Request, key: &SessionKey) -> (r: Option<
    UserInfo,
>)
    ensures
        match r {
            Some(u) => spec_request_session(key.secret(), request@) == Some(u@),
            None => spec_request_session(key.secret(), request@) is None,
        },
{
    let header = match &request.cookie_header {
        Some(h) => h,
        None => {
            return None;
        },
    };
    let value = match crate::cookies::token_value(header.as_slice()) {
        Some(v) => v,
        None => {
            return None;
        },
    };
    let text = match crate::wire::bytes_to_string(value) {
        Some(t) => t,
        None => {
            return None;
        },
    };
    proof {
        encode_utf8_decode_utf8(text@);
    }
    decode_session(text.as_str(), key)
}

/// Round trip: an identity's payload decodes back to exactly that
/// identity, for every identity representable on the wire.
pub proof fn lemma_session_round_trip(v: UserInfoV)
    requires
        identity_wf(v),
    ensures
        payload_to_identity(payload_chars(v)) == Some(v),
{
    let raw = spec_serialize(v);
    lemma_hex_ascii(raw);
    lemma_ascii_bytes_chars(spec_hex(raw));
    lemma_unhex_hex(raw);
    lemma_parse_serialize(v);
}

/// Sealing then opening under one key returns the identity unchanged:
/// any cookie value whose plaintext is an identity's payload — which is
/// what `encode_session` ensures of its result — decodes to exactly that
/// identity.
pub proof fn lemma_encode_then_decode(secret: Seq<u8>, value: Seq<char>, v: UserInfoV)
    requires
        identity_wf(v),
        unsealed(secret, token_cookie_chars(), value) == Some(payload_chars(v)),
    ensures
        decoded_session(secret, value) == Some(v),
{
    lemma_session_round_trip(v);
}

} // verus!
