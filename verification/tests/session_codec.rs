//! The session codec against the real cryptography: round trips, tamper
//! rejection, and the layers underneath it.

use time_tracker::codec::{decode_session, derive_session_key, encode_session, SessionKey};
use time_tracker::hexcode::{hex_decode, hex_encode};
use time_tracker::pages::index::UserInfo;
use time_tracker::wire::{parse_identity, serialize_identity};

fn key() -> SessionKey {
    derive_session_key(b"an-exercise-secret-of-enough-length-0123456789").unwrap()
}

fn identity() -> UserInfo {
    UserInfo {
        id: 42,
        username: Some("alice".to_string()),
        email: Some("alice@example.com".to_string()),
        authority: Some("ADMINISTRATOR".to_string()),
    }
}

fn assert_same_identity(a: &UserInfo, b: &UserInfo) {
    assert_eq!(a.id, b.id);
    assert_eq!(a.username, b.username);
    assert_eq!(a.email, b.email);
    assert_eq!(a.authority, b.authority);
}

#[test]
fn key_derivation_needs_32_bytes() {
    assert!(derive_session_key(b"short").is_none());
    assert!(derive_session_key(&[7u8; 31]).is_none());
    assert!(derive_session_key(&[7u8; 32]).is_some());
}

#[test]
fn encode_decode_round_trip() {
    let k = key();
    let u = identity();
    let sealed = encode_session(&u, &k);
    let decoded = decode_session(&sealed, &k).expect("fresh cookie must decode");
    assert_same_identity(&u, &decoded);
}

#[test]
fn round_trip_keeps_absent_fields() {
    let k = key();
    let u = UserInfo { id: -3, username: None, email: None, authority: None };
    let decoded = decode_session(&encode_session(&u, &k), &k).unwrap();
    assert_same_identity(&u, &decoded);
}

#[test]
fn round_trip_keeps_non_ascii_fields() {
    let k = key();
    let u = UserInfo {
        id: i64::MIN,
        username: Some("grüße-见".to_string()),
        email: None,
        authority: Some("EMPLOYEE".to_string()),
    };
    let decoded = decode_session(&encode_session(&u, &k), &k).unwrap();
    assert_same_identity(&u, &decoded);
}

#[test]
fn tampering_with_any_byte_yields_no_session() {
    let k = key();
    let sealed = encode_session(&identity(), &k);
    let bytes = sealed.as_bytes();
    for i in 0..bytes.len() {
        let mut tampered = bytes.to_vec();
        tampered[i] ^= 1;
        let as_text = String::from_utf8_lossy(&tampered).into_owned();
        assert!(
            decode_session(&as_text, &k).is_none(),
            "flipping byte {} must not decode",
            i
        );
    }
}

#[test]
fn truncated_and_garbage_values_yield_no_session() {
    let k = key();
    let sealed = encode_session(&identity(), &k);
    assert!(decode_session(&sealed[..sealed.len() - 1], &k).is_none());
    assert!(decode_session("", &k).is_none());
    assert!(decode_session("not a cookie", &k).is_none());
}

#[test]
fn another_key_yields_no_session() {
    let k1 = key();
    let k2 = derive_session_key(b"a-different-secret-also-long-enough-987654").unwrap();
    let sealed = encode_session(&identity(), &k1);
    assert!(decode_session(&sealed, &k2).is_none());
}

#[test]
fn sealed_value_is_not_the_payload() {
    // The sealed cookie value must not contain the identity in the clear.
    let k = key();
    let u = identity();
    let sealed = encode_session(&u, &k);
    let payload = hex_encode(&serialize_identity(&u));
    let payload_text = String::from_utf8(payload).unwrap();
    assert_ne!(sealed, payload_text);
    assert!(!sealed.contains(&payload_text));
}

#[test]
fn hex_spells_exact_digits() {
    assert_eq!(hex_encode(&[0x00, 0xff, 0x1a]), b"00ff1a".to_vec());
    assert_eq!(hex_encode(&[]), b"".to_vec());
}

#[test]
fn hex_decode_undoes_encode() {
    let bytes: Vec<u8> = (0u8..=255).collect();
    assert_eq!(hex_decode(&hex_encode(&bytes)).unwrap(), bytes);
}

#[test]
fn hex_decode_rejects_malformed_input() {
    assert!(hex_decode(b"0").is_none());
    assert!(hex_decode(b"0g").is_none());
    assert!(hex_decode(b"AB").is_none());
    assert_eq!(hex_decode(b"").unwrap(), Vec::<u8>::new());
}

#[test]
fn wire_round_trip() {
    let u = UserInfo {
        id: 0,
        username: Some(String::new()),
        email: None,
        authority: Some("EMPLOYEE".to_string()),
    };
    let parsed = parse_identity(&serialize_identity(&u)).unwrap();
    assert_same_identity(&u, &parsed);
}

#[test]
fn wire_parse_rejects_malformed_input() {
    assert!(parse_identity(b"").is_none());
    assert!(parse_identity(&[0u8; 7]).is_none());
    // Id word alone: the three fields are missing.
    assert!(parse_identity(&[0u8; 8]).is_none());
    // A bad field tag.
    let mut bad_tag = vec![0u8; 8];
    bad_tag.extend_from_slice(&[9, 0, 0]);
    assert!(parse_identity(&bad_tag).is_none());
    // Trailing bytes after three well-formed fields.
    let mut trailing = serialize_identity(&UserInfo {
        id: 1,
        username: None,
        email: None,
        authority: None,
    });
    trailing.push(0);
    assert!(parse_identity(&trailing).is_none());
    // A declared length running past the end.
    let mut overrun = vec![0u8; 8];
    overrun.push(1);
    overrun.extend_from_slice(&200u64.to_le_bytes());
    overrun.extend_from_slice(b"short");
    assert!(parse_identity(&overrun).is_none());
    // Field bytes that are not UTF-8.
    let mut not_utf8 = vec![0u8; 8];
    not_utf8.push(1);
    not_utf8.extend_from_slice(&1u64.to_le_bytes());
    not_utf8.push(0xff);
    not_utf8.push(0);
    not_utf8.push(0);
    assert!(parse_identity(&not_utf8).is_none());
}
