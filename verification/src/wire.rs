//! The wire form of the session identity.
//!
//! Before sealing, a `UserInfo` is laid out as bytes: the id as eight
//! little-endian bytes, then each optional string field as a tag byte —
//! zero for absent, one for present — followed, when present, by the
//! UTF-8 byte length as eight little-endian bytes and the bytes
//! themselves.  Parsing accepts exactly this layout and nothing else, and
//! undoes it.

use vstd::bytes::{
    lemma_auto_spec_u64_to_from_le_bytes, spec_u64_from_le_bytes, spec_u64_to_le_bytes,
    u64_from_le_bytes, u64_to_le_bytes,
};
use vstd::prelude::*;
use vstd::utf8::{
    decode_utf8, encode_utf8, encode_utf8_decode_utf8, encode_utf8_valid_utf8, valid_utf8,
};

use crate::pages::index::{opt_string_view, UserInfo, UserInfoV};

verus! {

/// The wire form of one optional string field.
pub open spec fn opt_field_bytes(f: Option<Seq<char>>) -> Seq<u8> {
    match f {
        None => seq![0u8],
        Some(cs) => seq![1u8] + spec_u64_to_le_bytes(encode_utf8(cs).len() as u64) + encode_utf8(
            cs,
        ),
    }
}

/// The wire form of a whole identity.
pub open spec fn spec_serialize(v: UserInfoV) -> Seq<u8> {
    spec_u64_to_le_bytes(v.id as u64) + opt_field_bytes(v.username) + opt_field_bytes(v.email)
        + opt_field_bytes(v.authority)
}

/// A field is representable on the wire: its UTF-8 length fits the
/// eight-byte length word.  Every string held in memory satisfies this.
pub open spec fn field_wf(f: Option<Seq<char>>) -> bool {
    match f {
        None => true,
        Some(cs) => encode_utf8(cs).len() <= u64::MAX,
    }
}

/// An identity is representable on the wire.
pub open spec fn identity_wf(v: UserInfoV) -> bool {
    field_wf(v.username) && field_wf(v.email) && field_wf(v.authority)
}

/// What one optional string field parses to, with the bytes that follow
/// it; nothing if the tag, length, or bytes are malformed.
pub open spec fn spec_parse_field(b: Seq<u8>) -> Option<(Option<Seq<char>>, Seq<u8>)> {
    if b.len() < 1 {
        None
    } else if b[0] == 0 {
        Some((None, b.skip(1)))
    } else if b[0] == 1 {
        if b.len() < 9 {
            None
        } else {
            let n = spec_u64_from_le_bytes(b.subrange(1, 9));
            if b.len() - 9 < n {
                None
            } else {
                let fb = b.subrange(9, 9 + n);
                if valid_utf8(fb) {
                    Some((Some(decode_utf8(fb)), b.skip(9 + n)))
                } else {
                    None
                }
            }
        }
    } else {
        None
    }
}

/// What a byte sequence parses to as a whole identity: the id word, the
/// three fields in order, and nothing left over.
pub open spec fn spec_parse(b: Seq<u8>) -> Option<UserInfoV> {
    if b.len() < 8 {
        None
    } else {
        let id = spec_u64_from_le_bytes(b.take(8)) as i64;
        match spec_parse_field(b.skip(8)) {
            None => None,
            Some((username, r1)) => match spec_parse_field(r1) {
                None => None,
                Some((email, r2)) => match spec_parse_field(r2) {
                    None => None,
                    Some((authority, r3)) => if r3.len() == 0 {
                        Some(UserInfoV { id, username, email, authority })
                    } else {
                        None
                    },
                },
            },
        }
    }
}

/// Parsing undoes the wire form of one field, whatever follows it.
pub proof fn lemma_parse_field_round_trip(f: Option<Seq<char>>, rest: Seq<u8>)
    requires
        field_wf(f),
    ensures
        spec_parse_field(opt_field_bytes(f) + rest) == Some((f, rest)),
{
    let b = opt_field_bytes(f) + rest;
    match f {
        None => {
            assert(b[0] == 0);
            assert(b.skip(1) =~= rest);
        },
        Some(cs) => {
            let e = encode_utf8(cs);
            let n = e.len() as int;
            lemma_auto_spec_u64_to_from_le_bytes();
            let len8 = spec_u64_to_le_bytes(e.len() as u64);
            assert(len8.len() == 8);
            assert(b[0] == 1);
            assert(b.len() == 9 + n + rest.len());
            assert(b.subrange(1, 9) =~= len8);
            assert(spec_u64_from_le_bytes(b.subrange(1, 9)) == e.len() as u64);
            assert((e.len() as u64) as int == n);
            assert(b.subrange(9, 9 + n) =~= e);
            encode_utf8_valid_utf8(cs);
            encode_utf8_decode_utf8(cs);
            assert(b.skip(9 + n) =~= rest);
        },
    }
}

/// Parsing undoes serialization: the round trip over the spec functions,
/// for any identity representable on the wire.
pub proof fn lemma_parse_serialize(v: UserInfoV)
    requires
        identity_wf(v),
    ensures
        spec_parse(spec_serialize(v)) == Some(v),
{
    let idb = spec_u64_to_le_bytes(v.id as u64);
    let f1 = opt_field_bytes(v.username);
    let f2 = opt_field_bytes(v.email);
    let f3 = opt_field_bytes(v.authority);
    let b = spec_serialize(v);
    lemma_auto_spec_u64_to_from_le_bytes();
    assert(b.take(8) =~= idb);
    assert(spec_u64_from_le_bytes(idb) == v.id as u64);
    let idv = v.id;
    assert((idv as u64) as i64 == idv) by (bit_vector);
    assert(b.skip(8) =~= f1 + (f2 + f3));
    lemma_parse_field_round_trip(v.username, f2 + f3);
    assert(f2 + f3 =~= f2 + (f3 + Seq::<u8>::empty()));
    assert(f3 + Seq::<u8>::empty() =~= f3);
    lemma_parse_field_round_trip(v.email, f3);
    lemma_parse_field_round_trip(v.authority, Seq::<u8>::empty());
}

/// Appends a byte slice to a vector.
fn push_bytes(out: &mut Vec<u8>, b: &[u8])
    ensures
        final(out)@ == old(out)@ + b@,
{
    let mut i: usize = 0;
    proof {
        assert(out@ + b@.take(0) =~= out@);
    }
    while i < b.len()
        invariant
            0 <= i <= b@.len(),
            out@ == old(out)@ + b@.take(i as int),
        decreases b@.len() - i,
    {
        out.push(b[i]);
        proof {
            assert(old(out)@ + b@.take(i as int + 1) =~= (old(out)@ + b@.take(i as int)).push(
                b@[i as int],
            ));
        }
        i += 1;
    }
    proof {
        assert(b@.take(i as int) =~= b@);
    }
}

/// Appends the wire form of one optional string field.
fn push_opt_field(out: &mut Vec<u8>, f: &Option<String>)
    ensures
        final(out)@ == old(out)@ + opt_field_bytes(opt_string_view(*f)),
        field_wf(opt_string_view(*f)),
{
    match f {
        None => {
            out.push(0);
            proof {
                assert(old(out)@ + opt_field_bytes(None) =~= old(out)@.push(0u8));
            }
        },
        Some(s) => {
            out.push(1);
            let bs = s.as_str().as_bytes();
            proof {
                assert(bs@ == encode_utf8(s@));
            }
            let len8 = u64_to_le_bytes(bs.len() as u64);
            push_bytes(out, len8.as_slice());
            push_bytes(out, bs);
            proof {
                assert(bs@.len() as u64 == encode_utf8(s@).len() as u64);
                assert(old(out)@ + opt_field_bytes(opt_string_view(*f)) =~= ((old(out)@.push(
                    1u8,
                )) + len8@) + bs@);
            }
        },
    }
}

/// Lays an identity out in its wire form.
pub fn serialize_identity(u: &UserInfo) -> (r: Vec<u8>)
    ensures
        r@ == spec_serialize(u@),
        identity_wf(u@),
{
    let mut out = u64_to_le_bytes(u.id as u64);
    push_opt_field(&mut out, &u.username);
    push_opt_field(&mut out, &u.email);
    push_opt_field(&mut out, &u.authority);
    proof {
        assert(out@ =~= spec_serialize(u@));
    }
    out
}

/// Relies on `String::from_utf8`: it accepts exactly the byte sequences
/// that are valid UTF-8, and returns the string those bytes encode.
#[verifier::external_body]
pub(crate) fn bytes_to_string(v: Vec<u8>) -> (r: Option<String>)
    ensures
        match r {
            Some(s) => valid_utf8(v@) && encode_utf8(s@) == v@,
            None => !valid_utf8(v@),
        },
{
    String::from_utf8(v).ok()
}

/// Parses one optional string field at `pos`, returning it with the
/// position just past it.
fn parse_field(b: &[u8], pos: usize) -> (r: Option<(Option<String>, usize)>)
    requires
        pos <= b@.len(),
    ensures
        match r {
            Some(p) => pos < p.1 <= b@.len() && spec_parse_field(b@.skip(pos as int)) == Some(
                (opt_string_view(p.0), b@.skip(p.1 as int)),
            ),
            None => spec_parse_field(b@.skip(pos as int)) is None,
        },
{
    let ghost tail = b@.skip(pos as int);
    if pos == b.len() {
        return None;
    }
    let tag = b[pos];
    proof {
        assert(tail[0] == tag);
    }
    if tag == 0 {
        proof {
            assert(tail.skip(1) =~= b@.skip(pos as int + 1));
        }
        Some((None, pos + 1))
    } else if tag == 1 {
        if b.len() - pos < 9 {
            return None;
        }
        let len8 = vstd::slice::slice_subrange(b, pos + 1, pos + 9);
        proof {
            assert(len8@ =~= tail.subrange(1, 9));
        }
        let n64 = u64_from_le_bytes(len8);
        let remaining = b.len() - pos - 9;
        if n64 > remaining as u64 {
            return None;
        }
        let n = n64 as usize;
        proof {
            assert(n == n64);
        }
        let fb = vstd::slice::slice_subrange(b, pos + 9, pos + 9 + n);
        proof {
            assert(fb@ =~= tail.subrange(9, 9 + n64 as int));
        }
        match bytes_to_string(vstd::slice::slice_to_vec(fb)) {
            Some(s) => {
                proof {
                    encode_utf8_decode_utf8(s@);
                    assert(decode_utf8(fb@) == s@);
                    assert(tail.skip(9 + n64 as int) =~= b@.skip(pos as int + 9 + n as int));
                }
                Some((Some(s), pos + 9 + n))
            },
            None => None,
        }
    } else {
        None
    }
}

/// Parses a wire-form identity, accepting exactly the layout that
/// `serialize_identity` produces.
pub fn parse_identity(b: &[u8]) -> (r: Option<UserInfo>)
    ensures
        match r {
            Some(u) => spec_parse(b@) == Some(u@),
            None => spec_parse(b@) is None,
        },
{
    if b.len() < 8 {
        return None;
    }
    let id8 = vstd::slice::slice_subrange(b, 0, 8);
    proof {
        assert(id8@ =~= b@.take(8));
    }
    let id64 = u64_from_le_bytes(id8);
    let id = id64 as i64;
    let (username, p1) = match parse_field(b, 8) {
        Some(p) => p,
        None => return None,
    };
    let (email, p2) = match parse_field(b, p1) {
        Some(p) => p,
        None => return None,
    };
    let (authority, p3) = match parse_field(b, p2) {
        Some(p) => p,
        None => return None,
    };
    if p3 != b.len() {
        return None;
    }
    Some(UserInfo { id, username, email, authority })
}

} // verus!
