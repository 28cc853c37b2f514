//! Lowercase hexadecimal framing for the sealed session payload.
//!
//! The wire form of the identity is raw bytes; the sealing layer works on
//! text.  Hex keeps the bridge trivial: every byte becomes two ASCII
//! digits, and decoding rejects anything that is not an even-length string
//! of lowercase hex digits.

use vstd::prelude::*;

verus! {

/// The lowercase hex digit for a value below sixteen.
pub open spec fn hex_digit(n: u8) -> u8
    recommends
        n < 16,
{
    if n < 10 {
        (48 + n) as u8
    } else {
        (87 + n) as u8
    }
}

/// The value of a lowercase hex digit byte, if it is one.
pub open spec fn hex_value(b: u8) -> Option<u8> {
    if 48 <= b <= 57 {
        Some((b - 48) as u8)
    } else if 97 <= b <= 102 {
        Some((b - 87) as u8)
    } else {
        None
    }
}

/// The hex image of a byte sequence: two lowercase digits per byte.
pub open spec fn spec_hex(bytes: Seq<u8>) -> Seq<u8>
    decreases bytes.len(),
{
    if bytes.len() == 0 {
        Seq::empty()
    } else {
        seq![hex_digit(bytes[0] / 16), hex_digit(bytes[0] % 16)] + spec_hex(bytes.skip(1))
    }
}

/// What a hex string decodes to: the byte sequence it spells, or nothing
/// if its length is odd or any character is not a lowercase hex digit.
pub open spec fn spec_unhex(s: Seq<u8>) -> Option<Seq<u8>>
    decreases s.len(),
{
    if s.len() == 0 {
        Some(Seq::empty())
    } else if s.len() == 1 {
        None
    } else {
        match (hex_value(s[0]), hex_value(s[1])) {
            (Some(h), Some(l)) => match spec_unhex(s.skip(2)) {
                Some(rest) => Some(seq![(h * 16 + l) as u8] + rest),
                None => None,
            },
            _ => None,
        }
    }
}

/// Hex digits decode back to their value.
proof fn lemma_hex_digit_value(n: u8)
    requires
        n < 16,
    ensures
        hex_value(hex_digit(n)) == Some(n),
{
}

/// Hexing distributes over concatenation.
pub proof fn lemma_hex_append(a: Seq<u8>, b: Seq<u8>)
    ensures
        spec_hex(a + b) == spec_hex(a) + spec_hex(b),
    decreases a.len(),
{
    if a.len() == 0 {
        assert(a + b =~= b);
        assert(spec_hex(a) + spec_hex(b) =~= spec_hex(b));
    } else {
        assert((a + b).skip(1) =~= a.skip(1) + b);
        lemma_hex_append(a.skip(1), b);
        assert(spec_hex(a + b) =~= spec_hex(a) + spec_hex(b));
    }
}

/// Decoding undoes hexing: the round trip over the spec functions.
pub proof fn lemma_unhex_hex(bytes: Seq<u8>)
    ensures
        spec_unhex(spec_hex(bytes)) == Some(bytes),
    decreases bytes.len(),
{
    if bytes.len() == 0 {
    } else {
        let b = bytes[0];
        lemma_hex_digit_value(b / 16);
        lemma_hex_digit_value(b % 16);
        lemma_unhex_hex(bytes.skip(1));
        let h = spec_hex(bytes);
        assert(h.skip(2) =~= spec_hex(bytes.skip(1)));
        assert((b / 16) * 16 + b % 16 == b) by (nonlinear_arith)
            requires
                b < 256,
        ;
        assert(seq![bytes[0]] + bytes.skip(1) =~= bytes);
    }
}

/// Every character of a hex image is ASCII.
pub proof fn lemma_hex_ascii(bytes: Seq<u8>)
    ensures
        forall|i: int| 0 <= i < spec_hex(bytes).len() ==> #[trigger] spec_hex(bytes)[i] < 128,
    decreases bytes.len(),
{
    if bytes.len() > 0 {
        lemma_hex_ascii(bytes.skip(1));
        assert forall|i: int| 0 <= i < spec_hex(bytes).len() implies #[trigger] spec_hex(bytes)[i]
            < 128 by {
            if i >= 2 {
                assert(spec_hex(bytes)[i] == spec_hex(bytes.skip(1))[i - 2]);
            }
        }
    }
}

/// Encodes bytes as lowercase hex.
pub fn hex_encode(bytes: &[u8]) -> (r: Vec<u8>)
    ensures
        r@ == spec_hex(bytes@),
{
    let mut out: Vec<u8> = Vec::new();
    let mut i: usize = 0;
    proof {
        assert(bytes@.take(0) =~= Seq::<u8>::empty());
    }
    while i < bytes.len()
        invariant
            0 <= i <= bytes@.len(),
            out@ == spec_hex(bytes@.take(i as int)),
        decreases bytes@.len() - i,
    {
        let b = bytes[i];
        let hi = b / 16;
        let lo = b % 16;
        let d_hi: u8 = if hi < 10 {
            48 + hi
        } else {
            87 + hi
        };
        let d_lo: u8 = if lo < 10 {
            48 + lo
        } else {
            87 + lo
        };
        out.push(d_hi);
        out.push(d_lo);
        proof {
            let pre = bytes@.take(i as int);
            let one = seq![bytes@[i as int]];
            assert(d_hi == hex_digit(b / 16));
            assert(d_lo == hex_digit(b % 16));
            lemma_hex_append(pre, one);
            assert(bytes@.take(i as int + 1) =~= pre + one);
            assert(one.skip(1) =~= Seq::<u8>::empty());
            assert(spec_hex(Seq::<u8>::empty()) =~= Seq::<u8>::empty());
            assert(spec_hex(one) =~= seq![d_hi, d_lo]);
            assert(out@ =~= spec_hex(bytes@.take(i as int + 1)));
        }
        i += 1;
    }
    proof {
        assert(bytes@.take(i as int) =~= bytes@);
    }
    out
}

/// Decodes a lowercase hex string back to bytes, refusing odd lengths and
/// characters outside the digit set.
pub fn hex_decode(s: &[u8]) -> (r: Option<Vec<u8>>)
    ensures
        match r {
            Some(v) => spec_unhex(s@) == Some(v@),
            None => spec_unhex(s@) is None,
        },
{
    let mut out: Vec<u8> = Vec::new();
    let mut i: usize = 0;
    proof {
        assert(s@.skip(0) =~= s@);
    }
    while i < s.len()
        invariant
            0 <= i <= s@.len(),
            spec_unhex(s@) == match spec_unhex(s@.skip(i as int)) {
                Some(rest) => Some(out@ + rest),
                None => None::<Seq<u8>>,
            },
        decreases s@.len() - i,
    {
        let ghost tail = s@.skip(i as int);
        if i + 1 == s.len() {
            proof {
                assert(tail.len() == 1);
            }
            return None;
        }
        let c0 = s[i];
        let c1 = s[i + 1];
        let h: u8 = if 48 <= c0 && c0 <= 57 {
            c0 - 48
        } else if 97 <= c0 && c0 <= 102 {
            c0 - 87
        } else {
            proof {
                assert(tail[0] == c0);
                assert(hex_value(c0) is None);
            }
            return None;
        };
        let l: u8 = if 48 <= c1 && c1 <= 57 {
            c1 - 48
        } else if 97 <= c1 && c1 <= 102 {
            c1 - 87
        } else {
            proof {
                assert(tail[1] == c1);
                assert(hex_value(c1) is None);
            }
            return None;
        };
        proof {
            assert(tail[0] == c0 && tail[1] == c1);
            assert(hex_value(c0) == Some(h) && hex_value(c1) == Some(l));
            assert(h < 16 && l < 16);
            assert(tail.skip(2) =~= s@.skip(i as int + 2));
        }
        out.push(h * 16 + l);
        proof {
            let v: u8 = (h * 16 + l) as u8;
            match spec_unhex(s@.skip(i as int + 2)) {
                Some(rest) => {
                    assert(out@ + rest =~= (out@.take(out@.len() - 1)) + (seq![v] + rest));
                },
                None => {},
            }
        }
        i += 2;
    }
    proof {
        assert(s@.skip(i as int) =~= Seq::<u8>::empty());
        assert(out@ + Seq::<u8>::empty() =~= out@);
    }
    Some(out)
}

} // verus!
