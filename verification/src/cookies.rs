//! Parsing of the `Cookie` request header.
//!
//! The login gate needs one fact about a request: does its cookie header
//! carry an entry named `token` with a non-empty value?  The header is a
//! `;`-separated list of `name=value` pairs; names and values are compared
//! after trimming surrounding whitespace.  The functions here work on raw
//! header bytes and are specified against recursive spec functions over
//! byte sequences.

use vstd::prelude::*;
use vstd::string::StringSliceAdditionalSpecFns;

verus! {

/// Whitespace bytes stripped from cookie names and values.
pub open spec fn is_cookie_space(b: u8) -> bool {
    b == 32 || (9 <= b <= 13)
}

/// The byte sequence of the cookie name `token`.
pub open spec fn token_name() -> Seq<u8> {
    seq![116u8, 111u8, 107u8, 101u8, 110u8]
}

/// Index of the first occurrence of `b` in `s`, or `s.len()` if absent.
pub open spec fn find_byte(s: Seq<u8>, b: u8) -> nat
    decreases s.len(),
{
    if s.len() == 0 {
        0
    } else if s[0] == b {
        0
    } else {
        1 + find_byte(s.skip(1), b)
    }
}

/// `find_byte` points at the first occurrence: everything before it
/// differs from `b`, and the result is within the sequence iff `b` occurs.
pub proof fn lemma_find_byte(s: Seq<u8>, b: u8)
    ensures
        find_byte(s, b) <= s.len(),
        find_byte(s, b) < s.len() ==> s[find_byte(s, b) as int] == b,
        forall|j: int| 0 <= j < find_byte(s, b) ==> s[j] != b,
    decreases s.len(),
{
    if s.len() != 0 && s[0] != b {
        lemma_find_byte(s.skip(1), b);
        assert forall|j: int| 0 <= j < find_byte(s, b) implies s[j] != b by {
            if j > 0 {
                assert(s.skip(1)[j - 1] != b);
            }
        }
    }
}

/// If the first `i` bytes of `s` all differ from `b` and `s[i] == b`,
/// then `i` is exactly where `find_byte` points.
pub proof fn lemma_find_byte_at(s: Seq<u8>, b: u8, i: int)
    requires
        0 <= i <= s.len(),
        forall|j: int| 0 <= j < i ==> s[j] != b,
        i < s.len() ==> s[i] == b,
        i == s.len() ==> forall|j: int| 0 <= j < s.len() ==> s[j] != b,
    ensures
        find_byte(s, b) == i,
    decreases s.len(),
{
    if s.len() != 0 && s[0] != b {
        assert forall|j: int| 0 <= j < i - 1 implies s.skip(1)[j] != b by {
            assert(s[j + 1] != b);
        }
        if i == s.len() {
            assert forall|j: int| 0 <= j < s.skip(1).len() implies s.skip(1)[j] != b by {
                assert(s[j + 1] != b);
            }
        }
        lemma_find_byte_at(s.skip(1), b, i - 1);
    }
}

/// Finds the first occurrence of `b` in `s`, returning `s.len()` if absent.
pub fn find_byte_exec(s: &[u8], b: u8) -> (r: usize)
    ensures
        r == find_byte(s@, b),
{
    let mut i: usize = 0;
    while i < s.len()
        invariant
            0 <= i <= s@.len(),
            forall|j: int| 0 <= j < i ==> s@[j] != b,
        decreases s@.len() - i,
    {
        if s[i] == b {
            proof {
                lemma_find_byte_at(s@, b, i as int);
            }
            return i;
        }
        i += 1;
    }
    proof {
        lemma_find_byte_at(s@, b, s@.len() as int);
    }
    i
}

/// `s` without its leading whitespace.
pub open spec fn trim_start(s: Seq<u8>) -> Seq<u8>
    decreases s.len(),
{
    if s.len() > 0 && is_cookie_space(s[0]) {
        trim_start(s.skip(1))
    } else {
        s
    }
}

/// `s` without its trailing whitespace.
pub open spec fn trim_end(s: Seq<u8>) -> Seq<u8>
    decreases s.len(),
{
    if s.len() > 0 && is_cookie_space(s[s.len() - 1]) {
        trim_end(s.take(s.len() - 1))
    } else {
        s
    }
}

/// `s` without surrounding whitespace.
pub open spec fn trim(s: Seq<u8>) -> Seq<u8> {
    trim_end(trim_start(s))
}

/// Skipping a fully-whitespace prefix is what `trim_start` does.
proof fn lemma_trim_start_at(s: Seq<u8>, i: int)
    requires
        0 <= i <= s.len(),
        forall|j: int| 0 <= j < i ==> is_cookie_space(s[j]),
        i < s.len() ==> !is_cookie_space(s[i]),
    ensures
        trim_start(s) == s.skip(i),
    decreases i,
{
    if i == 0 {
        assert(s.skip(0) =~= s);
    } else {
        assert(is_cookie_space(s[0]));
        assert forall|j: int| 0 <= j < i - 1 implies is_cookie_space(s.skip(1)[j]) by {
            assert(is_cookie_space(s[j + 1]));
        }
        assert(i - 1 < s.skip(1).len() ==> !is_cookie_space(s.skip(1)[i - 1]));
        lemma_trim_start_at(s.skip(1), i - 1);
        assert(s.skip(1).skip(i - 1) =~= s.skip(i));
    }
}

/// Dropping a fully-whitespace suffix is what `trim_end` does.
proof fn lemma_trim_end_at(s: Seq<u8>, i: int)
    requires
        0 <= i <= s.len(),
        forall|j: int| i <= j < s.len() ==> is_cookie_space(s[j]),
        i > 0 ==> !is_cookie_space(s[i - 1]),
    ensures
        trim_end(s) == s.take(i),
    decreases s.len() - i,
{
    if i == s.len() {
        if s.len() > 0 && is_cookie_space(s[s.len() - 1]) {
            lemma_trim_end_at(s.take(s.len() - 1), i - 1);
            assert(s.take(s.len() - 1).take(i - 1) =~= s.take(i - 1));
        } else {
            assert(s.take(i) =~= s);
        }
    } else {
        assert(is_cookie_space(s[s.len() - 1]));
        lemma_trim_end_at(s.take(s.len() - 1), i);
        assert(s.take(s.len() - 1).take(i) =~= s.take(i));
    }
}

/// Trims surrounding whitespace from a byte slice.
pub fn trim_exec<'a>(s: &'a [u8]) -> (r: &'a [u8])
    ensures
        r@ == trim(s@),
{
    let mut lo: usize = 0;
    while lo < s.len() && (s[lo] == 32 || (9 <= s[lo] && s[lo] <= 13))
        invariant
            0 <= lo <= s@.len(),
            forall|j: int| 0 <= j < lo ==> is_cookie_space(s@[j]),
        decreases s@.len() - lo,
    {
        lo += 1;
    }
    proof {
        lemma_trim_start_at(s@, lo as int);
    }
    let mut hi: usize = s.len();
    while hi > lo && (s[hi - 1] == 32 || (9 <= s[hi - 1] && s[hi - 1] <= 13))
        invariant
            lo <= hi <= s@.len(),
            forall|j: int| 0 <= j < lo ==> is_cookie_space(s@[j]),
            forall|j: int| hi <= j < s@.len() ==> is_cookie_space(s@[j]),
        decreases hi,
    {
        hi -= 1;
    }
    proof {
        let st = s@.skip(lo as int);
        assert forall|j: int| hi - lo <= j < st.len() implies is_cookie_space(st[j]) by {
            assert(is_cookie_space(s@[j + lo]));
        }
        if hi > lo {
            assert(!is_cookie_space(st[hi - lo - 1]));
        }
        lemma_trim_end_at(st, hi - lo);
        assert(st.take(hi - lo) =~= s@.subrange(lo as int, hi as int));
    }
    vstd::slice::slice_subrange(s, lo, hi)
}

/// The value part of a `name=value` cookie pair: the bytes after the first
/// `=` and before the second, if any.
pub open spec fn pair_value(seg: Seq<u8>) -> Seq<u8> {
    let e = find_byte(seg, 61);
    let rest = seg.skip(e as int + 1);
    rest.take(find_byte(rest, 61) as int)
}

/// Whether one `;`-separated segment of a cookie header is a `token` entry
/// with a non-empty value.
pub open spec fn segment_has_token(seg: Seq<u8>) -> bool {
    let e = find_byte(seg, 61);
    &&& e < seg.len()
    &&& trim(seg.take(e as int)) == token_name()
    &&& trim(pair_value(seg)).len() > 0
}

/// Whether a cookie header carries a `token` entry with a non-empty value,
/// over its `;`-separated segments.
pub open spec fn header_has_token(h: Seq<u8>) -> bool
    decreases h.len(),
{
    let i = find_byte(h, 59);
    if i >= h.len() {
        segment_has_token(h)
    } else {
        segment_has_token(h.take(i as int)) || header_has_token(h.skip(i as int + 1))
    }
}

/// A header consisting of a single `token=value` pair, whose value holds
/// neither a pair nor a list separator, carries a login token exactly when
/// the value is non-empty after trimming.
pub proof fn lemma_token_header(v: Seq<u8>)
    requires
        forall|j: int| 0 <= j < v.len() ==> v[j] != 59 && v[j] != 61,
    ensures
        header_has_token(token_name() + seq![61u8] + v) == (trim(v).len() > 0),
        header_has_token_pair(token_name() + seq![61u8] + v),
{
    let h = token_name() + seq![61u8] + v;
    assert(h.len() == 6 + v.len());
    assert forall|j: int| 0 <= j < h.len() implies h[j] != 59 by {
        if j >= 6 {
            assert(h[j] == v[j - 6]);
        }
    }
    lemma_find_byte_at(h, 59, h.len() as int);
    assert forall|j: int| 0 <= j < 5 implies h[j] != 61 by {
        assert(h[j] == token_name()[j]);
    }
    assert(h[5] == 61);
    lemma_find_byte_at(h, 61, 5);
    assert(h.take(5) =~= token_name());
    lemma_trim_start_at(token_name(), 0);
    assert(token_name().skip(0) =~= token_name());
    lemma_trim_end_at(token_name(), 5);
    assert(token_name().take(5) =~= token_name());
    assert(trim(h.take(5)) == token_name());
    let rest = h.skip(6);
    assert(rest =~= v);
    lemma_find_byte_at(v, 61, v.len() as int);
    assert(v.take(v.len() as int) =~= v);
    assert(pair_value(h) == v);
    assert(segment_has_token(h) == (trim(v).len() > 0));
    assert(segment_is_token_pair(h));
}

/// Whether one `;`-separated segment is a `token` pair, whatever its
/// value holds.
pub open spec fn segment_is_token_pair(seg: Seq<u8>) -> bool {
    let e = find_byte(seg, 61);
    &&& e < seg.len()
    &&& trim(seg.take(e as int)) == token_name()
}

/// Whether a cookie header carries any `token` pair, even one with an
/// empty value.
pub open spec fn header_has_token_pair(h: Seq<u8>) -> bool
    decreases h.len(),
{
    let i = find_byte(h, 59);
    if i >= h.len() {
        segment_is_token_pair(h)
    } else {
        segment_is_token_pair(h.take(i as int)) || header_has_token_pair(h.skip(i as int + 1))
    }
}

/// Decides `segment_is_token_pair` for one header segment.
fn segment_is_token_pair_exec(seg: &[u8]) -> (r: bool)
    ensures
        r == segment_is_token_pair(seg@),
{
    let e = find_byte_exec(seg, 61);
    proof {
        lemma_find_byte(seg@, 61);
    }
    if e == seg.len() {
        return false;
    }
    let name = trim_exec(vstd::slice::slice_subrange(seg, 0, e));
    proof {
        assert(seg@.subrange(0, e as int) =~= seg@.take(e as int));
    }
    let token = "token";
    proof {
        reveal_strlit("token");
        broadcast use vstd::string::is_ascii_spec_bytes;

        assert(vstd::string::is_ascii(token));
        assert(token.spec_bytes() =~= token_name());
    }
    crate::bytes_eq(name, token.as_bytes())
}

/// Decides whether a raw cookie header carries any `token` pair, even one
/// with an empty value.
pub fn has_token_pair(h: &[u8]) -> (r: bool)
    ensures
        r == header_has_token_pair(h@),
{
    let mut pos: usize = 0;
    proof {
        assert(h@.skip(0) =~= h@);
    }
    loop
        invariant
            0 <= pos <= h@.len(),
            header_has_token_pair(h@) == header_has_token_pair(h@.skip(pos as int)),
        decreases h@.len() - pos,
    {
        let ghost tail = h@.skip(pos as int);
        let e = find_byte_exec_from(h, pos, 59);
        proof {
            lemma_find_byte(tail, 59);
        }
        let seg = vstd::slice::slice_subrange(h, pos, e);
        proof {
            assert(seg@ =~= tail.take((e - pos) as int));
            if e == h@.len() {
                assert(tail.take((e - pos) as int) =~= tail);
            }
        }
        if segment_is_token_pair_exec(seg) {
            proof {
                if (e as int - pos as int) < tail.len() {
                    assert(header_has_token_pair(tail));
                }
            }
            return true;
        }
        if e == h.len() {
            return false;
        }
        proof {
            assert(tail.skip((e - pos) as int + 1) =~= h@.skip(e as int + 1));
        }
        pos = e + 1;
    }
}

/// The whole value of a `name=value` cookie pair as a cookie jar reads
/// it: everything after the first `=`, trimmed.  Unlike the login gate's
/// cheap check, nothing is cut at a second `=`, which a sealed value may
/// well contain.
pub open spec fn pair_whole_value(seg: Seq<u8>) -> Seq<u8> {
    trim(seg.skip(find_byte(seg, 61) as int + 1))
}

/// The value of the first `token` pair of a cookie header, if any.
pub open spec fn spec_token_value(h: Seq<u8>) -> Option<Seq<u8>>
    decreases h.len(),
{
    let i = find_byte(h, 59);
    if i >= h.len() {
        if segment_is_token_pair(h) {
            Some(pair_whole_value(h))
        } else {
            None
        }
    } else if segment_is_token_pair(h.take(i as int)) {
        Some(pair_whole_value(h.take(i as int)))
    } else {
        spec_token_value(h.skip(i as int + 1))
    }
}

/// Extracts the value of the first `token` pair of a cookie header:
/// everything after its first `=`, trimmed.
pub fn token_value(h: &[u8]) -> (r: Option<Vec<u8>>)
    ensures
        match r {
            Some(v) => spec_token_value(h@) == Some(v@),
            None => spec_token_value(h@) is None,
        },
{
    let mut pos: usize = 0;
    proof {
        assert(h@.skip(0) =~= h@);
    }
    loop
        invariant
            0 <= pos <= h@.len(),
            spec_token_value(h@) == spec_token_value(h@.skip(pos as int)),
        decreases h@.len() - pos,
    {
        let ghost tail = h@.skip(pos as int);
        let e = find_byte_exec_from(h, pos, 59);
        proof {
            lemma_find_byte(tail, 59);
        }
        let seg = vstd::slice::slice_subrange(h, pos, e);
        proof {
            assert(seg@ =~= tail.take((e - pos) as int));
            if e == h@.len() {
                assert(tail.take((e - pos) as int) =~= tail);
            }
        }
        if segment_is_token_pair_exec(seg) {
            let eq = find_byte_exec(seg, 61);
            proof {
                lemma_find_byte(seg@, 61);
            }
            let value = trim_exec(vstd::slice::slice_subrange(seg, eq + 1, seg.len()));
            proof {
                assert(seg@.subrange(eq as int + 1, seg@.len() as int) =~= seg@.skip(
                    eq as int + 1,
                ));
                if (e as int - pos as int) < tail.len() {
                    assert(spec_token_value(tail) == Some(pair_whole_value(seg@)));
                }
            }
            return Some(vstd::slice::slice_to_vec(value));
        }
        if e == h.len() {
            return None;
        }
        proof {
            assert(tail.skip((e - pos) as int + 1) =~= h@.skip(e as int + 1));
        }
        pos = e + 1;
    }
}

/// Decides `segment_has_token` for one header segment.
fn segment_has_token_exec(seg: &[u8]) -> (r: bool)
    ensures
        r == segment_has_token(seg@),
{
    let e = find_byte_exec(seg, 61);
    proof {
        lemma_find_byte(seg@, 61);
    }
    if e == seg.len() {
        return false;
    }
    let name = trim_exec(vstd::slice::slice_subrange(seg, 0, e));
    proof {
        assert(seg@.subrange(0, e as int) =~= seg@.take(e as int));
    }
    let rest = vstd::slice::slice_subrange(seg, e + 1, seg.len());
    proof {
        assert(rest@ =~= seg@.skip(e as int + 1));
    }
    let e2 = find_byte_exec(rest, 61);
    proof {
        lemma_find_byte(rest@, 61);
    }
    let value = trim_exec(vstd::slice::slice_subrange(rest, 0, e2));
    proof {
        assert(rest@.subrange(0, e2 as int) =~= rest@.take(e2 as int));
    }
    let token = "token";
    proof {
        reveal_strlit("token");
        broadcast use vstd::string::is_ascii_spec_bytes;

        assert(vstd::string::is_ascii(token));
        assert(token.spec_bytes() =~= token_name());
    }
    crate::bytes_eq(name, token.as_bytes()) && value.len() > 0
}

/// Decides whether a raw cookie header carries a `token` entry with a
/// non-empty value.
pub fn has_login_token(h: &[u8]) -> (r: bool)
    ensures
        r == header_has_token(h@),
{
    let mut pos: usize = 0;
    proof {
        assert(h@.skip(0) =~= h@);
    }
    loop
        invariant
            0 <= pos <= h@.len(),
            header_has_token(h@) == header_has_token(h@.skip(pos as int)),
        decreases h@.len() - pos,
    {
        let ghost tail = h@.skip(pos as int);
        let e = find_byte_exec_from(h, pos, 59);
        proof {
            lemma_find_byte(tail, 59);
        }
        let seg = vstd::slice::slice_subrange(h, pos, e);
        proof {
            assert(seg@ =~= tail.take((e - pos) as int));
            if e == h@.len() {
                assert(tail.take((e - pos) as int) =~= tail);
            }
        }
        if segment_has_token_exec(seg) {
            proof {
                if (e as int - pos as int) < tail.len() {
                    assert(header_has_token(tail));
                }
            }
            return true;
        }
        if e == h.len() {
            return false;
        }
        proof {
            assert(tail.skip((e - pos) as int + 1) =~= h@.skip(e as int + 1));
        }
        pos = e + 1;
    }
}

/// Finds the first occurrence of `b` in `s` at or after `from`, returning
/// `s.len()` if absent there.
fn find_byte_exec_from(s: &[u8], from: usize, b: u8) -> (r: usize)
    requires
        from <= s@.len(),
    ensures
        from <= r <= s@.len(),
        r - from == find_byte(s@.skip(from as int), b),
    decreases s@.len() - from,
{
    let mut i: usize = from;
    while i < s.len()
        invariant
            from <= i <= s@.len(),
            forall|j: int| from <= j < i ==> s@[j] != b,
        decreases s@.len() - i,
    {
        if s[i] == b {
            proof {
                let t = s@.skip(from as int);
                assert forall|j: int| 0 <= j < i - from implies t[j] != b by {
                    assert(s@[j + from] != b);
                }
                lemma_find_byte_at(t, b, i - from);
            }
            return i;
        }
        i += 1;
    }
    proof {
        let t = s@.skip(from as int);
        assert forall|j: int| 0 <= j < t.len() implies t[j] != b by {
            assert(s@[j + from] != b);
        }
        lemma_find_byte_at(t, b, t.len() as int);
    }
    i
}

} // verus!
