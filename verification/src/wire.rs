//! Wire-format primitives shared by the stream and BLE codecs.
//!
//! Integers travel as little-endian base-128 varints, booleans and raw
//! octets as single bytes, byte blocks and strings as a length varint
//! followed by the raw bytes (UTF-8 for strings). Signed integers carry a
//! sign byte followed by the magnitude.
//!
//! Each shape has a specification encoder (over ghost values), a
//! specification decoder that consumes from the front of a byte sequence,
//! a round-trip lemma, and executable encode/decode functions proved
//! against the specifications.

use vstd::prelude::*;
use vstd::slice::{slice_index_get, slice_subrange, slice_to_vec};
use vstd::utf8::{decode_utf8, encode_utf8, encode_utf8_decode_utf8, encode_utf8_valid_utf8, valid_utf8};

verus! {

/// Relates an executable decoder result `r` to a specification decoder
/// result `sr` for input `s` read from offset `pos`: the two agree on
/// success, on the decoded value (through its view) and on how far the
/// input was consumed.
pub open spec fn decodes_to<T: View>(
    s: Seq<u8>,
    pos: int,
    sr: Option<(<T as View>::V, Seq<u8>)>,
    r: Option<(T, usize)>,
) -> bool {
    match sr {
        Some(vp) => match r {
            Some(t) => t.0@ == vp.0 && pos <= t.1 <= s.len() && s.skip(t.1 as int) == vp.1,
            None => false,
        },
        None => r is None,
    }
}

// ---------------------------------------------------------------------------
// Unsigned varints
// ---------------------------------------------------------------------------

/// Little-endian base-128 varint encoding: seven value bits per byte, the
/// high bit set on every byte but the last.
pub open spec fn spec_enc_varint(n: nat) -> Seq<u8>
    decreases n,
{
    if n < 128 {
        seq![n as u8]
    } else {
        seq![(128 + n % 128) as u8] + spec_enc_varint(n / 128)
    }
}

/// Front-consuming varint decoder.
pub open spec fn spec_dec_varint(s: Seq<u8>) -> Option<(nat, Seq<u8>)>
    decreases s.len(),
{
    if s.len() == 0 {
        None
    } else {
        let b = s[0];
        if b < 128 {
            Some((b as nat, s.drop_first()))
        } else {
            match spec_dec_varint(s.drop_first()) {
                Some(vp) => Some((((b - 128) + 128 * vp.0) as nat, vp.1)),
                None => None,
            }
        }
    }
}

/// A varint encoding always occupies at least one byte.
pub proof fn lemma_enc_varint_len(n: nat)
    ensures
        spec_enc_varint(n).len() >= 1,
{
}

/// A varint decoder never hands back more than it was given.
pub proof fn lemma_dec_varint_remainder(s: Seq<u8>)
    ensures
        match spec_dec_varint(s) {
            Some(vp) => vp.1.len() < s.len(),
            None => true,
        },
    decreases s.len(),
{
    if s.len() > 0 && s[0] >= 128 {
        lemma_dec_varint_remainder(s.drop_first());
    }
}

/// Varint round trip: decoding an encoding, with anything after it,
/// yields the value back and leaves the trailing bytes untouched.
pub proof fn lemma_varint_round_trip(n: nat, rest: Seq<u8>)
    ensures
        spec_dec_varint(spec_enc_varint(n) + rest) == Some((n, rest)),
    decreases n,
{
    let s = spec_enc_varint(n) + rest;
    if n < 128 {
        assert(s.drop_first() =~= rest);
    } else {
        lemma_varint_round_trip(n / 128, rest);
        assert(s[0] == (128 + n % 128) as u8);
        assert(s.drop_first() =~= spec_enc_varint(n / 128) + rest);
        assert((s[0] - 128) + 128 * (n / 128) == n % 128 + 128 * (n / 128));
        assert(n % 128 + 128 * (n / 128) == n) by (nonlinear_arith);
    }
}

/// Append the varint encoding of `n` to `out`.
pub fn enc_varint(out: &mut Vec<u8>, n: u64)
    ensures
        final(out)@ == old(out)@ + spec_enc_varint(n as nat),
    decreases n,
{
    if n < 128 {
        out.push(n as u8);
        assert(out@ =~= old(out)@ + spec_enc_varint(n as nat));
    } else {
        out.push((128 + (n % 128)) as u8);
        enc_varint(out, n / 128);
        assert(out@ =~= old(out)@ + spec_enc_varint(n as nat));
    }
}

/// Decode a varint from `s` at `pos`. Values that do not fit in a `u64`
/// are rejected; this library never produces them.
pub fn dec_varint(s: &[u8], pos: usize) -> (r: Option<(u64, usize)>)
    requires
        pos <= s.len(),
    ensures
        match spec_dec_varint(s@.skip(pos as int)) {
            Some(vp) => {
                if vp.0 <= u64::MAX {
                    match r {
                        Some(t) => t.0 == vp.0 && pos < t.1 <= s.len() && s@.skip(
                            t.1 as int,
                        ) == vp.1,
                        None => false,
                    }
                } else {
                    r is None
                }
            },
            None => r is None,
        },
    decreases s.len() - pos,
{
    if pos == s.len() {
        assert(s@.skip(pos as int) =~= Seq::<u8>::empty());
        return None;
    }
    let b = *slice_index_get(s, pos);
    assert(s@.skip(pos as int)[0] == b);
    if b < 128 {
        assert(s@.skip(pos as int).drop_first() =~= s@.skip(pos + 1));
        Some((b as u64, pos + 1))
    } else {
        assert(s@.skip(pos as int).drop_first() =~= s@.skip(pos + 1));
        match dec_varint(s, pos + 1) {
            Some((m, p)) => {
                if m <= (u64::MAX - 127) / 128 {
                    Some(((b - 128) as u64 + 128 * m, p))
                } else {
                    None
                }
            },
            None => None,
        }
    }
}

// ---------------------------------------------------------------------------
// Fixed-width integers carried as varints
// ---------------------------------------------------------------------------

/// A `u32` travels as a plain varint.
pub open spec fn spec_enc_u32(n: u32) -> Seq<u8> {
    spec_enc_varint(n as nat)
}

pub open spec fn spec_dec_u32(s: Seq<u8>) -> Option<(u32, Seq<u8>)> {
    match spec_dec_varint(s) {
        Some(vp) => if vp.0 <= u32::MAX {
            Some((vp.0 as u32, vp.1))
        } else {
            None
        },
        None => None,
    }
}

pub proof fn lemma_u32_round_trip(n: u32, rest: Seq<u8>)
    ensures
        spec_dec_u32(spec_enc_u32(n) + rest) == Some((n, rest)),
{
    lemma_varint_round_trip(n as nat, rest);
}

pub fn enc_u32(out: &mut Vec<u8>, n: u32)
    ensures
        final(out)@ == old(out)@ + spec_enc_u32(n),
{
    enc_varint(out, n as u64);
}

pub fn dec_u32(s: &[u8], pos: usize) -> (r: Option<(u32, usize)>)
    requires
        pos <= s.len(),
    ensures
        decodes_to::<u32>(s@, pos as int, spec_dec_u32(s@.skip(pos as int)), r),
{
    match dec_varint(s, pos) {
        Some((n, p)) => {
            if n <= u32::MAX as u64 {
                Some((n as u32, p))
            } else {
                None
            }
        },
        None => None,
    }
}

/// A `usize` travels as a varint; decoding rejects values beyond the
/// machine's `usize`.
pub open spec fn spec_enc_usize(n: usize) -> Seq<u8> {
    spec_enc_varint(n as nat)
}

pub open spec fn spec_dec_usize(s: Seq<u8>) -> Option<(usize, Seq<u8>)> {
    match spec_dec_varint(s) {
        Some(vp) => if vp.0 <= usize::MAX {
            Some((vp.0 as usize, vp.1))
        } else {
            None
        },
        None => None,
    }
}

pub proof fn lemma_usize_round_trip(n: usize, rest: Seq<u8>)
    ensures
        spec_dec_usize(spec_enc_usize(n) + rest) == Some((n, rest)),
{
    lemma_varint_round_trip(n as nat, rest);
}

pub fn enc_usize(out: &mut Vec<u8>, n: usize)
    ensures
        final(out)@ == old(out)@ + spec_enc_usize(n),
{
    enc_varint(out, n as u64);
}

pub fn dec_usize(s: &[u8], pos: usize) -> (r: Option<(usize, usize)>)
    requires
        pos <= s.len(),
    ensures
        decodes_to::<usize>(s@, pos as int, spec_dec_usize(s@.skip(pos as int)), r),
{
    match dec_varint(s, pos) {
        Some((n, p)) => {
            if n <= usize::MAX as u64 {
                Some((n as usize, p))
            } else {
                None
            }
        },
        None => None,
    }
}

// ---------------------------------------------------------------------------
// Single bytes and booleans
// ---------------------------------------------------------------------------

pub open spec fn spec_enc_u8(n: u8) -> Seq<u8> {
    seq![n]
}

pub open spec fn spec_dec_u8(s: Seq<u8>) -> Option<(u8, Seq<u8>)> {
    if s.len() == 0 {
        None
    } else {
        Some((s[0], s.drop_first()))
    }
}

pub proof fn lemma_u8_round_trip(n: u8, rest: Seq<u8>)
    ensures
        spec_dec_u8(spec_enc_u8(n) + rest) == Some((n, rest)),
{
    assert((spec_enc_u8(n) + rest).drop_first() =~= rest);
}

pub fn enc_u8(out: &mut Vec<u8>, n: u8)
    ensures
        final(out)@ == old(out)@ + spec_enc_u8(n),
{
    out.push(n);
    assert(out@ =~= old(out)@ + spec_enc_u8(n));
}

pub fn dec_u8(s: &[u8], pos: usize) -> (r: Option<(u8, usize)>)
    requires
        pos <= s.len(),
    ensures
        decodes_to::<u8>(s@, pos as int, spec_dec_u8(s@.skip(pos as int)), r),
{
    if pos == s.len() {
        assert(s@.skip(pos as int) =~= Seq::<u8>::empty());
        None
    } else {
        let b = *slice_index_get(s, pos);
        assert(s@.skip(pos as int)[0] == b);
        assert(s@.skip(pos as int).drop_first() =~= s@.skip(pos + 1));
        Some((b, pos + 1))
    }
}

/// Booleans travel as one byte, zero or one; any other byte is rejected.
pub open spec fn spec_enc_bool(b: bool) -> Seq<u8> {
    seq![if b { 1u8 } else { 0u8 }]
}

pub open spec fn spec_dec_bool(s: Seq<u8>) -> Option<(bool, Seq<u8>)> {
    if s.len() == 0 {
        None
    } else if s[0] == 0 {
        Some((false, s.drop_first()))
    } else if s[0] == 1 {
        Some((true, s.drop_first()))
    } else {
        None
    }
}

pub proof fn lemma_bool_round_trip(b: bool, rest: Seq<u8>)
    ensures
        spec_dec_bool(spec_enc_bool(b) + rest) == Some((b, rest)),
{
    assert((spec_enc_bool(b) + rest).drop_first() =~= rest);
}

pub fn enc_bool(out: &mut Vec<u8>, b: bool)
    ensures
        final(out)@ == old(out)@ + spec_enc_bool(b),
{
    out.push(if b {
        1
    } else {
        0
    });
    assert(out@ =~= old(out)@ + spec_enc_bool(b));
}

pub fn dec_bool(s: &[u8], pos: usize) -> (r: Option<(bool, usize)>)
    requires
        pos <= s.len(),
    ensures
        decodes_to::<bool>(s@, pos as int, spec_dec_bool(s@.skip(pos as int)), r),
{
    if pos == s.len() {
        assert(s@.skip(pos as int) =~= Seq::<u8>::empty());
        None
    } else {
        let b = *slice_index_get(s, pos);
        assert(s@.skip(pos as int)[0] == b);
        assert(s@.skip(pos as int).drop_first() =~= s@.skip(pos + 1));
        if b == 0 {
            Some((false, pos + 1))
        } else if b == 1 {
            Some((true, pos + 1))
        } else {
            None
        }
    }
}

// ---------------------------------------------------------------------------
// Signed 32-bit integers: a sign byte, then the magnitude as a varint
// ---------------------------------------------------------------------------

pub open spec fn spec_enc_i32(x: i32) -> Seq<u8> {
    if x >= 0 {
        seq![0u8] + spec_enc_varint(x as nat)
    } else {
        seq![1u8] + spec_enc_varint((-(x as int)) as nat)
    }
}

pub open spec fn spec_dec_i32(s: Seq<u8>) -> Option<(i32, Seq<u8>)> {
    if s.len() == 0 {
        None
    } else {
        let tag = s[0];
        match spec_dec_varint(s.drop_first()) {
            Some(vp) => {
                if tag == 0 && vp.0 <= i32::MAX {
                    Some((vp.0 as i32, vp.1))
                } else if tag == 1 && vp.0 <= 0x8000_0000 {
                    Some(((0 - vp.0 as int) as i32, vp.1))
                } else {
                    None
                }
            },
            None => None,
        }
    }
}

pub proof fn lemma_i32_round_trip(x: i32, rest: Seq<u8>)
    ensures
        spec_dec_i32(spec_enc_i32(x) + rest) == Some((x, rest)),
{
    let s = spec_enc_i32(x) + rest;
    if x >= 0 {
        lemma_varint_round_trip(x as nat, rest);
        assert(s.drop_first() =~= spec_enc_varint(x as nat) + rest);
    } else {
        lemma_varint_round_trip((-(x as int)) as nat, rest);
        assert(s.drop_first() =~= spec_enc_varint((-(x as int)) as nat) + rest);
    }
}

pub fn enc_i32(out: &mut Vec<u8>, x: i32)
    ensures
        final(out)@ == old(out)@ + spec_enc_i32(x),
{
    if x >= 0 {
        out.push(0);
        enc_varint(out, x as u64);
        assert(out@ =~= old(out)@ + spec_enc_i32(x));
    } else {
        out.push(1);
        let magnitude: i64 = -(x as i64);
        enc_varint(out, magnitude as u64);
        assert(out@ =~= old(out)@ + spec_enc_i32(x));
    }
}

pub fn dec_i32(s: &[u8], pos: usize) -> (r: Option<(i32, usize)>)
    requires
        pos <= s.len(),
    ensures
        decodes_to::<i32>(s@, pos as int, spec_dec_i32(s@.skip(pos as int)), r),
{
    if pos == s.len() {
        assert(s@.skip(pos as int) =~= Seq::<u8>::empty());
        return None;
    }
    let tag = *slice_index_get(s, pos);
    assert(s@.skip(pos as int)[0] == tag);
    assert(s@.skip(pos as int).drop_first() =~= s@.skip(pos + 1));
    match dec_varint(s, pos + 1) {
        Some((m, p)) => {
            if tag == 0 && m <= i32::MAX as u64 {
                Some((m as i32, p))
            } else if tag == 1 && m <= 0x8000_0000u64 {
                let neg: i64 = -(m as i64);
                Some((neg as i32, p))
            } else {
                None
            }
        },
        None => None,
    }
}

// ---------------------------------------------------------------------------
// Length-prefixed byte blocks
// ---------------------------------------------------------------------------

pub open spec fn spec_enc_bytes(b: Seq<u8>) -> Seq<u8> {
    spec_enc_varint(b.len()) + b
}

pub open spec fn spec_dec_bytes(s: Seq<u8>) -> Option<(Seq<u8>, Seq<u8>)> {
    match spec_dec_varint(s) {
        Some(vp) => if vp.0 <= vp.1.len() {
            Some((vp.1.take(vp.0 as int), vp.1.skip(vp.0 as int)))
        } else {
            None
        },
        None => None,
    }
}

pub proof fn lemma_bytes_round_trip(b: Seq<u8>, rest: Seq<u8>)
    ensures
        spec_dec_bytes(spec_enc_bytes(b) + rest) == Some((b, rest)),
{
    lemma_varint_round_trip(b.len(), b + rest);
    assert(spec_enc_bytes(b) + rest =~= spec_enc_varint(b.len()) + (b + rest));
    assert((b + rest).take(b.len() as int) =~= b);
    assert((b + rest).skip(b.len() as int) =~= rest);
}

pub fn enc_bytes(out: &mut Vec<u8>, b: &[u8])
    ensures
        final(out)@ == old(out)@ + spec_enc_bytes(b@),
{
    enc_varint(out, b.len() as u64);
    out.extend_from_slice(b);
    assert(out@ =~= old(out)@ + spec_enc_bytes(b@));
}

pub fn dec_bytes(s: &[u8], pos: usize) -> (r: Option<(Vec<u8>, usize)>)
    requires
        pos <= s.len(),
    ensures
        decodes_to::<Vec<u8>>(s@, pos as int, spec_dec_bytes(s@.skip(pos as int)), r),
{
    let slen: usize = s.len();
    proof {
        lemma_dec_varint_remainder(s@.skip(pos as int));
    }
    match dec_varint(s, pos) {
        Some((n, p)) => {
            if n <= (s.len() - p) as u64 {
                let nn = n as usize;
                let body = slice_to_vec(slice_subrange(s, p, p + nn));
                assert(body@ =~= s@.skip(p as int).take(n as int));
                assert(s@.skip((p + nn) as int) =~= s@.skip(p as int).skip(n as int));
                Some((body, p + nn))
            } else {
                None
            }
        },
        None => None,
    }
}

// ---------------------------------------------------------------------------
// Strings: a length varint, then that many bytes of UTF-8
// ---------------------------------------------------------------------------

pub open spec fn spec_enc_chars(cs: Seq<char>) -> Seq<u8> {
    spec_enc_bytes(encode_utf8(cs))
}

pub open spec fn spec_dec_string(s: Seq<u8>) -> Option<(Seq<char>, Seq<u8>)> {
    match spec_dec_bytes(s) {
        Some(vp) => if valid_utf8(vp.0) {
            Some((decode_utf8(vp.0), vp.1))
        } else {
            None
        },
        None => None,
    }
}

pub proof fn lemma_string_round_trip(cs: Seq<char>, rest: Seq<u8>)
    ensures
        spec_dec_string(spec_enc_chars(cs) + rest) == Some((cs, rest)),
{
    broadcast use encode_utf8_valid_utf8, encode_utf8_decode_utf8;

    lemma_bytes_round_trip(encode_utf8(cs), rest);
}

pub fn enc_string(out: &mut Vec<u8>, v: &str)
    ensures
        final(out)@ == old(out)@ + spec_enc_chars(v@),
{
    enc_bytes(out, v.as_bytes());
}

/// Relies on `String::from_utf8`: succeeds exactly on valid UTF-8 and
/// returns the string those bytes spell.
#[verifier::external_body]
fn vec_to_string(v: Vec<u8>) -> (r: Option<String>)
    ensures
        r is Some <==> valid_utf8(v@),
        r matches Some(x) ==> x@ == decode_utf8(v@),
{
    String::from_utf8(v).ok()
}

pub fn dec_string(s: &[u8], pos: usize) -> (r: Option<(String, usize)>)
    requires
        pos <= s.len(),
    ensures
        decodes_to::<String>(s@, pos as int, spec_dec_string(s@.skip(pos as int)), r),
{
    match dec_bytes(s, pos) {
        Some((body, p)) => match vec_to_string(body) {
            Some(text) => Some((text, p)),
            None => None,
        },
        None => None,
    }
}

} // verus!
