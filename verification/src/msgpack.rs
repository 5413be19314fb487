//! Canonical MessagePack encoding of the value shapes that signed actions are
//! built from: unsigned integers, booleans, UTF-8 strings, and map/array
//! headers. The encoding is key-order stable and uses the most compact integer
//! and length representation, as the remote verifier recomputes the action
//! hash from exactly these bytes.

use vstd::prelude::*;
use vstd::string::StringSliceAdditionalSpecFns;

use crate::bytes::{u16_be, u32_be, u64_be};

verus! {

/// Strings, arrays and maps carry at most a 32-bit length on the wire.
pub open spec fn fits_len32(n: nat) -> bool {
    n < 0x1_0000_0000
}

/// The encoding of an unsigned integer: the smallest of positive-fixint,
/// uint 8, uint 16, uint 32 and uint 64 that holds the value.
pub open spec fn mp_uint(n: u64) -> Seq<u8> {
    if n < 128 {
        seq![n as u8]
    } else if n < 256 {
        seq![0xccu8, n as u8]
    } else if n < 65536 {
        seq![0xcdu8] + u16_be(n as u16)
    } else if n < 0x1_0000_0000 {
        seq![0xceu8] + u32_be(n as u32)
    } else {
        seq![0xcfu8] + u64_be(n)
    }
}

/// An unsigned integer's first encoded byte classifies the encoding: a value
/// below 128 is its own single byte, and each wider class opens with its own
/// distinct marker and has a fixed length.
pub proof fn lemma_mp_uint_shape(n: u64)
    ensures
        n < 128 ==> mp_uint(n).len() == 1 && mp_uint(n)[0] == n as u8 && mp_uint(n)[0] < 128,
        128 <= n < 256 ==> mp_uint(n).len() == 2 && mp_uint(n)[0] == 0xcc,
        256 <= n < 65536 ==> mp_uint(n).len() == 3 && mp_uint(n)[0] == 0xcd,
        65536 <= n < 0x1_0000_0000 ==> mp_uint(n).len() == 5 && mp_uint(n)[0] == 0xce,
        n >= 0x1_0000_0000 ==> mp_uint(n).len() == 9 && mp_uint(n)[0] == 0xcf,
{
}

/// The unsigned-integer encoding is injective: equal byte strings encode
/// equal values.
pub proof fn lemma_mp_uint_injective(x: u64, y: u64)
    requires
        mp_uint(x) == mp_uint(y),
    ensures
        x == y,
{
    lemma_mp_uint_shape(x);
    lemma_mp_uint_shape(y);
    assert(mp_uint(x)[0] == mp_uint(y)[0]);
    if x < 128 {
        assert(mp_uint(x)[0] == x as u8 && mp_uint(y)[0] == y as u8);
    } else if x < 256 {
        assert(mp_uint(x)[1] == x as u8 && mp_uint(y)[1] == y as u8);
    } else if x < 65536 {
        assert(mp_uint(x).skip(1) =~= u16_be(x as u16));
        assert(mp_uint(y).skip(1) =~= u16_be(y as u16));
        crate::bytes::lemma_u16_be_injective(x as u16, y as u16);
    } else if x < 0x1_0000_0000 {
        assert(mp_uint(x).skip(1) =~= u32_be(x as u32));
        assert(mp_uint(y).skip(1) =~= u32_be(y as u32));
        crate::bytes::lemma_u32_be_injective(x as u32, y as u32);
    } else {
        assert(mp_uint(x).skip(1) =~= u64_be(x));
        assert(mp_uint(y).skip(1) =~= u64_be(y));
        crate::bytes::lemma_u64_be_injective(x, y);
    }
}

/// The encoding of a boolean.
pub open spec fn mp_bool(b: bool) -> Seq<u8> {
    if b {
        seq![0xc3u8]
    } else {
        seq![0xc2u8]
    }
}

/// The header announcing a string of `n` bytes: fixstr below 32, else str 8,
/// str 16 or str 32.
pub open spec fn mp_str_header(n: nat) -> Seq<u8>
    recommends
        fits_len32(n),
{
    if n < 32 {
        seq![(0xa0 + n) as u8]
    } else if n < 256 {
        seq![0xd9u8, n as u8]
    } else if n < 65536 {
        seq![0xdau8] + u16_be(n as u16)
    } else {
        seq![0xdbu8] + u32_be(n as u32)
    }
}

/// The encoding of a string given as its UTF-8 bytes.
pub open spec fn mp_str(bytes: Seq<u8>) -> Seq<u8>
    recommends
        fits_len32(bytes.len()),
{
    mp_str_header(bytes.len()) + bytes
}

/// The header announcing a map of `n` key-value pairs: fixmap below 16, else
/// map 16 or map 32.
pub open spec fn mp_map_header(n: nat) -> Seq<u8>
    recommends
        fits_len32(n),
{
    if n < 16 {
        seq![(0x80 + n) as u8]
    } else if n < 65536 {
        seq![0xdeu8] + u16_be(n as u16)
    } else {
        seq![0xdfu8] + u32_be(n as u32)
    }
}

/// The header announcing an array of `n` elements: fixarray below 16, else
/// array 16 or array 32.
pub open spec fn mp_array_header(n: nat) -> Seq<u8>
    recommends
        fits_len32(n),
{
    if n < 16 {
        seq![(0x90 + n) as u8]
    } else if n < 65536 {
        seq![0xdcu8] + u16_be(n as u16)
    } else {
        seq![0xddu8] + u32_be(n as u32)
    }
}

/// Append the encoding of an unsigned integer to `out`.
pub fn push_uint(out: &mut Vec<u8>, n: u64)
    ensures
        final(out)@ == old(out)@ + mp_uint(n),
{
    if n < 128 {
        out.push(n as u8);
    } else if n < 256 {
        out.push(0xcc);
        out.push(n as u8);
    } else if n < 65536 {
        let n16 = n as u16;
        out.push(0xcd);
        out.push((n16 >> 8) as u8);
        out.push(n16 as u8);
    } else if n < 0x1_0000_0000 {
        let n32 = n as u32;
        out.push(0xce);
        out.push((n32 >> 24) as u8);
        out.push((n32 >> 16) as u8);
        out.push((n32 >> 8) as u8);
        out.push(n32 as u8);
    } else {
        out.push(0xcf);
        crate::bytes::push_u64_be(out, n);
    }
    assert(final(out)@ =~= old(out)@ + mp_uint(n));
}

/// Append the encoding of a boolean to `out`.
pub fn push_bool(out: &mut Vec<u8>, b: bool)
    ensures
        final(out)@ == old(out)@ + mp_bool(b),
{
    if b {
        out.push(0xc3);
    } else {
        out.push(0xc2);
    }
    assert(final(out)@ =~= old(out)@ + mp_bool(b));
}

/// Append the string header for a payload of `n` bytes to `out`.
pub fn push_str_header(out: &mut Vec<u8>, n: usize)
    requires
        fits_len32(n as nat),
    ensures
        final(out)@ == old(out)@ + mp_str_header(n as nat),
{
    if n < 32 {
        out.push((0xa0 + n) as u8);
    } else if n < 256 {
        out.push(0xd9);
        out.push(n as u8);
    } else if n < 65536 {
        let n16 = n as u16;
        out.push(0xda);
        out.push((n16 >> 8) as u8);
        out.push(n16 as u8);
    } else {
        let n32 = n as u32;
        out.push(0xdb);
        out.push((n32 >> 24) as u8);
        out.push((n32 >> 16) as u8);
        out.push((n32 >> 8) as u8);
        out.push(n32 as u8);
    }
    assert(final(out)@ =~= old(out)@ + mp_str_header(n as nat));
}

/// Append the encoding of a string, given as its UTF-8 bytes, to `out`.
pub fn push_str_bytes(out: &mut Vec<u8>, bytes: &[u8])
    requires
        fits_len32(bytes@.len()),
    ensures
        final(out)@ == old(out)@ + mp_str(bytes@),
{
    push_str_header(out, bytes.len());
    out.extend_from_slice(bytes);
    assert(final(out)@ =~= old(out)@ + mp_str(bytes@));
}

/// Append the encoding of a string slice to `out`.
pub fn push_str(out: &mut Vec<u8>, s: &str)
    requires
        fits_len32(s.spec_bytes().len()),
    ensures
        final(out)@ == old(out)@ + mp_str(s.spec_bytes()),
{
    let bytes = s.as_bytes();
    push_str_bytes(out, bytes);
}

/// Append a map header for `n` key-value pairs to `out`.
pub fn push_map_header(out: &mut Vec<u8>, n: usize)
    requires
        fits_len32(n as nat),
    ensures
        final(out)@ == old(out)@ + mp_map_header(n as nat),
{
    if n < 16 {
        out.push((0x80 + n) as u8);
    } else if n < 65536 {
        let n16 = n as u16;
        out.push(0xde);
        out.push((n16 >> 8) as u8);
        out.push(n16 as u8);
    } else {
        let n32 = n as u32;
        out.push(0xdf);
        out.push((n32 >> 24) as u8);
        out.push((n32 >> 16) as u8);
        out.push((n32 >> 8) as u8);
        out.push(n32 as u8);
    }
    assert(final(out)@ =~= old(out)@ + mp_map_header(n as nat));
}

/// Append an array header for `n` elements to `out`.
pub fn push_array_header(out: &mut Vec<u8>, n: usize)
    requires
        fits_len32(n as nat),
    ensures
        final(out)@ == old(out)@ + mp_array_header(n as nat),
{
    if n < 16 {
        out.push((0x90 + n) as u8);
    } else if n < 65536 {
        let n16 = n as u16;
        out.push(0xdc);
        out.push((n16 >> 8) as u8);
        out.push(n16 as u8);
    } else {
        let n32 = n as u32;
        out.push(0xdd);
        out.push((n32 >> 24) as u8);
        out.push((n32 >> 16) as u8);
        out.push((n32 >> 8) as u8);
        out.push(n32 as u8);
    }
    assert(final(out)@ =~= old(out)@ + mp_array_header(n as nat));
}

} // verus!
