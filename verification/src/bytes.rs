//! Byte-level building blocks shared by the canonical action encoding and the
//! typed-data hashing: big-endian integer encodings and hexadecimal rendering.

use vstd::prelude::*;

verus! {

/// The 8-byte big-endian encoding of a 64-bit integer.
pub open spec fn u64_be(n: u64) -> Seq<u8> {
    seq![
        (n >> 56) as u8,
        (n >> 48) as u8,
        (n >> 40) as u8,
        (n >> 32) as u8,
        (n >> 24) as u8,
        (n >> 16) as u8,
        (n >> 8) as u8,
        n as u8,
    ]
}

/// The 2-byte big-endian encoding of a 16-bit integer.
pub open spec fn u16_be(n: u16) -> Seq<u8> {
    seq![(n >> 8) as u8, n as u8]
}

/// The 4-byte big-endian encoding of a 32-bit integer.
pub open spec fn u32_be(n: u32) -> Seq<u8> {
    seq![(n >> 24) as u8, (n >> 16) as u8, (n >> 8) as u8, n as u8]
}

/// Big-endian encoding is injective: equal bytes come from equal values.
pub proof fn lemma_u16_be_injective(x: u16, y: u16)
    requires
        u16_be(x) == u16_be(y),
    ensures
        x == y,
{
    assert(u16_be(x)[0] == u16_be(y)[0] && u16_be(x)[1] == u16_be(y)[1]);
    assert(((x >> 8) as u8 == (y >> 8) as u8 && x as u8 == y as u8) ==> x == y) by (bit_vector);
}

/// Big-endian encoding is injective: equal bytes come from equal values.
pub proof fn lemma_u32_be_injective(x: u32, y: u32)
    requires
        u32_be(x) == u32_be(y),
    ensures
        x == y,
{
    assert(u32_be(x)[0] == u32_be(y)[0] && u32_be(x)[1] == u32_be(y)[1] && u32_be(x)[2] == u32_be(
        y,
    )[2] && u32_be(x)[3] == u32_be(y)[3]);
    assert(((x >> 24) as u8 == (y >> 24) as u8 && (x >> 16) as u8 == (y >> 16) as u8 && (x
        >> 8) as u8 == (y >> 8) as u8 && x as u8 == y as u8) ==> x == y) by (bit_vector);
}

/// Big-endian encoding is injective: equal bytes come from equal values.
pub proof fn lemma_u64_be_injective(x: u64, y: u64)
    requires
        u64_be(x) == u64_be(y),
    ensures
        x == y,
{
    assert(forall|k: int| 0 <= k < 8 ==> u64_be(x)[k] == u64_be(y)[k]);
    assert(((x >> 56) as u8 == (y >> 56) as u8 && (x >> 48) as u8 == (y >> 48) as u8 && (x
        >> 40) as u8 == (y >> 40) as u8 && (x >> 32) as u8 == (y >> 32) as u8 && (x >> 24) as u8
        == (y >> 24) as u8 && (x >> 16) as u8 == (y >> 16) as u8 && (x >> 8) as u8 == (y
        >> 8) as u8 && x as u8 == y as u8) ==> x == y) by (bit_vector);
}

/// The 32-byte big-endian encoding of a 64-bit integer as an EIP-712 `uint256`
/// word: 24 zero bytes followed by the 8-byte big-endian value.
pub open spec fn u256_be_of_u64(n: u64) -> Seq<u8> {
    Seq::new(24, |i: int| 0u8) + u64_be(n)
}

/// A 20-byte address left-padded to a 32-byte EIP-712 word.
pub open spec fn address_word(addr: Seq<u8>) -> Seq<u8> {
    Seq::new(12, |i: int| 0u8) + addr
}

/// Append the big-endian bytes of `n` to `out`.
pub fn push_u64_be(out: &mut Vec<u8>, n: u64)
    ensures
        final(out)@ == old(out)@ + u64_be(n),
{
    out.push((n >> 56) as u8);
    out.push((n >> 48) as u8);
    out.push((n >> 40) as u8);
    out.push((n >> 32) as u8);
    out.push((n >> 24) as u8);
    out.push((n >> 16) as u8);
    out.push((n >> 8) as u8);
    out.push(n as u8);
    assert(out@ =~= old(out)@ + u64_be(n));
}

/// Append the 32-byte `uint256` word of `n` to `out`.
pub fn push_u256_be_of_u64(out: &mut Vec<u8>, n: u64)
    ensures
        final(out)@ == old(out)@ + u256_be_of_u64(n),
{
    let mut i: usize = 0;
    while i < 24
        invariant
            i <= 24,
            out@ == old(out)@ + Seq::new(i as nat, |j: int| 0u8),
        decreases 24 - i,
    {
        out.push(0u8);
        assert(out@ =~= old(out)@ + Seq::new((i + 1) as nat, |j: int| 0u8));
        i = i + 1;
    }
    push_u64_be(out, n);
    assert(out@ =~= old(out)@ + u256_be_of_u64(n));
}

/// The lowercase hexadecimal digit for a value below 16.
pub open spec fn hex_digit(n: u8) -> char
    recommends
        n < 16,
{
    "0123456789abcdef"@[n as int]
}

/// The lowercase hexadecimal rendering of a byte string, two digits per byte.
pub open spec fn hex_of(bytes: Seq<u8>) -> Seq<char>
    decreases bytes.len(),
{
    if bytes.len() == 0 {
        Seq::<char>::empty()
    } else {
        hex_of(bytes.drop_last()) + seq![
            hex_digit(bytes.last() / 16),
            hex_digit(bytes.last() % 16),
        ]
    }
}

/// The length of a hexadecimal rendering is twice the byte count.
pub proof fn lemma_hex_of_len(bytes: Seq<u8>)
    ensures
        hex_of(bytes).len() == 2 * bytes.len(),
    decreases bytes.len(),
{
    if bytes.len() > 0 {
        lemma_hex_of_len(bytes.drop_last());
    }
}

/// Append the lowercase hex rendering of `bytes` to `out`.
pub fn push_hex(out: &mut String, bytes: &[u8])
    ensures
        final(out)@ == old(out)@ + hex_of(bytes@),
{
    let digits = "0123456789abcdef";
    proof {
        reveal_strlit("0123456789abcdef");
    }
    let mut i: usize = 0;
    while i < bytes.len()
        invariant
            i <= bytes@.len(),
            digits@ == "0123456789abcdef"@,
            digits.is_ascii(),
            digits@.len() == 16,
            out@ == old(out)@ + hex_of(bytes@.take(i as int)),
        decreases bytes@.len() - i,
    {
        let b = bytes[i];
        let hi = (b / 16) as usize;
        let lo = (b % 16) as usize;
        let hi_s = digits.substring_ascii(hi, hi + 1);
        out.append(hi_s);
        let lo_s = digits.substring_ascii(lo, lo + 1);
        out.append(lo_s);
        proof {
            assert(bytes@.take((i + 1) as int).drop_last() =~= bytes@.take(i as int));
            assert(bytes@.take((i + 1) as int).last() == b);
            assert(hi_s@ =~= seq![hex_digit(b / 16)]);
            assert(lo_s@ =~= seq![hex_digit(b % 16)]);
            assert(out@ =~= old(out)@ + hex_of(bytes@.take((i + 1) as int)));
        }
        i = i + 1;
    }
    proof {
        assert(bytes@.take(bytes@.len() as int) =~= bytes@);
    }
}

/// The lowercase hex rendering of `bytes`, prefixed with `0x`.
pub fn hex_string_0x(bytes: &[u8]) -> (r: String)
    ensures
        r@ == "0x"@ + hex_of(bytes@),
{
    let mut out = String::new();
    out.append("0x");
    push_hex(&mut out, bytes);
    assert(out@ =~= "0x"@ + hex_of(bytes@));
    out
}

/// The numeric value of a hexadecimal digit character, if it is one.
pub open spec fn hex_val(c: char) -> Option<u8> {
    if '0' <= c <= '9' {
        Some((c as u8 - '0' as u8) as u8)
    } else if 'a' <= c <= 'f' {
        Some((c as u8 - 'a' as u8 + 10) as u8)
    } else if 'A' <= c <= 'F' {
        Some((c as u8 - 'A' as u8 + 10) as u8)
    } else {
        None
    }
}

/// The numeric value of a hexadecimal digit character, if it is one.
pub fn hex_val_exec(c: u8) -> (r: Option<u8>)
    ensures
        r == hex_val(c as char),
        r matches Some(v) ==> v < 16,
{
    if c >= 48 && c <= 57 {
        Some(c - 48)
    } else if c >= 97 && c <= 102 {
        Some(c - 97 + 10)
    } else if c >= 65 && c <= 70 {
        Some(c - 65 + 10)
    } else {
        None
    }
}

} // verus!
