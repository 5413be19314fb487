//! Agent-key bootstrap helpers: the date-derived agent label, key material
//! rendering and parsing, and fresh key generation.

use vstd::prelude::*;
use vstd::string::StringSliceAdditionalSpecFns;

use crate::bytes::{hex_of, hex_val};
use crate::errors::CoreError;
use crate::signing::Identity;

verus! {

broadcast use vstd::string::group_string_axioms;

/// A decimal digit character.
pub open spec fn digit_char(d: u8) -> char
    recommends
        d < 10,
{
    "0123456789"@[d as int]
}

/// A value below 100 as two decimal digits, zero-padded.
pub open spec fn two_digits(n: u8) -> Seq<char> {
    seq![digit_char((n / 10) % 10), digit_char(n % 10)]
}

/// The agent label derived from a date: the fixed prefix, then the month,
/// day and two-digit year, each zero-padded. Runs on the same day derive the
/// same label, which keeps registration idempotent per day.
pub open spec fn agent_label(year: u16, month: u8, day: u8) -> Seq<char> {
    "hlmcp-"@ + two_digits(month) + two_digits(day) + two_digits((year % 100) as u8)
}

/// Append the two zero-padded decimal digits of `n` to `out`.
fn push_two_digits(out: &mut String, n: u8)
    requires
        n < 100,
    ensures
        final(out)@ == old(out)@ + two_digits(n),
{
    let digits = "0123456789";
    proof {
        reveal_strlit("0123456789");
    }
    let hi = ((n / 10) % 10) as usize;
    let lo = (n % 10) as usize;
    let hi_s = digits.substring_ascii(hi, hi + 1);
    out.append(hi_s);
    let lo_s = digits.substring_ascii(lo, lo + 1);
    out.append(lo_s);
    proof {
        assert(hi_s@ =~= seq![digit_char((n / 10) % 10)]);
        assert(lo_s@ =~= seq![digit_char(n % 10)]);
        assert(out@ =~= old(out)@ + two_digits(n));
    }
}

/// The deterministic human-readable label for an agent created on the given
/// date (today's, as supplied by the caller's clock).
pub fn agent_name_today(year: u16, month: u8, day: u8) -> (r: String)
    requires
        1 <= month <= 12,
        1 <= day <= 31,
    ensures
        r@ == agent_label(year, month, day),
{
    let mut out = String::new();
    out.append("hlmcp-");
    push_two_digits(&mut out, month);
    push_two_digits(&mut out, day);
    push_two_digits(&mut out, (year % 100) as u8);
    assert(out@ =~= agent_label(year, month, day));
    out
}

/// Render secret key material as 64 lowercase hex digits, without a prefix.
pub fn key_to_hex(key: &[u8; 32]) -> (r: String)
    ensures
        r@ == hex_of(key@),
{
    let mut out = String::new();
    crate::bytes::push_hex(&mut out, key);
    assert(out@ =~= hex_of(key@));
    out
}

/// Whether a string is exactly 64 hexadecimal digits.
pub open spec fn is_hex_key(s: Seq<char>) -> bool {
    s.len() == 64 && forall|i: int| 0 <= i < 64 ==> hex_val(#[trigger] s[i]) is Some
}

/// The key bytes named by 64 hex digits: each byte from its two digits.
pub open spec fn hex_key_bytes(s: Seq<char>) -> Seq<u8>
    recommends
        is_hex_key(s),
{
    Seq::new(32, |i: int| (hex_val(s[2 * i])->0 * 16 + hex_val(s[2 * i + 1])->0) as u8)
}

/// The key bytes a stored record names: 64 hex digits, with or without a
/// `0x` prefix; anything else names no key.
pub open spec fn hex_key_of(s: Seq<char>) -> Option<Seq<u8>> {
    if is_hex_key(s) {
        Some(hex_key_bytes(s))
    } else if s.len() == 66 && s.take(2) == "0x"@ && is_hex_key(s.skip(2)) {
        Some(hex_key_bytes(s.skip(2)))
    } else {
        None
    }
}

/// Parse 64 hex digits (optionally behind a `0x` prefix, as the stored record
/// carries) into key bytes. Returns exactly the bytes the string names, and
/// nothing when it names no key.
pub fn parse_key_hex(s: &str) -> (r: Option<[u8; 32]>)
    requires
        s.is_ascii(),
    ensures
        r matches Some(k) ==> hex_key_of(s@) == Some(k@),
        r is Some <==> hex_key_of(s@) is Some,
{
    let b = s.as_bytes();
    proof {
        reveal_strlit("0x");
    }
    let (off, t): (usize, Ghost<Seq<char>>) = if b.len() == 66 && b[0] == 48 && b[1] == 120 {
        proof {
            assert(s@[0] == '0' && s@[1] == 'x');
            assert(s@.take(2) =~= "0x"@);
        }
        (2, Ghost(s@.skip(2)))
    } else {
        (0, Ghost(s@))
    };
    if b.len() - off != 64 {
        proof {
            if off == 2 {
                assert(t@.len() != 64);
            } else {
                assert(s@.len() != 64);
                if s@.len() == 66 && s@.take(2) == "0x"@ {
                    assert(s@.take(2)[0] == '0' && s@.take(2)[1] == 'x');
                    assert(s@[0] == '0' && s@[1] == 'x');
                    assert(b@[0] == 48 && b@[1] == 120);
                    assert(false);
                }
            }
        }
        return None;
    }
    proof {
        if off == 0 {
            assert(s@.skip(0) =~= s@);
        }
    }
    let mut out: Vec<u8> = Vec::new();
    let mut i: usize = 0;
    while i < 32
        invariant
            i <= 32,
            off == 0 || off == 2,
            off + 64 == b@.len(),
            b@ == s.spec_bytes(),
            s.is_ascii(),
            t@ == s@.skip(off as int),
            t@.len() == 64,
            out@.len() == i,
            forall|k: int| 0 <= k < 2 * i ==> hex_val(#[trigger] t@[k]) is Some,
            forall|k: int|
                0 <= k < i ==> out@[k] == (hex_val(t@[2 * k])->0 * 16 + hex_val(t@[2 * k + 1])->0)
                    as u8,
        decreases 32 - i,
    {
        proof {
            assert(b@[(off + 2 * i) as int] == s@[(off + 2 * i) as int] as u8);
            assert(b@[(off + 2 * i + 1) as int] == s@[(off + 2 * i + 1) as int] as u8);
            assert(s@[(off + 2 * i) as int] as u8 <= 127);
            assert(s@[(off + 2 * i + 1) as int] as u8 <= 127);
        }
        let hi = match crate::bytes::hex_val_exec(b[off + 2 * i]) {
            Some(v) => v,
            None => {
                proof {
                    assert(t@[2 * i as int] == s@[(off + 2 * i) as int]);
                    assert(hex_val(t@[2 * i as int]) is None);
                    if off == 0 && s@.len() == 66 && s@.take(2) == "0x"@ {
                        assert(s@.take(2)[0] == '0' && s@.take(2)[1] == 'x');
                        assert(s@[0] == '0' && s@[1] == 'x');
                        assert(b@[0] == 48 && b@[1] == 120);
                    }
                }
                return None;
            },
        };
        let lo = match crate::bytes::hex_val_exec(b[off + 2 * i + 1]) {
            Some(v) => v,
            None => {
                proof {
                    assert(t@[2 * i as int + 1] == s@[(off + 2 * i + 1) as int]);
                    assert(hex_val(t@[2 * i as int + 1]) is None);
                    if off == 0 && s@.len() == 66 && s@.take(2) == "0x"@ {
                        assert(s@.take(2)[0] == '0' && s@.take(2)[1] == 'x');
                        assert(s@[0] == '0' && s@[1] == 'x');
                        assert(b@[0] == 48 && b@[1] == 120);
                    }
                }
                return None;
            },
        };
        out.push(hi * 16 + lo);
        proof {
            assert(t@[2 * i as int] == s@[(off + 2 * i) as int]);
            assert(t@[2 * i as int + 1] == s@[(off + 2 * i + 1) as int]);
        }
        i = i + 1;
    }
    let mut key = [0u8; 32];
    let mut j: usize = 0;
    while j < 32
        invariant
            j <= 32,
            out@.len() == 32,
            key@.len() == 32,
            forall|k: int| 0 <= k < j ==> key@[k] == out@[k],
        decreases 32 - j,
    {
        key[j] = out[j];
        j = j + 1;
    }
    proof {
        assert(is_hex_key(t@));
        assert(key@ =~= hex_key_bytes(t@));
        if off == 2 {
            assert(s@.take(2) =~= "0x"@);
            assert(s@.len() == 66);
            assert(!is_hex_key(s@));
            assert(hex_key_of(s@) == Some(hex_key_bytes(s@.skip(2))));
        }
    }
    Some(key)
}

/// What deriving an address from a private scalar yields. The derivation is a
/// pure function of the key bytes.
pub uninterp spec fn key_address(key: Seq<u8>) -> Seq<u8>;

/// Relies on `alloy_signer_local::PrivateKeySigner::from_bytes` and the
/// signer's `address`: the address derived from the secret scalar, a pure
/// function of the key bytes, 20 bytes long. `from_bytes` accepts exactly the
/// valid non-zero scalars, and the derivation itself cannot fail.
#[verifier::external_body]
pub fn address_of_key(key: &[u8; 32]) -> (r: Option<[u8; 20]>)
    ensures
        r matches Some(a) ==> a@ == key_address(key@),
        r is Some <==> crate::signing::scalar_ok(key@),
{
    let signer = alloy_signer_local::PrivateKeySigner::from_bytes(
        &alloy_primitives::B256::new(*key),
    ).ok()?;
    Some(signer.address().0 .0)
}

/// Relies on `alloy_signer_local::PrivateKeySigner::random` and `to_bytes`:
/// a freshly generated random private scalar. Nothing is assumed about the
/// value; every caller must treat it as arbitrary.
#[verifier::external_body]
pub fn generate_agent_key() -> (r: [u8; 32]) {
    alloy_signer_local::PrivateKeySigner::random().to_bytes().0
}

/// Rebuild a signing identity from stored key material: parse the hex record,
/// derive the address, and wrap both. Succeeds exactly when the text names a
/// key (64 hex digits, with or without the `0x` prefix) whose bytes are a
/// valid scalar; fails on malformed hex or an invalid scalar.
pub fn wallet_and_address(key_hex: &str) -> (r: Result<(Identity, [u8; 20]), CoreError>)
    requires
        key_hex.is_ascii(),
    ensures
        r is Ok <==> (hex_key_of(key_hex@) matches Some(k) && crate::signing::scalar_ok(k)),
        r matches Ok(p) ==> {
            &&& p.0.spec_has_key()
            &&& hex_key_of(key_hex@) == Some(p.0.spec_key())
            &&& p.1@ == key_address(p.0.spec_key())
            &&& p.0.spec_address() == p.1@
        },
        r matches Err(e) ==> e is Signing,
{
    let key = match parse_key_hex(key_hex) {
        Some(k) => k,
        None => {
            return Err(CoreError::Signing);
        },
    };
    let address = match address_of_key(&key) {
        Some(a) => a,
        None => {
            return Err(CoreError::Signing);
        },
    };
    Ok((Identity::with_key(address, key), address))
}

} // verus!
