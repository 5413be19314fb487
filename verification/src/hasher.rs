//! Deterministic hashing of a trading action, its nonce, and the optional
//! vault attribution into the 32-byte digest ("connection id") that the
//! implicit signing scheme signs.

use vstd::prelude::*;

use crate::action::{action_encodable, enc_action, Action};
use crate::bytes::u64_be;
use crate::errors::CoreError;
use crate::keccak::{keccak, keccak256};

verus! {

/// The digest's trailing flag: one zero byte when no vault is attributed,
/// else `0x01` followed by the vault address's raw bytes.
pub open spec fn vault_suffix(vault: Option<Seq<u8>>) -> Seq<u8> {
    match vault {
        None => seq![0u8],
        Some(a) => seq![1u8] + a,
    }
}

/// The view of an optional vault address argument.
pub open spec fn vault_view(vault: Option<&[u8; 20]>) -> Option<Seq<u8>> {
    match vault {
        None => None,
        Some(a) => Some(a@),
    }
}

/// The exact byte string the digest is computed over: the canonical action
/// encoding, the 8-byte big-endian nonce, and the vault flag.
pub open spec fn digest_input(a: Action, nonce: u64, vault: Option<Seq<u8>>) -> Seq<u8> {
    enc_action(a) + u64_be(nonce) + vault_suffix(vault)
}

/// The digest of an action, nonce and optional vault: Keccak-256 over the
/// canonical byte string. A pure function of its inputs.
pub open spec fn action_digest(a: Action, nonce: u64, vault: Option<Seq<u8>>) -> Seq<u8> {
    keccak(digest_input(a, nonce, vault))
}

/// Computes action digests for implicit signing.
pub struct ActionHasher;

impl ActionHasher {
    /// The digest binding `action`, `nonce` and the optional vault
    /// attribution. Fails exactly when the action cannot be canonically
    /// encoded.
    pub fn hash(action: &Action, nonce: u64, vault_address: Option<&[u8; 20]>) -> (r: Result<
        [u8; 32],
        CoreError,
    >)
        requires
            action.spec_implicit(),
        ensures
            r matches Ok(d) ==> d@ == action_digest(*action, nonce, vault_view(vault_address)),
            r is Ok <==> action_encodable(*action),
            r matches Err(e) ==> e is Serialization,
    {
        let mut bytes = match crate::action::encode_action(action) {
            Ok(v) => v,
            Err(e) => {
                return Err(e);
            },
        };
        crate::bytes::push_u64_be(&mut bytes, nonce);
        match vault_address {
            Some(addr) => {
                bytes.push(1u8);
                bytes.extend_from_slice(addr);
            },
            None => {
                bytes.push(0u8);
            },
        }
        assert(bytes@ =~= digest_input(*action, nonce, vault_view(vault_address)));
        Ok(keccak256(bytes.as_slice()))
    }
}

/// Hashing is deterministic: the digest is a function of the action, the
/// nonce and the vault attribution alone, so two computations over identical
/// inputs agree byte for byte.
pub proof fn lemma_hash_deterministic(
    a1: Action,
    a2: Action,
    nonce1: u64,
    nonce2: u64,
    vault1: Option<Seq<u8>>,
    vault2: Option<Seq<u8>>,
)
    requires
        a1 == a2,
        nonce1 == nonce2,
        vault1 == vault2,
    ensures
        action_digest(a1, nonce1, vault1) == action_digest(a2, nonce2, vault2),
{
}

/// Two distinct nonces can never feed the same byte string into the hash:
/// the nonce sits at a fixed offset behind the action encoding.
pub proof fn lemma_digest_input_nonce_distinct(
    a: Action,
    nonce1: u64,
    nonce2: u64,
    vault: Option<Seq<u8>>,
)
    requires
        nonce1 != nonce2,
    ensures
        digest_input(a, nonce1, vault) != digest_input(a, nonce2, vault),
{
    let e = enc_action(a);
    let i1 = digest_input(a, nonce1, vault);
    let i2 = digest_input(a, nonce2, vault);
    assert((((nonce1 >> 56) as u8) == ((nonce2 >> 56) as u8) && ((nonce1 >> 48) as u8) == ((nonce2
        >> 48) as u8) && ((nonce1 >> 40) as u8) == ((nonce2 >> 40) as u8) && ((nonce1 >> 32) as u8)
        == ((nonce2 >> 32) as u8) && ((nonce1 >> 24) as u8) == ((nonce2 >> 24) as u8) && ((nonce1
        >> 16) as u8) == ((nonce2 >> 16) as u8) && ((nonce1 >> 8) as u8) == ((nonce2 >> 8) as u8)
        && (nonce1 as u8) == (nonce2 as u8)) ==> nonce1 == nonce2) by (bit_vector);
    if i1 == i2 {
        assert(forall|k: int|
            0 <= k < 8 ==> u64_be(nonce1)[k] == u64_be(nonce2)[k]) by {
            assert(forall|k: int|
                0 <= k < 8 ==> i1[e.len() + k] == #[trigger] u64_be(nonce1)[k] && i2[e.len() + k]
                    == u64_be(nonce2)[k]);
        }
        assert(false);
    }
}

/// Changing any field of a leverage action — the asset, the margin mode, or
/// the multiplier — changes the byte string fed into the hash: the canonical
/// encoding is injective for that action kind.
pub proof fn lemma_digest_input_leverage_distinct(
    p1: crate::action::UpdateLeveragePayload,
    p2: crate::action::UpdateLeveragePayload,
    nonce: u64,
    vault: Option<Seq<u8>>,
)
    requires
        p1 != p2,
    ensures
        digest_input(Action::UpdateLeverage(p1), nonce, vault) != digest_input(
            Action::UpdateLeverage(p2),
            nonce,
            vault,
        ),
{
    let e1 = enc_action(Action::UpdateLeverage(p1));
    let e2 = enc_action(Action::UpdateLeverage(p2));
    let i1 = digest_input(Action::UpdateLeverage(p1), nonce, vault);
    let i2 = digest_input(Action::UpdateLeverage(p2), nonce, vault);
    if i1 == i2 {
        assert(e1.len() + u64_be(nonce).len() + vault_suffix(vault).len() == i1.len());
        assert(e2.len() + u64_be(nonce).len() + vault_suffix(vault).len() == i2.len());
        assert(e1 =~= i1.take(e1.len() as int));
        assert(e2 =~= i2.take(e2.len() as int));
        crate::action::lemma_enc_update_leverage_injective(p1, p2);
        assert(p1 == p2);
        assert(false);
    }
}

/// Attributing a vault, or changing the vault address, changes the byte
/// string fed into the hash: the flag byte or the address bytes differ.
pub proof fn lemma_digest_input_vault_distinct(
    a: Action,
    nonce: u64,
    vault1: Option<Seq<u8>>,
    vault2: Option<Seq<u8>>,
)
    requires
        vault1 != vault2,
        vault1 matches Some(v) ==> v.len() == 20,
        vault2 matches Some(v) ==> v.len() == 20,
    ensures
        digest_input(a, nonce, vault1) != digest_input(a, nonce, vault2),
{
    let e = enc_action(a);
    let i1 = digest_input(a, nonce, vault1);
    let i2 = digest_input(a, nonce, vault2);
    let flag: int = e.len() as int + 8;
    if i1 == i2 {
        match (vault1, vault2) {
            (None, None) => {
                assert(vault1 == vault2);
            },
            (None, Some(v2)) => {
                assert(i1[flag] == 0u8 && i2[flag] == 1u8);
            },
            (Some(v1), None) => {
                assert(i1[flag] == 1u8 && i2[flag] == 0u8);
            },
            (Some(v1), Some(v2)) => {
                assert(forall|k: int| 0 <= k < 20 ==> v1[k] == #[trigger] v2[k]) by {
                    assert(forall|k: int|
                        0 <= k < 20 ==> i1[flag + 1 + k] == #[trigger] v1[k] && i2[flag + 1 + k]
                            == v2[k]);
                }
                assert(v1 =~= v2);
            },
        }
        assert(false);
    }
}

} // verus!
