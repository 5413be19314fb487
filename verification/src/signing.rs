//! The two signature protocols and the identities that drive them.
//!
//! The implicit ("phantom agent") scheme hashes a trading action into a
//! connection id, wraps it into a minimal typed record, and signs that
//! record's hash; it is used for high-frequency trading actions. The explicit
//! scheme signs the canonical hash of a full typed-data approval document; it
//! is used for identity-level approvals only. The two schemes share nothing
//! but the final "produce an `(r, s, v)` signature" step.

use vstd::prelude::*;

use crate::action::{action_encodable, Action};
use crate::bytes::hex_of;
use crate::errors::CoreError;
use crate::hasher::{action_digest, vault_view, ActionHasher};
use crate::typed_data::{
    approve_agent_struct_hash, approve_builder_fee_struct_hash, compute_approve_agent_hash,
    compute_approve_builder_fee_hash, compute_explicit_signing_hash,
    compute_implicit_signing_hash, explicit_signing_hash, implicit_signing_hash, ApproveAgent,
    ApproveBuilderFee,
};

verus! {

/// Which deployment of the exchange actions are destined for.
#[derive(Clone, Copy, Debug, PartialEq, Eq, Structural)]
pub enum Chain {
    Mainnet,
    Testnet,
}

impl Chain {
    /// The one-letter source tag folded into the phantom-agent record.
    pub open spec fn source_label(self) -> Seq<char> {
        match self {
            Chain::Mainnet => "a"@,
            Chain::Testnet => "b"@,
        }
    }

    /// The one-letter source tag folded into the phantom-agent record.
    pub fn source(&self) -> (r: &'static str)
        ensures
            r@ == self.source_label(),
    {
        match self {
            Chain::Mainnet => "a",
            Chain::Testnet => "b",
        }
    }

    /// The human-readable chain label carried by approval documents.
    pub open spec fn spec_label(self) -> Seq<char> {
        match self {
            Chain::Mainnet => "Mainnet"@,
            Chain::Testnet => "Testnet"@,
        }
    }

    /// The human-readable chain label carried by approval documents.
    pub fn label(&self) -> (r: &'static str)
        ensures
            r@ == self.spec_label(),
    {
        match self {
            Chain::Mainnet => "Mainnet",
            Chain::Testnet => "Testnet",
        }
    }
}

/// An identity: an address always, and the capability to sign (a private
/// scalar) only conditionally. The durable identity owns funds and signs
/// approvals; a disposable agent identity signs routine trading actions; an
/// identity without a scalar is read-only.
pub struct Identity {
    address: [u8; 20],
    key: Option<[u8; 32]>,
}

impl Identity {
    /// Whether this identity can sign.
    pub closed spec fn spec_has_key(&self) -> bool {
        self.key is Some
    }

    /// The private scalar's bytes, meaningful only when the identity can sign.
    pub closed spec fn spec_key(&self) -> Seq<u8> {
        self.key->0@
    }

    /// The identity's address bytes.
    pub closed spec fn spec_address(&self) -> Seq<u8> {
        self.address@
    }

    /// A read-only identity: it has an address but cannot sign.
    pub fn read_only(address: [u8; 20]) -> (r: Self)
        ensures
            !r.spec_has_key(),
            r.spec_address() == address@,
    {
        Identity { address, key: None }
    }

    /// A signing identity built from an address and its private scalar.
    pub fn with_key(address: [u8; 20], key: [u8; 32]) -> (r: Self)
        ensures
            r.spec_has_key(),
            r.spec_key() == key@,
            r.spec_address() == address@,
    {
        Identity { address, key: Some(key) }
    }

    /// The identity's address.
    pub fn address(&self) -> (r: [u8; 20])
        ensures
            r@ == self.spec_address(),
    {
        self.address
    }

    /// Whether this identity can sign.
    pub fn can_sign(&self) -> (r: bool)
        ensures
            r == self.spec_has_key(),
    {
        self.key.is_some()
    }
}

/// A produced signature: `r` and `s` as `0x`-prefixed 64-digit hex scalars,
/// and the recovery id `v` normalized to 27 or 28.
#[derive(Debug)]
pub struct SignatureValue {
    pub r: String,
    pub s: String,
    pub v: u64,
}

/// What the deterministic ECDSA signer returns on a (key, digest) pair: the
/// 32-byte `r` and `s` scalars and the recovery parity bit. RFC 6979 derives
/// the ephemeral scalar from the key and digest alone, so the triple is a
/// function of its arguments.
pub uninterp spec fn ecdsa_sign(key: Seq<u8>, digest: Seq<u8>) -> (Seq<u8>, Seq<u8>, bool);

/// Whether 32 key bytes are a valid non-zero secp256k1 scalar — the condition
/// under which `PrivateKeySigner::from_bytes` accepts them. A pure function of
/// the bytes.
pub uninterp spec fn scalar_ok(key: Seq<u8>) -> bool;

/// Relies on `alloy_signer_local::PrivateKeySigner` (`from_bytes`, then
/// `SignerSync::sign_hash_sync`): deterministic RFC 6979 ECDSA over secp256k1,
/// returning the `r` and `s` scalars as 32-byte big-endian words and the
/// recovery parity. `from_bytes` accepts exactly the valid non-zero scalars,
/// and signing a 32-byte digest with such a key succeeds: the RFC 6979
/// derivation retries until the ephemeral scalar is a valid non-zero value.
#[verifier::external_body]
fn sign_digest_raw(key: &[u8; 32], digest: &[u8; 32]) -> (r: Option<([u8; 32], [u8; 32], bool)>)
    ensures
        r matches Some(t) ==> (t.0@, t.1@, t.2) == ecdsa_sign(key@, digest@),
        r is Some <==> scalar_ok(key@),
{
    let signer = alloy_signer_local::PrivateKeySigner::from_bytes(
        &alloy_primitives::B256::new(*key),
    ).ok()?;
    let sig = alloy_signer::SignerSync::sign_hash_sync(
        &signer,
        &alloy_primitives::B256::new(*digest),
    ).ok()?;
    let r_bytes: [u8; 32] = sig.r().to_be_bytes();
    let s_bytes: [u8; 32] = sig.s().to_be_bytes();
    Some((r_bytes, s_bytes, sig.v()))
}

/// How a rendered signature relates to the raw scalars it came from.
pub open spec fn sig_matches(sig: SignatureValue, parts: (Seq<u8>, Seq<u8>, bool)) -> bool {
    &&& sig.r@ == "0x"@ + hex_of(parts.0)
    &&& sig.s@ == "0x"@ + hex_of(parts.1)
    &&& sig.v == if parts.2 {
        28u64
    } else {
        27u64
    }
}

/// Render raw signature scalars into the wire form: hex-encoded `r` and `s`,
/// and the parity bit normalized to 27/28 — never a raw 0/1 bit.
pub fn signature_from_parts(r_bytes: &[u8; 32], s_bytes: &[u8; 32], parity: bool) -> (sig:
    SignatureValue)
    ensures
        sig_matches(sig, (r_bytes@, s_bytes@, parity)),
        sig.v == 27 || sig.v == 28,
        sig.r@.len() == 66,
        sig.s@.len() == 66,
{
    proof {
        crate::bytes::lemma_hex_of_len(r_bytes@);
        crate::bytes::lemma_hex_of_len(s_bytes@);
        reveal_strlit("0x");
    }
    SignatureValue {
        r: crate::bytes::hex_string_0x(r_bytes),
        s: crate::bytes::hex_string_0x(s_bytes),
        v: if parity {
            28
        } else {
            27
        },
    }
}

/// Sign a 32-byte digest with an identity, or say why it cannot be done.
fn sign_digest(identity: &Identity, digest: &[u8; 32]) -> (r: Result<SignatureValue, CoreError>)
    ensures
        r is Ok <==> identity.spec_has_key() && scalar_ok(identity.spec_key()),
        !identity.spec_has_key() ==> (r matches Err(e) && e is Capability),
        r matches Ok(sig) ==> identity.spec_has_key() && sig_matches(
            sig,
            ecdsa_sign(identity.spec_key(), digest@),
        ) && (sig.v == 27 || sig.v == 28) && sig.r@.len() == 66 && sig.s@.len() == 66,
        r matches Err(e) ==> e is Capability || e is Signing,
        identity.spec_has_key() ==> !(r matches Err(e) && e is Capability),
{
    let key = match &identity.key {
        Some(k) => k,
        None => {
            return Err(CoreError::Capability);
        },
    };
    match sign_digest_raw(key, digest) {
        Some((r_bytes, s_bytes, parity)) => Ok(signature_from_parts(&r_bytes, &s_bytes, parity)),
        None => Err(CoreError::Signing),
    }
}

/// The implicit ("phantom agent") signer for trading actions.
pub struct ImplicitSigner;

impl ImplicitSigner {
    /// Sign a trading action: hash it with its nonce and vault attribution
    /// into a connection id, wrap that digest into the phantom-agent record,
    /// and sign the record's typed-data hash.
    ///
    /// Succeeds exactly when the identity can sign, the action fits the wire
    /// format, and the identity's scalar is valid. Fails with the capability
    /// error exactly when the identity cannot sign; with the serialization
    /// error when a field of the action exceeds the wire format's limits; and
    /// with the signing error when the key bytes are not a valid scalar. On
    /// success `v` is 27 or 28 — never a raw recovery bit — and `r` and `s`
    /// are 66-character zero-padded hex scalars.
    pub fn sign(
        identity: &Identity,
        action: &Action,
        nonce: u64,
        chain: Chain,
        vault_address: Option<&[u8; 20]>,
    ) -> (r: Result<SignatureValue, CoreError>)
        requires
            action.spec_implicit(),
        ensures
            r is Ok <==> identity.spec_has_key() && action_encodable(*action) && scalar_ok(
                identity.spec_key(),
            ),
            !identity.spec_has_key() <==> (r matches Err(e) && e is Capability),
            identity.spec_has_key() && !action_encodable(*action) ==> (r matches Err(e)
                && e is Serialization),
            (r matches Err(e) && e is Serialization) ==> !action_encodable(*action),
            r matches Ok(sig) ==> {
                &&& action_encodable(*action)
                &&& sig_matches(
                    sig,
                    ecdsa_sign(
                        identity.spec_key(),
                        implicit_signing_hash(
                            chain.source_label(),
                            action_digest(*action, nonce, vault_view(vault_address)),
                        ),
                    ),
                )
                &&& (sig.v == 27 || sig.v == 28)
                &&& sig.r@.len() == 66
                &&& sig.s@.len() == 66
            },
    {
        if !identity.can_sign() {
            return Err(CoreError::Capability);
        }
        let connection_id = match ActionHasher::hash(action, nonce, vault_address) {
            Ok(d) => d,
            Err(e) => {
                return Err(e);
            },
        };
        let signing_hash = compute_implicit_signing_hash(chain.source(), &connection_id);
        sign_digest(identity, &signing_hash)
    }
}

/// The explicit typed-data signer for identity-level approvals.
pub struct ExplicitSigner;

impl ExplicitSigner {
    /// Sign a builder-fee approval document with the durable identity.
    ///
    /// Succeeds exactly when the identity can sign and its scalar is valid;
    /// fails with the capability error exactly when the identity cannot sign.
    /// On success the signature is the deterministic ECDSA signature of the
    /// document's canonical typed-data hash, with `v` normalized to 27/28 and
    /// 66-character zero-padded hex scalars.
    pub fn sign_builder_fee(identity: &Identity, approval: &ApproveBuilderFee) -> (r: Result<
        SignatureValue,
        CoreError,
    >)
        ensures
            r is Ok <==> identity.spec_has_key() && scalar_ok(identity.spec_key()),
            !identity.spec_has_key() <==> (r matches Err(e) && e is Capability),
            r matches Ok(sig) ==> sig_matches(
                sig,
                ecdsa_sign(
                    identity.spec_key(),
                    explicit_signing_hash(approve_builder_fee_struct_hash(*approval)),
                ),
            ) && (sig.v == 27 || sig.v == 28) && sig.r@.len() == 66 && sig.s@.len() == 66,
    {
        if !identity.can_sign() {
            return Err(CoreError::Capability);
        }
        let struct_hash = compute_approve_builder_fee_hash(approval);
        let signing_hash = compute_explicit_signing_hash(&struct_hash);
        sign_digest(identity, &signing_hash)
    }

    /// Sign an agent approval document with the durable identity.
    ///
    /// Succeeds exactly when the identity can sign and its scalar is valid;
    /// fails with the capability error exactly when the identity cannot sign.
    pub fn sign_agent(identity: &Identity, approval: &ApproveAgent) -> (r: Result<
        SignatureValue,
        CoreError,
    >)
        ensures
            r is Ok <==> identity.spec_has_key() && scalar_ok(identity.spec_key()),
            !identity.spec_has_key() <==> (r matches Err(e) && e is Capability),
            r matches Ok(sig) ==> sig_matches(
                sig,
                ecdsa_sign(
                    identity.spec_key(),
                    explicit_signing_hash(approve_agent_struct_hash(*approval)),
                ),
            ) && (sig.v == 27 || sig.v == 28) && sig.r@.len() == 66 && sig.s@.len() == 66,
    {
        if !identity.can_sign() {
            return Err(CoreError::Capability);
        }
        let struct_hash = compute_approve_agent_hash(approval);
        let signing_hash = compute_explicit_signing_hash(&struct_hash);
        sign_digest(identity, &signing_hash)
    }
}

/// Explicit signing is deterministic: the signer derives its ephemeral scalar
/// from the key and the document hash alone, so two signatures produced over
/// the same approval with the same identity agree in `r`, `s` and `v`.
pub proof fn lemma_explicit_sign_deterministic(
    key: Seq<u8>,
    hash: Seq<u8>,
    sig1: SignatureValue,
    sig2: SignatureValue,
)
    requires
        sig_matches(sig1, ecdsa_sign(key, hash)),
        sig_matches(sig2, ecdsa_sign(key, hash)),
    ensures
        sig1.r@ == sig2.r@,
        sig1.s@ == sig2.s@,
        sig1.v == sig2.v,
{
}

} // verus!
