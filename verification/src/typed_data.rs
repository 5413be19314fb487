//! Structured-data (EIP-712) hashing for both signature protocols.
//!
//! The implicit scheme wraps an action digest into a minimal `Agent` record
//! and hashes it against a fixed, deliberately inert domain (name `Exchange`,
//! version `1`, chain id 1337, zero verifying contract). The explicit scheme
//! hashes a full typed-data document for identity-level approvals against a
//! distinct domain (name `HyperliquidSignTransaction`, version `1`, chain id
//! 421614, zero verifying contract). Both chain ids are fixed placeholders the
//! remote verifier expects; neither tracks the live network.

use vstd::prelude::*;

use crate::action::sbytes;
use crate::bytes::{address_word, push_u256_be_of_u64, u256_be_of_u64};
use crate::keccak::{keccak, keccak256};

verus! {

broadcast use vstd::string::group_string_axioms;

/// The type string of the signing domain.
pub open spec fn domain_type() -> Seq<char> {
    "EIP712Domain(string name,string version,uint256 chainId,address verifyingContract)"@
}

/// The separator of a signing domain with the given name and chain id,
/// version `1` and the zero verifying contract.
pub open spec fn domain_separator(name: Seq<char>, chain_id: u64) -> Seq<u8> {
    keccak(
        keccak(sbytes(domain_type())) + keccak(sbytes(name)) + keccak(sbytes("1"@))
            + u256_be_of_u64(chain_id) + Seq::new(32, |i: int| 0u8),
    )
}

/// The final hash a signer signs: the two-byte typed-data prefix, the domain
/// separator, and the record's own hash.
pub open spec fn signing_hash(domain_sep: Seq<u8>, struct_hash: Seq<u8>) -> Seq<u8> {
    keccak(seq![0x19u8, 0x01u8] + domain_sep + struct_hash)
}

/// The hash of the minimal phantom-agent record `{source, connectionId}`.
pub open spec fn agent_struct_hash(source: Seq<char>, connection_id: Seq<u8>) -> Seq<u8> {
    keccak(
        keccak(sbytes("Agent(string source,bytes32 connectionId)"@)) + keccak(sbytes(source))
            + connection_id,
    )
}

/// The hash an implicit (phantom-agent) signature signs, for a given chain
/// source label and action digest.
pub open spec fn implicit_signing_hash(source: Seq<char>, connection_id: Seq<u8>) -> Seq<u8> {
    signing_hash(domain_separator("Exchange"@, 1337), agent_struct_hash(source, connection_id))
}

/// An identity-level approval of a builder fee: the chain label, the maximal
/// fee rate as a human-readable string, the builder's address, and the nonce.
pub struct ApproveBuilderFee {
    pub chain_label: String,
    pub max_fee_rate: String,
    pub builder: [u8; 20],
    pub nonce: u64,
}

/// An identity-level approval binding a disposable agent address, under a
/// human-readable label, to the durable identity.
pub struct ApproveAgent {
    pub chain_label: String,
    pub agent_address: [u8; 20],
    pub agent_name: String,
    pub nonce: u64,
}

/// The hash of an `ApproveBuilderFee` record under its prefixed type name.
pub open spec fn approve_builder_fee_struct_hash(a: ApproveBuilderFee) -> Seq<u8> {
    keccak(
        keccak(
            sbytes(
                "HyperliquidTransaction:ApproveBuilderFee(string hyperliquidChain,string maxFeeRate,address builder,uint64 nonce)"@,
            ),
        ) + keccak(sbytes(a.chain_label@)) + keccak(sbytes(a.max_fee_rate@)) + address_word(
            a.builder@,
        ) + u256_be_of_u64(a.nonce),
    )
}

/// The hash of an `ApproveAgent` record under its prefixed type name.
pub open spec fn approve_agent_struct_hash(a: ApproveAgent) -> Seq<u8> {
    keccak(
        keccak(
            sbytes(
                "HyperliquidTransaction:ApproveAgent(string hyperliquidChain,address agentAddress,string agentName,uint64 nonce)"@,
            ),
        ) + keccak(sbytes(a.chain_label@)) + address_word(a.agent_address@) + keccak(
            sbytes(a.agent_name@),
        ) + u256_be_of_u64(a.nonce),
    )
}

/// The hash an explicit signature signs for an approval record's hash: the
/// approval domain is fixed (name `HyperliquidSignTransaction`, chain id
/// 421614).
pub open spec fn explicit_signing_hash(struct_hash: Seq<u8>) -> Seq<u8> {
    signing_hash(domain_separator("HyperliquidSignTransaction"@, 421614), struct_hash)
}

/// The Keccak-256 digest of a string's UTF-8 bytes.
fn hash_str(s: &str) -> (r: [u8; 32])
    ensures
        r@ == keccak(sbytes(s@)),
{
    keccak256(s.as_bytes())
}

/// Compute the separator of the signing domain with the given name and chain
/// id, version `1` and the zero verifying contract.
pub fn compute_domain_separator(name: &str, chain_id: u64) -> (r: [u8; 32])
    ensures
        r@ == domain_separator(name@, chain_id),
{
    let type_hash = hash_str(
        "EIP712Domain(string name,string version,uint256 chainId,address verifyingContract)",
    );
    let name_hash = hash_str(name);
    let version_hash = hash_str("1");
    let mut buf: Vec<u8> = Vec::new();
    buf.extend_from_slice(&type_hash);
    buf.extend_from_slice(&name_hash);
    buf.extend_from_slice(&version_hash);
    push_u256_be_of_u64(&mut buf, chain_id);
    let mut i: usize = 0;
    let ghost mid = buf@;
    while i < 32
        invariant
            i <= 32,
            buf@ == mid + Seq::new(i as nat, |j: int| 0u8),
        decreases 32 - i,
    {
        buf.push(0u8);
        assert(buf@ =~= mid + Seq::new((i + 1) as nat, |j: int| 0u8));
        i = i + 1;
    }
    proof {
        reveal_strlit(
            "EIP712Domain(string name,string version,uint256 chainId,address verifyingContract)",
        );
        assert(buf@ =~= keccak(sbytes(domain_type())) + keccak(sbytes(name@)) + keccak(
            sbytes("1"@),
        ) + u256_be_of_u64(chain_id) + Seq::new(32, |j: int| 0u8));
    }
    keccak256(buf.as_slice())
}

/// Compute the final signing hash from a domain separator and a record hash.
pub fn compute_signing_hash(domain_sep: &[u8; 32], struct_hash: &[u8; 32]) -> (r: [u8; 32])
    ensures
        r@ == signing_hash(domain_sep@, struct_hash@),
{
    let mut buf: Vec<u8> = Vec::new();
    buf.push(0x19);
    buf.push(0x01);
    buf.extend_from_slice(domain_sep);
    buf.extend_from_slice(struct_hash);
    assert(buf@ =~= seq![0x19u8, 0x01u8] + domain_sep@ + struct_hash@);
    keccak256(buf.as_slice())
}

/// Compute the hash of the phantom-agent record for a chain source label and
/// an action digest.
pub fn compute_agent_struct_hash(source: &str, connection_id: &[u8; 32]) -> (r: [u8; 32])
    ensures
        r@ == agent_struct_hash(source@, connection_id@),
{
    let type_hash = hash_str("Agent(string source,bytes32 connectionId)");
    let source_hash = hash_str(source);
    let mut buf: Vec<u8> = Vec::new();
    buf.extend_from_slice(&type_hash);
    buf.extend_from_slice(&source_hash);
    buf.extend_from_slice(connection_id);
    proof {
        reveal_strlit("Agent(string source,bytes32 connectionId)");
        assert(buf@ =~= keccak(sbytes("Agent(string source,bytes32 connectionId)"@)) + keccak(
            sbytes(source@),
        ) + connection_id@);
    }
    keccak256(buf.as_slice())
}

/// Compute the hash an implicit (phantom-agent) signature signs.
pub fn compute_implicit_signing_hash(source: &str, connection_id: &[u8; 32]) -> (r: [u8; 32])
    ensures
        r@ == implicit_signing_hash(source@, connection_id@),
{
    let domain_sep = compute_domain_separator("Exchange", 1337);
    let struct_hash = compute_agent_struct_hash(source, connection_id);
    proof {
        reveal_strlit("Exchange");
    }
    compute_signing_hash(&domain_sep, &struct_hash)
}

/// Append a 20-byte address left-padded to a 32-byte word.
fn push_address_word(buf: &mut Vec<u8>, addr: &[u8; 20])
    ensures
        final(buf)@ == old(buf)@ + address_word(addr@),
{
    let mut i: usize = 0;
    while i < 12
        invariant
            i <= 12,
            buf@ == old(buf)@ + Seq::new(i as nat, |j: int| 0u8),
        decreases 12 - i,
    {
        buf.push(0u8);
        assert(buf@ =~= old(buf)@ + Seq::new((i + 1) as nat, |j: int| 0u8));
        i = i + 1;
    }
    buf.extend_from_slice(addr);
    assert(final(buf)@ =~= old(buf)@ + address_word(addr@));
}

/// Compute the hash of an `ApproveBuilderFee` record.
pub fn compute_approve_builder_fee_hash(a: &ApproveBuilderFee) -> (r: [u8; 32])
    ensures
        r@ == approve_builder_fee_struct_hash(*a),
{
    let type_hash = hash_str(
        "HyperliquidTransaction:ApproveBuilderFee(string hyperliquidChain,string maxFeeRate,address builder,uint64 nonce)",
    );
    let chain_hash = hash_str(a.chain_label.as_str());
    let fee_hash = hash_str(a.max_fee_rate.as_str());
    let mut buf: Vec<u8> = Vec::new();
    buf.extend_from_slice(&type_hash);
    buf.extend_from_slice(&chain_hash);
    buf.extend_from_slice(&fee_hash);
    push_address_word(&mut buf, &a.builder);
    push_u256_be_of_u64(&mut buf, a.nonce);
    proof {
        reveal_strlit(
            "HyperliquidTransaction:ApproveBuilderFee(string hyperliquidChain,string maxFeeRate,address builder,uint64 nonce)",
        );
        assert(buf@ =~= keccak(
            sbytes(
                "HyperliquidTransaction:ApproveBuilderFee(string hyperliquidChain,string maxFeeRate,address builder,uint64 nonce)"@,
            ),
        ) + keccak(sbytes(a.chain_label@)) + keccak(sbytes(a.max_fee_rate@)) + address_word(
            a.builder@,
        ) + u256_be_of_u64(a.nonce));
    }
    keccak256(buf.as_slice())
}

/// Compute the hash of an `ApproveAgent` record.
pub fn compute_approve_agent_hash(a: &ApproveAgent) -> (r: [u8; 32])
    ensures
        r@ == approve_agent_struct_hash(*a),
{
    let type_hash = hash_str(
        "HyperliquidTransaction:ApproveAgent(string hyperliquidChain,address agentAddress,string agentName,uint64 nonce)",
    );
    let chain_hash = hash_str(a.chain_label.as_str());
    let name_hash = hash_str(a.agent_name.as_str());
    let mut buf: Vec<u8> = Vec::new();
    buf.extend_from_slice(&type_hash);
    buf.extend_from_slice(&chain_hash);
    push_address_word(&mut buf, &a.agent_address);
    buf.extend_from_slice(&name_hash);
    push_u256_be_of_u64(&mut buf, a.nonce);
    proof {
        reveal_strlit(
            "HyperliquidTransaction:ApproveAgent(string hyperliquidChain,address agentAddress,string agentName,uint64 nonce)",
        );
        assert(buf@ =~= keccak(
            sbytes(
                "HyperliquidTransaction:ApproveAgent(string hyperliquidChain,address agentAddress,string agentName,uint64 nonce)"@,
            ),
        ) + keccak(sbytes(a.chain_label@)) + address_word(a.agent_address@) + keccak(
            sbytes(a.agent_name@),
        ) + u256_be_of_u64(a.nonce));
    }
    keccak256(buf.as_slice())
}

/// Compute the hash an explicit signature signs for an approval record hash.
pub fn compute_explicit_signing_hash(struct_hash: &[u8; 32]) -> (r: [u8; 32])
    ensures
        r@ == explicit_signing_hash(struct_hash@),
{
    let domain_sep = compute_domain_separator("HyperliquidSignTransaction", 421614);
    proof {
        reveal_strlit("HyperliquidSignTransaction");
    }
    compute_signing_hash(&domain_sep, struct_hash)
}

} // verus!
