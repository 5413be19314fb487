//! Both signature protocols: the typed-data hashes against alloy's own
//! EIP-712 implementation, recovery of the signer's address, the 27/28
//! recovery id, deterministic re-signing, the capability error, and a pinned
//! end-to-end fixture.

use alloy_dyn_abi::TypedData;
use hyperliquid_core::action::{Action, UpdateLeveragePayload};
use hyperliquid_core::errors::CoreError;
use hyperliquid_core::hasher::ActionHasher;
use hyperliquid_core::signing::{Chain, ExplicitSigner, Identity, ImplicitSigner};
use hyperliquid_core::typed_data::{
    compute_approve_agent_hash, compute_approve_builder_fee_hash, compute_explicit_signing_hash,
    compute_implicit_signing_hash, ApproveAgent, ApproveBuilderFee,
};

fn test_key() -> [u8; 32] {
    let mut key = [0u8; 32];
    key[31] = 1;
    key
}

fn test_identity() -> Identity {
    let signer = alloy_signer_local::PrivateKeySigner::from_bytes(&alloy_primitives::B256::new(
        test_key(),
    ))
    .unwrap();
    Identity::with_key(signer.address().0 .0, test_key())
}

fn leverage_action() -> Action {
    Action::UpdateLeverage(UpdateLeveragePayload { asset: 0, is_cross: true, leverage: 10 })
}

fn hex_32(bytes: &[u8; 32]) -> String {
    let mut s = String::from("0x");
    for b in bytes.iter() {
        s.push_str(&format!("{b:02x}"));
    }
    s
}

#[test]
fn implicit_signing_hash_matches_alloy_typed_data() {
    let connection_id = ActionHasher::hash(&leverage_action(), 12345, None).unwrap();
    let ours = compute_implicit_signing_hash("a", &connection_id);

    let mut document = String::from(
        r#"{"domain":{"name":"Exchange","version":"1","chainId":1337,"verifyingContract":"0x0000000000000000000000000000000000000000"},"types":{"EIP712Domain":[{"name":"name","type":"string"},{"name":"version","type":"string"},{"name":"chainId","type":"uint256"},{"name":"verifyingContract","type":"address"}],"Agent":[{"name":"source","type":"string"},{"name":"connectionId","type":"bytes32"}]},"primaryType":"Agent","message":{"source":"a","connectionId":""#,
    );
    document.push_str(&hex_32(&connection_id));
    document.push_str(r#""}}"#);
    let typed: TypedData = serde_json::from_str(&document).unwrap();
    let expected = typed.eip712_signing_hash().unwrap();
    assert_eq!(ours, expected.0);
}

#[test]
fn builder_fee_signing_hash_matches_alloy_typed_data() {
    let approval = ApproveBuilderFee {
        chain_label: String::from("Mainnet"),
        max_fee_rate: String::from("0.01%"),
        builder: [0xaa; 20],
        nonce: 77,
    };
    let ours = compute_explicit_signing_hash(&compute_approve_builder_fee_hash(&approval));

    let document = r#"{"domain":{"name":"HyperliquidSignTransaction","version":"1","chainId":421614,"verifyingContract":"0x0000000000000000000000000000000000000000"},"types":{"EIP712Domain":[{"name":"name","type":"string"},{"name":"version","type":"string"},{"name":"chainId","type":"uint256"},{"name":"verifyingContract","type":"address"}],"HyperliquidTransaction:ApproveBuilderFee":[{"name":"hyperliquidChain","type":"string"},{"name":"maxFeeRate","type":"string"},{"name":"builder","type":"address"},{"name":"nonce","type":"uint64"}]},"primaryType":"HyperliquidTransaction:ApproveBuilderFee","message":{"hyperliquidChain":"Mainnet","maxFeeRate":"0.01%","builder":"0xaaaaaaaaaaaaaaaaaaaaaaaaaaaaaaaaaaaaaaaa","nonce":77}}"#;
    let typed: TypedData = serde_json::from_str(document).unwrap();
    let expected = typed.eip712_signing_hash().unwrap();
    assert_eq!(ours, expected.0);
}

#[test]
fn approve_agent_signing_hash_matches_alloy_typed_data() {
    let approval = ApproveAgent {
        chain_label: String::from("Testnet"),
        agent_address: [0x11; 20],
        agent_name: String::from("hlmcp-100926"),
        nonce: 9,
    };
    let ours = compute_explicit_signing_hash(&compute_approve_agent_hash(&approval));

    let document = r#"{"domain":{"name":"HyperliquidSignTransaction","version":"1","chainId":421614,"verifyingContract":"0x0000000000000000000000000000000000000000"},"types":{"EIP712Domain":[{"name":"name","type":"string"},{"name":"version","type":"string"},{"name":"chainId","type":"uint256"},{"name":"verifyingContract","type":"address"}],"HyperliquidTransaction:ApproveAgent":[{"name":"hyperliquidChain","type":"string"},{"name":"agentAddress","type":"address"},{"name":"agentName","type":"string"},{"name":"nonce","type":"uint64"}]},"primaryType":"HyperliquidTransaction:ApproveAgent","message":{"hyperliquidChain":"Testnet","agentAddress":"0x1111111111111111111111111111111111111111","agentName":"hlmcp-100926","nonce":9}}"#;
    let typed: TypedData = serde_json::from_str(document).unwrap();
    let expected = typed.eip712_signing_hash().unwrap();
    assert_eq!(ours, expected.0);
}

#[test]
fn implicit_signature_v_is_27_or_28() {
    let identity = test_identity();
    let sig =
        ImplicitSigner::sign(&identity, &leverage_action(), 12345, Chain::Mainnet, None).unwrap();
    assert!(sig.v == 27 || sig.v == 28, "v was {}", sig.v);
}

#[test]
fn implicit_signature_recovers_the_signer_address() {
    let identity = test_identity();
    let sig =
        ImplicitSigner::sign(&identity, &leverage_action(), 12345, Chain::Mainnet, None).unwrap();

    let connection_id = ActionHasher::hash(&leverage_action(), 12345, None).unwrap();
    let hash = compute_implicit_signing_hash("a", &connection_id);

    let r: alloy_primitives::B256 = sig.r.parse().unwrap();
    let s: alloy_primitives::B256 = sig.s.parse().unwrap();
    let parity = sig.v == 28;
    let signature = alloy_primitives::Signature::from_scalars_and_parity(r, s, parity);
    let recovered = signature
        .recover_address_from_prehash(&alloy_primitives::B256::new(hash))
        .unwrap();
    assert_eq!(recovered.0 .0, identity.address());
}

#[test]
fn explicit_signing_is_deterministic() {
    let identity = test_identity();
    let approval = ApproveBuilderFee {
        chain_label: String::from("Mainnet"),
        max_fee_rate: String::from("0.01%"),
        builder: [0xaa; 20],
        nonce: 77,
    };
    let sig1 = ExplicitSigner::sign_builder_fee(&identity, &approval).unwrap();
    let sig2 = ExplicitSigner::sign_builder_fee(&identity, &approval).unwrap();
    assert_eq!(sig1.r, sig2.r);
    assert_eq!(sig1.s, sig2.s);
    assert_eq!(sig1.v, sig2.v);
}

#[test]
fn read_only_identity_gets_the_capability_error() {
    let identity = Identity::read_only([0x42; 20]);
    let implicit =
        ImplicitSigner::sign(&identity, &leverage_action(), 1, Chain::Mainnet, None);
    assert!(matches!(implicit, Err(CoreError::Capability)));
    let approval = ApproveAgent {
        chain_label: String::from("Mainnet"),
        agent_address: [0x11; 20],
        agent_name: String::from("hlmcp-010101"),
        nonce: 1,
    };
    let explicit = ExplicitSigner::sign_agent(&identity, &approval);
    assert!(matches!(explicit, Err(CoreError::Capability)));
}

#[test]
fn signature_scalars_are_fixed_width_hex() {
    let identity = test_identity();
    let sig =
        ImplicitSigner::sign(&identity, &leverage_action(), 12345, Chain::Testnet, None).unwrap();
    assert_eq!(sig.r.len(), 66);
    assert_eq!(sig.s.len(), 66);
    assert!(sig.r.starts_with("0x"));
    assert!(sig.s.starts_with("0x"));
}

#[test]
fn pinned_leverage_signature_fixture() {
    let identity = test_identity();
    let sig =
        ImplicitSigner::sign(&identity, &leverage_action(), 12345, Chain::Mainnet, None).unwrap();
    assert_eq!(
        (sig.r.as_str(), sig.s.as_str(), sig.v),
        (
            "0xc7342624638fcd8e595ff637f728efb9ec5c3f76101ebfc8e145707cb353d27d",
            "0x3d73a98d02867b094202f03247514878af0dc86093c200dabeb11187d93df971",
            28,
        ),
        "fixture mismatch: r={} s={} v={}",
        sig.r,
        sig.s,
        sig.v
    );
}
