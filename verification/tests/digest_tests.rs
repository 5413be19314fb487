//! The action digest: determinism, sensitivity to every input, and agreement
//! with an independently assembled hash.

use hyperliquid_core::action::{
    Action, BuilderInfo, OrderGrouping, OrderPayload, OrderRequest, TimeInForce,
    UpdateLeveragePayload,
};
use hyperliquid_core::hasher::ActionHasher;

fn leverage_action(asset: usize, is_cross: bool, leverage: u32) -> Action {
    Action::UpdateLeverage(UpdateLeveragePayload { asset, is_cross, leverage })
}

fn baseline_digest() -> [u8; 32] {
    ActionHasher::hash(&leverage_action(0, true, 10), 12345, None).expect("hashable")
}

#[test]
fn hash_is_deterministic() {
    let d1 = baseline_digest();
    let d2 = baseline_digest();
    assert_eq!(d1, d2);
}

#[test]
fn changing_each_leverage_field_changes_the_digest() {
    let baseline = baseline_digest();
    let varied = [
        ActionHasher::hash(&leverage_action(1, true, 10), 12345, None).unwrap(),
        ActionHasher::hash(&leverage_action(0, false, 10), 12345, None).unwrap(),
        ActionHasher::hash(&leverage_action(0, true, 11), 12345, None).unwrap(),
    ];
    for (i, d) in varied.iter().enumerate() {
        assert_ne!(*d, baseline, "variation {i} should change the digest");
    }
}

#[test]
fn changing_the_nonce_changes_the_digest() {
    let baseline = baseline_digest();
    let other = ActionHasher::hash(&leverage_action(0, true, 10), 12346, None).unwrap();
    assert_ne!(other, baseline);
}

#[test]
fn vault_presence_and_value_change_the_digest() {
    let baseline = baseline_digest();
    let vault_a = [0x11u8; 20];
    let vault_b = [0x22u8; 20];
    let with_a = ActionHasher::hash(&leverage_action(0, true, 10), 12345, Some(&vault_a)).unwrap();
    let with_b = ActionHasher::hash(&leverage_action(0, true, 10), 12345, Some(&vault_b)).unwrap();
    assert_ne!(with_a, baseline);
    assert_ne!(with_b, baseline);
    assert_ne!(with_a, with_b);
}

fn order_action(
    px: &str,
    sz: &str,
    is_buy: bool,
    reduce_only: bool,
    tif: TimeInForce,
    cloid: Option<&str>,
    grouping: OrderGrouping,
    builder: Option<u64>,
) -> Action {
    Action::Order(OrderPayload {
        orders: vec![OrderRequest {
            asset: 4,
            is_buy,
            reduce_only,
            limit_px: String::from(px),
            sz: String::from(sz),
            cloid: cloid.map(String::from),
            tif,
        }],
        grouping,
        builder: builder.map(|f| BuilderInfo {
            b: String::from("0xdadcb94d61d4a14e8ad1b94acf888120b7e807ae"),
            f,
        }),
    })
}

#[test]
fn changing_each_order_field_changes_the_digest() {
    let base = order_action(
        "100.5",
        "2",
        true,
        false,
        TimeInForce::Gtc,
        Some("0x00000000000000000000000000000001"),
        OrderGrouping::Na,
        Some(10),
    );
    let baseline = ActionHasher::hash(&base, 7, None).unwrap();
    let variations = [
        order_action("100.6", "2", true, false, TimeInForce::Gtc, Some("0x00000000000000000000000000000001"), OrderGrouping::Na, Some(10)),
        order_action("100.5", "3", true, false, TimeInForce::Gtc, Some("0x00000000000000000000000000000001"), OrderGrouping::Na, Some(10)),
        order_action("100.5", "2", false, false, TimeInForce::Gtc, Some("0x00000000000000000000000000000001"), OrderGrouping::Na, Some(10)),
        order_action("100.5", "2", true, true, TimeInForce::Gtc, Some("0x00000000000000000000000000000001"), OrderGrouping::Na, Some(10)),
        order_action("100.5", "2", true, false, TimeInForce::Alo, Some("0x00000000000000000000000000000001"), OrderGrouping::Na, Some(10)),
        order_action("100.5", "2", true, false, TimeInForce::Gtc, Some("0x00000000000000000000000000000002"), OrderGrouping::Na, Some(10)),
        order_action("100.5", "2", true, false, TimeInForce::Gtc, None, OrderGrouping::Na, Some(10)),
        order_action("100.5", "2", true, false, TimeInForce::Gtc, Some("0x00000000000000000000000000000001"), OrderGrouping::NormalTpsl, Some(10)),
        order_action("100.5", "2", true, false, TimeInForce::Gtc, Some("0x00000000000000000000000000000001"), OrderGrouping::Na, Some(11)),
        order_action("100.5", "2", true, false, TimeInForce::Gtc, Some("0x00000000000000000000000000000001"), OrderGrouping::Na, None),
    ];
    for (i, action) in variations.iter().enumerate() {
        let d = ActionHasher::hash(action, 7, None).unwrap();
        assert_ne!(d, baseline, "variation {i} should change the digest");
    }
}

#[test]
fn digest_agrees_with_independently_assembled_hash() {
    let action = leverage_action(0, true, 10);
    let digest = ActionHasher::hash(&action, 12345, None).unwrap();

    let value: serde_json::Value = serde_json::from_str(
        r#"{"type":"updateLeverage","asset":0,"isCross":true,"leverage":10}"#,
    )
    .unwrap();
    let mut bytes = rmp_serde::to_vec_named(&value).unwrap();
    bytes.extend_from_slice(&12345u64.to_be_bytes());
    bytes.push(0);
    let expected = alloy_primitives::keccak256(&bytes);
    assert_eq!(digest, expected.0);
}

#[test]
fn digest_with_vault_agrees_with_independently_assembled_hash() {
    let action = leverage_action(3, false, 5);
    let vault = [0xabu8; 20];
    let digest = ActionHasher::hash(&action, 99, Some(&vault)).unwrap();

    let value: serde_json::Value = serde_json::from_str(
        r#"{"type":"updateLeverage","asset":3,"isCross":false,"leverage":5}"#,
    )
    .unwrap();
    let mut bytes = rmp_serde::to_vec_named(&value).unwrap();
    bytes.extend_from_slice(&99u64.to_be_bytes());
    bytes.push(1);
    bytes.extend_from_slice(&vault);
    let expected = alloy_primitives::keccak256(&bytes);
    assert_eq!(digest, expected.0);
}
