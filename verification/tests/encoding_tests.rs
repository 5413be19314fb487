//! The canonical action encoding against the reference MessagePack encoder:
//! the library's bytes must match `rmp_serde::to_vec_named` on equally shaped
//! values, byte for byte.

use hyperliquid_core::action::{
    encode_action, Action, BuilderInfo, OrderGrouping, OrderPayload, OrderRequest, TimeInForce,
    UpdateLeveragePayload,
};
use hyperliquid_core::msgpack::{push_bool, push_str, push_uint};

fn json(s: &str) -> serde_json::Value {
    serde_json::from_str(s).expect("test JSON is well-formed")
}

fn reference_bytes(s: &str) -> Vec<u8> {
    rmp_serde::to_vec_named(&json(s)).expect("reference encoder accepts the value")
}

#[test]
fn update_leverage_matches_reference_encoder() {
    let action = Action::UpdateLeverage(UpdateLeveragePayload {
        asset: 0,
        is_cross: true,
        leverage: 10,
    });
    let bytes = encode_action(&action).expect("encodable");
    let expected =
        reference_bytes(r#"{"type":"updateLeverage","asset":0,"isCross":true,"leverage":10}"#);
    assert_eq!(bytes, expected);
}

#[test]
fn update_leverage_larger_values_match_reference_encoder() {
    let action = Action::UpdateLeverage(UpdateLeveragePayload {
        asset: 199,
        is_cross: false,
        leverage: 4_000_000_000,
    });
    let bytes = encode_action(&action).expect("encodable");
    let expected = reference_bytes(
        r#"{"type":"updateLeverage","asset":199,"isCross":false,"leverage":4000000000}"#,
    );
    assert_eq!(bytes, expected);
}

fn one_order() -> OrderRequest {
    OrderRequest {
        asset: 4,
        is_buy: true,
        reduce_only: false,
        limit_px: String::from("29792.0"),
        sz: String::from("0.042"),
        cloid: Some(String::from("0x1234567890abcdef1234567890abcdef")),
        tif: TimeInForce::Gtc,
    }
}

#[test]
fn order_action_matches_reference_encoder() {
    let action = Action::Order(OrderPayload {
        orders: vec![one_order()],
        grouping: OrderGrouping::Na,
        builder: None,
    });
    let bytes = encode_action(&action).expect("encodable");
    let expected = reference_bytes(
        r#"{"type":"order","orders":[{"a":4,"b":true,"p":"29792.0","s":"0.042","r":false,"t":{"limit":{"tif":"Gtc"}},"c":"0x1234567890abcdef1234567890abcdef"}],"grouping":"na"}"#,
    );
    assert_eq!(bytes, expected);
}

#[test]
fn order_action_with_builder_matches_reference_encoder() {
    let mut order = one_order();
    order.cloid = None;
    order.is_buy = false;
    order.reduce_only = true;
    order.tif = TimeInForce::Ioc;
    let action = Action::Order(OrderPayload {
        orders: vec![order],
        grouping: OrderGrouping::PositionTpsl,
        builder: Some(BuilderInfo {
            b: String::from("0xdadcb94d61d4a14e8ad1b94acf888120b7e807ae"),
            f: 10,
        }),
    });
    let bytes = encode_action(&action).expect("encodable");
    let expected = reference_bytes(
        r#"{"type":"order","orders":[{"a":4,"b":false,"p":"29792.0","s":"0.042","r":true,"t":{"limit":{"tif":"Ioc"}}}],"grouping":"positionTpsl","builder":{"b":"0xdadcb94d61d4a14e8ad1b94acf888120b7e807ae","f":10}}"#,
    );
    assert_eq!(bytes, expected);
}

#[test]
fn empty_order_batch_matches_reference_encoder() {
    let action = Action::Order(OrderPayload {
        orders: Vec::new(),
        grouping: OrderGrouping::NormalTpsl,
        builder: None,
    });
    let bytes = encode_action(&action).expect("encodable");
    let expected =
        reference_bytes(r#"{"type":"order","orders":[],"grouping":"normalTpsl"}"#);
    assert_eq!(bytes, expected);
}

#[test]
fn uint_encoding_matches_reference_at_width_boundaries() {
    for n in [
        0u64,
        1,
        127,
        128,
        255,
        256,
        65_535,
        65_536,
        4_294_967_295,
        4_294_967_296,
        u64::MAX,
    ] {
        let mut out: Vec<u8> = Vec::new();
        push_uint(&mut out, n);
        let expected = rmp_serde::to_vec(&n).expect("reference encoder accepts integers");
        assert_eq!(out, expected, "encoding of {n}");
    }
}

#[test]
fn bool_encoding_matches_reference() {
    for b in [true, false] {
        let mut out: Vec<u8> = Vec::new();
        push_bool(&mut out, b);
        let expected = rmp_serde::to_vec(&b).expect("reference encoder accepts booleans");
        assert_eq!(out, expected, "encoding of {b}");
    }
}

#[test]
fn str_encoding_matches_reference_at_length_boundaries() {
    for len in [0usize, 1, 31, 32, 255, 256, 70_000] {
        let s: String = "x".repeat(len);
        let mut out: Vec<u8> = Vec::new();
        push_str(&mut out, s.as_str());
        let expected = rmp_serde::to_vec(s.as_str()).expect("reference encoder accepts strings");
        assert_eq!(out, expected, "encoding of a string of length {len}");
    }
}

#[test]
fn non_ascii_strings_encode_as_their_utf8_bytes() {
    let s = "héllo-héllo";
    let mut out: Vec<u8> = Vec::new();
    push_str(&mut out, s);
    let expected = rmp_serde::to_vec(s).expect("reference encoder accepts strings");
    assert_eq!(out, expected);
}
