//! Agent-key bootstrap helpers: the date label, key rendering and parsing,
//! and the persisted record rewrite.

use hyperliquid_core::agent::{agent_name_today, key_to_hex, parse_key_hex, wallet_and_address};
use hyperliquid_core::records::agent_env_record;

#[test]
fn agent_label_is_prefix_then_zero_padded_date() {
    assert_eq!(agent_name_today(2026, 10, 9), "hlmcp-100926");
    assert_eq!(agent_name_today(2024, 1, 31), "hlmcp-013124");
    assert_eq!(agent_name_today(2100, 12, 1), "hlmcp-120100");
}

#[test]
fn key_hex_round_trips_through_the_parser() {
    let mut key = [0u8; 32];
    for (i, b) in key.iter_mut().enumerate() {
        *b = (i as u8).wrapping_mul(7).wrapping_add(3);
    }
    let hex = key_to_hex(&key);
    assert_eq!(hex.len(), 64);
    assert_eq!(parse_key_hex(&hex), Some(key));
    let with_prefix = format!("0x{hex}");
    assert_eq!(parse_key_hex(&with_prefix), Some(key));
}

#[test]
fn malformed_key_hex_is_rejected() {
    assert!(parse_key_hex("").is_none());
    assert!(parse_key_hex("0x").is_none());
    assert!(parse_key_hex(&"a".repeat(63)).is_none());
    assert!(parse_key_hex(&"a".repeat(65)).is_none());
    let mut bad = "a".repeat(64);
    bad.replace_range(10..11, "g");
    assert!(parse_key_hex(&bad).is_none());
}

#[test]
fn wallet_and_address_derives_the_known_address() {
    // the address of the scalar 1 is a standard test vector
    let key_hex = format!("{}1", "0".repeat(63));
    let (identity, address) = wallet_and_address(&key_hex).unwrap();
    assert_eq!(identity.address(), address);
    let expected: alloy_primitives::Address =
        "0x7E5F4552091A69125d5DfCb7b8C2659029395Bdf".parse().unwrap();
    assert_eq!(address, expected.0 .0);
}

#[test]
fn rejected_key_material_reports_a_signing_error() {
    let zero_key = "0".repeat(64);
    assert!(wallet_and_address(&zero_key).is_err());
}

fn record_lines(bytes: &[u8]) -> Vec<String> {
    String::from_utf8(bytes.to_vec()).unwrap().lines().map(String::from).collect()
}

#[test]
fn rewriting_an_existing_record_keeps_exactly_one_key_line() {
    let existing = "SOME_OTHER=1\nHYPERLIQUID_AGENT_PRIVATE_KEY=0xold\n  HYPERLIQUID_AGENT_PRIVATE_KEY=0xindented\nANOTHER=two\n";
    let out = agent_env_record(existing.as_bytes(), "abcd");
    let lines = record_lines(&out);
    assert_eq!(
        lines,
        vec![
            String::from("HYPERLIQUID_AGENT_PRIVATE_KEY=0xabcd"),
            String::from("SOME_OTHER=1"),
            String::from("ANOTHER=two"),
        ]
    );
    let key_count = lines
        .iter()
        .filter(|l| l.trim_start().starts_with("HYPERLIQUID_AGENT_PRIVATE_KEY="))
        .count();
    assert_eq!(key_count, 1);
    assert_eq!(*out.last().unwrap(), b'\n');
}

#[test]
fn rewriting_an_empty_record_writes_just_the_key_line() {
    let out = agent_env_record(b"", "ff00");
    assert_eq!(out, b"HYPERLIQUID_AGENT_PRIVATE_KEY=0xff00\n");
}

#[test]
fn unrelated_lines_survive_without_a_trailing_newline() {
    let out = agent_env_record(b"A=1\nB=2", "00");
    assert_eq!(
        record_lines(&out),
        vec![
            String::from("HYPERLIQUID_AGENT_PRIVATE_KEY=0x00"),
            String::from("A=1"),
            String::from("B=2"),
        ]
    );
}

#[test]
fn rewriting_twice_does_not_accumulate_lines() {
    let once = agent_env_record(b"KEEP=yes\n", "aa");
    let twice = agent_env_record(&once, "bb");
    assert_eq!(
        record_lines(&twice),
        vec![String::from("HYPERLIQUID_AGENT_PRIVATE_KEY=0xbb"), String::from("KEEP=yes")]
    );
}
