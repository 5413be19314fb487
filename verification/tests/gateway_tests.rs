//! Gateway decisions: symbol resolution, cancel selection, close planning,
//! parameter parsing, approval state, and window arithmetic.

use hyperliquid_core::action::TimeInForce;
use hyperliquid_core::exchange::{place_order_with_builder, update_leverage};
use hyperliquid_core::gateway::{
    approval_from_response, builder_info, find_usdc_token, parse_address_hex, parse_side,
    parse_tif, parse_transfer_direction, plan_position_closes, select_cancels, ApprovalState,
    AssetDirectory, AssetEntry, OpenOrder, PositionLite,
};
use hyperliquid_core::market::{candle_window_start, funding_window_start, CandleInterval};
use hyperliquid_core::signing::{Chain, Identity};

fn entry(name: &str, index: usize) -> AssetEntry {
    AssetEntry { name: String::from(name), index }
}

fn directory() -> AssetDirectory {
    AssetDirectory::from_markets(
        vec![entry("BTC", 0), entry("ETH", 1), entry("PURR/USDC", 10000)],
        vec![entry("PURR/USDC", 10001)],
    )
}

#[test]
fn resolve_asset_finds_known_markets_and_later_listings_win() {
    let dir = directory();
    assert_eq!(dir.resolve_asset("BTC"), Some(0));
    assert_eq!(dir.resolve_asset("ETH"), Some(1));
    assert_eq!(dir.resolve_asset("PURR/USDC"), Some(10001));
    assert_eq!(dir.resolve_asset("DOGE"), None);
    assert_eq!(dir.resolve_asset("btc"), None);
}

fn order(coin: &str, oid: u64) -> OpenOrder {
    OpenOrder { coin: String::from(coin), oid }
}

#[test]
fn select_cancels_filters_by_coin_case_insensitively() {
    let dir = directory();
    let orders = vec![order("BTC", 1), order("ETH", 2), order("BTC", 3), order("DOGE", 4)];
    let filter = String::from("btc");
    let cancels = select_cancels(&orders, Some(&filter), &dir);
    let picked: Vec<(usize, u64)> = cancels.iter().map(|c| (c.asset, c.oid)).collect();
    assert_eq!(picked, vec![(0, 1), (0, 3)]);
}

#[test]
fn select_cancels_without_filter_takes_all_known_markets() {
    let dir = directory();
    let orders = vec![order("BTC", 1), order("DOGE", 2), order("ETH", 3)];
    let cancels = select_cancels(&orders, None, &dir);
    let picked: Vec<(usize, u64)> = cancels.iter().map(|c| (c.asset, c.oid)).collect();
    assert_eq!(picked, vec![(0, 1), (1, 3)]);
}

fn position(coin: &str, is_zero: bool, is_negative: bool, size: &str) -> PositionLite {
    PositionLite {
        coin: String::from(coin),
        is_zero,
        is_negative,
        size_abs: String::from(size),
    }
}

#[test]
fn close_plans_cover_nonzero_positions_against_their_side() {
    let dir = directory();
    let positions = vec![
        position("BTC", false, false, "0.5"),
        position("ETH", true, false, "0"),
        position("BTC", false, true, "1.25"),
        position("DOGE", false, false, "7"),
    ];
    let plans = plan_position_closes(&positions, &dir);
    let picked: Vec<(usize, bool, &str)> =
        plans.iter().map(|p| (p.asset, p.is_buy, p.size.as_str())).collect();
    assert_eq!(picked, vec![(0, false, "0.5"), (0, true, "1.25")]);
}

#[test]
fn side_words_parse_case_insensitively() {
    assert_eq!(parse_side("buy"), Some(true));
    assert_eq!(parse_side("Long"), Some(true));
    assert_eq!(parse_side("B"), Some(true));
    assert_eq!(parse_side("sell"), Some(false));
    assert_eq!(parse_side("SHORT"), Some(false));
    assert_eq!(parse_side("s"), Some(false));
    assert_eq!(parse_side("hold"), None);
}

#[test]
fn tif_words_parse_with_gtc_fallback() {
    assert_eq!(parse_tif("Gtc"), TimeInForce::Gtc);
    assert_eq!(parse_tif("IOC"), TimeInForce::Ioc);
    assert_eq!(parse_tif("alo"), TimeInForce::Alo);
    assert_eq!(parse_tif("post_only"), TimeInForce::Alo);
    assert_eq!(parse_tif("post-only"), TimeInForce::Alo);
    assert_eq!(parse_tif("whatever"), TimeInForce::Gtc);
}

#[test]
fn transfer_directions_parse_case_insensitively() {
    assert_eq!(parse_transfer_direction("to_perps"), Some(true));
    assert_eq!(parse_transfer_direction("PERPS"), Some(true));
    assert_eq!(parse_transfer_direction("to_perp"), Some(true));
    assert_eq!(parse_transfer_direction("to_spot"), Some(false));
    assert_eq!(parse_transfer_direction("Spot"), Some(false));
    assert_eq!(parse_transfer_direction("sideways"), None);
}

#[test]
fn approval_is_read_from_the_max_fee_answer() {
    assert!(!approval_from_response("0"));
    assert!(!approval_from_response("0%"));
    assert!(approval_from_response("0.01%"));
    assert!(approval_from_response("10"));
}

#[test]
fn the_nudge_shows_once_and_only_while_unapproved() {
    let mut state = ApprovalState::new();
    assert!(state.should_show_nudge());
    assert!(!state.should_show_nudge());

    let mut approved = ApprovalState::new();
    approved.record_approval(true);
    assert!(!approved.should_show_nudge());
}

#[test]
fn builder_info_carries_the_lowercase_address_and_fee() {
    let info = builder_info();
    assert_eq!(info.b, "0xdadcb94d61d4a14e8ad1b94acf888120b7e807ae");
    assert_eq!(info.f, 10);
}

#[test]
fn candle_windows_cap_the_count_and_clamp_at_the_epoch() {
    let now = 10_000_000_000;
    assert_eq!(
        candle_window_start(now, 100, CandleInterval::OneMinute),
        now - 100 * 60_000
    );
    assert_eq!(
        candle_window_start(now, 9_999_999, CandleInterval::OneMinute),
        now - 5000 * 60_000
    );
    assert_eq!(candle_window_start(1000, 100, CandleInterval::OneDay), 0);
}

#[test]
fn candle_interval_names_parse_to_their_lengths() {
    assert_eq!(CandleInterval::parse("1m").unwrap().millis(), 60_000);
    assert_eq!(CandleInterval::parse("4h").unwrap().millis(), 14_400_000);
    assert_eq!(CandleInterval::parse("1M").unwrap().millis(), 2_592_000_000);
    assert!(CandleInterval::parse("1y").is_none());
    assert!(CandleInterval::parse("1H").is_none());
}

#[test]
fn funding_windows_survive_absurd_lookbacks() {
    let now = 1_700_000_000_000;
    assert_eq!(funding_window_start(now, 24), now - 24 * 3_600_000);
    assert_eq!(funding_window_start(now, u64::MAX), 0);
    assert_eq!(funding_window_start(0, 1), 0);
}

#[test]
fn request_builders_propagate_the_capability_error() {
    let read_only = Identity::read_only([0x42; 20]);
    let leverage = update_leverage(&read_only, 0, true, 10, 1, Chain::Mainnet, None);
    assert!(leverage.is_err());
    let orders = place_order_with_builder(
        &read_only,
        Vec::new(),
        hyperliquid_core::action::OrderGrouping::Na,
        None,
        1,
        Chain::Mainnet,
        None,
    );
    assert!(orders.is_err());
}

#[test]
fn the_usdc_token_is_found_under_either_case_form() {
    let names = vec![String::from("PURR"), String::from("usdc"), String::from("USDC")];
    assert_eq!(find_usdc_token(&names), Some(1));
    let none = vec![String::from("PURR"), String::from("HYPE")];
    assert_eq!(find_usdc_token(&none), None);
}

#[test]
fn addresses_parse_from_either_hex_form() {
    let plain = "dadcB94d61D4A14e8aD1b94Acf888120b7E807aE";
    let prefixed = "0xdadcB94d61D4A14e8aD1b94Acf888120b7E807aE";
    let parsed = parse_address_hex(plain).unwrap();
    assert_eq!(parse_address_hex(prefixed), Some(parsed));
    assert_eq!(parsed[0], 0xda);
    assert_eq!(parsed[19], 0xae);
    assert!(parse_address_hex("0x1234").is_none());
    assert!(parse_address_hex(&"g".repeat(40)).is_none());
}
