//! The market-data cache: TTL freshness, read-through refresh decisions,
//! event handling, and user-scoped invalidation.

use hyperliquid_core::cache::{apply_refresh, CacheEvent, CachedValue, MarketDataCache, MidPrice, TtlEntry};

#[test]
fn cached_value_freshness_follows_the_ttl() {
    let v = CachedValue::new(7u32, 0);
    assert!(v.is_fresh(0, 2000));
    assert!(v.is_fresh(1999, 2000));
    assert!(!v.is_fresh(2000, 2000));
    assert!(!v.is_fresh(3000, 2000));
}

#[test]
fn clock_reading_before_insertion_counts_as_fresh() {
    let v = CachedValue::new(7u32, 1000);
    assert!(v.is_fresh(900, 50));
}

#[test]
fn ttl_read_populates_then_hits_then_refreshes() {
    // ttl = 2 seconds: a read at t=0 populates, a read at t=1s returns the
    // value without a refresh, a read at t=3s triggers exactly one refresh.
    let ttl = 2000;
    let mut entry: TtlEntry<u32> = TtlEntry::empty();
    let mut fetches = 0;

    // t = 0: cold cache, the read must fetch
    assert!(entry.read(0, ttl).is_none());
    fetches += 1;
    entry.store(41, 0);

    // t = 1s: fresh, no fetch
    assert_eq!(entry.read(1000, ttl), Some(&41));
    assert!(!entry.needs_refresh(1000, ttl));

    // t = 3s: stale, exactly one more fetch
    assert!(entry.read(3000, ttl).is_none());
    assert!(entry.needs_refresh(3000, ttl));
    fetches += 1;
    entry.store(42, 3000);
    assert_eq!(entry.read(3000, ttl), Some(&42));

    assert_eq!(fetches, 2);
}

#[test]
fn failed_refresh_keeps_the_stale_value() {
    let mut entry: TtlEntry<u32> = TtlEntry::empty();
    entry.store(5, 0);
    assert!(entry.read(10_000, 2000).is_none());
    assert_eq!(entry.read_any(), Some(&5));
}

#[test]
fn invalidation_is_never_followed_by_an_older_read() {
    let mut entry: TtlEntry<u32> = TtlEntry::empty();
    entry.store(5, 5000);
    entry.invalidate();

    // immediately after the invalidation nothing can be read at all
    assert!(entry.read(6000, 60_000).is_none());
    assert!(entry.read_any().is_none());

    // the next value to appear carries the later store time
    entry.store(6, 7000);
    assert_eq!(entry.read(7000, 2000), Some(&6));
}

fn mids(pairs: &[(&str, &str)]) -> Vec<MidPrice> {
    pairs
        .iter()
        .map(|(c, p)| MidPrice { coin: String::from(*c), price: String::from(*p) })
        .collect()
}

#[test]
fn order_events_clear_only_user_scoped_entries() {
    let mut cache: MarketDataCache<u32, u32, u32> = MarketDataCache::new();
    cache.meta.store(1, 0);
    cache.clearinghouse.store(2, 0);
    cache.open_orders.store(3, 0);

    cache.apply_event(CacheEvent::OrderUpdate);
    assert_eq!(cache.meta.read(0, 1000), Some(&1));
    assert!(cache.clearinghouse.read(0, 1000).is_none());
    assert!(cache.open_orders.read(0, 1000).is_none());

    cache.clearinghouse.store(4, 1);
    cache.apply_event(CacheEvent::Fill);
    assert!(cache.clearinghouse.read(1, 1000).is_none());
}

#[test]
fn mids_events_replace_the_price_map() {
    let mut cache: MarketDataCache<u32, u32, u32> = MarketDataCache::new();
    assert!(cache.mid_for("BTC").is_none());

    cache.apply_event(CacheEvent::MidsUpdate(mids(&[("BTC", "29792.0"), ("ETH", "1891.4")])));
    assert_eq!(cache.mid_for("BTC"), Some(&String::from("29792.0")));
    assert_eq!(cache.mid_for("ETH"), Some(&String::from("1891.4")));
    assert!(cache.mid_for("SOL").is_none());

    cache.apply_event(CacheEvent::MidsUpdate(mids(&[("BTC", "29800.0")])));
    assert_eq!(cache.mid_for("BTC"), Some(&String::from("29800.0")));
    assert!(cache.mid_for("ETH").is_none());
}

#[test]
fn connection_events_change_nothing() {
    let mut cache: MarketDataCache<u32, u32, u32> = MarketDataCache::new();
    cache.clearinghouse.store(2, 0);
    cache.apply_event(CacheEvent::Connected);
    cache.apply_event(CacheEvent::Disconnected);
    cache.apply_event(CacheEvent::Other);
    assert_eq!(cache.clearinghouse.read(0, 1000), Some(&2));
}

#[test]
fn explicit_invalidate_user_data_clears_both_user_entries() {
    let mut cache: MarketDataCache<u32, u32, u32> = MarketDataCache::new();
    cache.spot_meta.store(9, 0);
    cache.clearinghouse.store(2, 0);
    cache.open_orders.store(3, 0);
    cache.invalidate_user_data();
    assert!(cache.clearinghouse.read_any().is_none());
    assert!(cache.open_orders.read_any().is_none());
    assert_eq!(cache.spot_meta.read_any(), Some(&9));
}

#[test]
fn refresh_outcomes_follow_the_degradation_policy() {
    let mut entry: TtlEntry<u32> = TtlEntry::empty();

    // a failure on a cold cache surfaces to the caller
    let cold = apply_refresh(&mut entry, Err(String::from("connection reset")), 0);
    assert!(cold.is_err());
    assert!(entry.read_any().is_none());

    // a fetched value populates the entry
    assert!(apply_refresh(&mut entry, Ok(8), 100).is_ok());
    assert_eq!(entry.read(100, 1000), Some(&8));

    // a later failure keeps the previous value and stays quiet
    assert!(apply_refresh(&mut entry, Err(String::from("timeout")), 5000).is_ok());
    assert_eq!(entry.read_any(), Some(&8));
}
