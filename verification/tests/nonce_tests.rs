//! The nonce sequencer: strict monotonicity, distinctness, and contiguity
//! when the clock does not move.

use hyperliquid_core::nonce::NonceSequencer;

#[test]
fn nonces_are_strictly_increasing_and_distinct() {
    let mut seq = NonceSequencer::new(1_700_000_000_000);
    let mut issued: Vec<u64> = Vec::new();
    // simulate clock readings that jump forward, stall, and run backwards
    let clocks = [
        1_700_000_000_123,
        1_700_000_000_123,
        1_700_000_000_050,
        1_700_000_001_000,
        1_700_000_001_000,
        0,
        1_700_000_002_000,
    ];
    for now in clocks {
        issued.push(seq.next(now));
    }
    for w in issued.windows(2) {
        assert!(w[1] > w[0], "nonce {} did not exceed {}", w[1], w[0]);
    }
    let mut dedup = issued.clone();
    dedup.sort();
    dedup.dedup();
    assert_eq!(dedup.len(), issued.len());
}

#[test]
fn exhaustive_draws_with_a_stalled_clock_are_contiguous_from_the_start() {
    let n = 100;
    let seed = 500;
    let mut seq = NonceSequencer::new(seed);
    let mut issued: Vec<u64> = Vec::new();
    for _ in 0..n {
        issued.push(seq.next(0));
    }
    let expected: Vec<u64> = (seed + 1..=seed + n).collect();
    assert_eq!(issued, expected);
}

#[test]
fn a_fast_clock_hands_out_its_own_reading() {
    let mut seq = NonceSequencer::new(10);
    assert_eq!(seq.next(1000), 1000);
    assert_eq!(seq.next(2000), 2000);
    assert_eq!(seq.next(2000), 2001);
}
