//! Candle and funding-history window arithmetic: interval names, their
//! lengths, and the overflow-safe start-time computations.

use vstd::prelude::*;

use crate::text::str_eq;

verus! {

/// A candle interval the exchange offers.
#[derive(Clone, Copy, Debug, PartialEq, Eq, Structural)]
pub enum CandleInterval {
    OneMinute,
    ThreeMinutes,
    FiveMinutes,
    FifteenMinutes,
    ThirtyMinutes,
    OneHour,
    TwoHours,
    FourHours,
    EightHours,
    TwelveHours,
    OneDay,
    ThreeDays,
    OneWeek,
    OneMonth,
}

impl CandleInterval {
    /// The interval's length in milliseconds (a month counted as 30 days).
    pub open spec fn spec_millis(self) -> u64 {
        match self {
            CandleInterval::OneMinute => 60_000,
            CandleInterval::ThreeMinutes => 180_000,
            CandleInterval::FiveMinutes => 300_000,
            CandleInterval::FifteenMinutes => 900_000,
            CandleInterval::ThirtyMinutes => 1_800_000,
            CandleInterval::OneHour => 3_600_000,
            CandleInterval::TwoHours => 7_200_000,
            CandleInterval::FourHours => 14_400_000,
            CandleInterval::EightHours => 28_800_000,
            CandleInterval::TwelveHours => 43_200_000,
            CandleInterval::OneDay => 86_400_000,
            CandleInterval::ThreeDays => 259_200_000,
            CandleInterval::OneWeek => 604_800_000,
            CandleInterval::OneMonth => 2_592_000_000,
        }
    }

    /// The interval's length in milliseconds.
    pub fn millis(&self) -> (r: u64)
        ensures
            r == self.spec_millis(),
            0 < r <= 2_592_000_000,
    {
        match self {
            CandleInterval::OneMinute => 60_000,
            CandleInterval::ThreeMinutes => 180_000,
            CandleInterval::FiveMinutes => 300_000,
            CandleInterval::FifteenMinutes => 900_000,
            CandleInterval::ThirtyMinutes => 1_800_000,
            CandleInterval::OneHour => 3_600_000,
            CandleInterval::TwoHours => 7_200_000,
            CandleInterval::FourHours => 14_400_000,
            CandleInterval::EightHours => 28_800_000,
            CandleInterval::TwelveHours => 43_200_000,
            CandleInterval::OneDay => 86_400_000,
            CandleInterval::ThreeDays => 259_200_000,
            CandleInterval::OneWeek => 604_800_000,
            CandleInterval::OneMonth => 2_592_000_000,
        }
    }

    /// The interval a name denotes, matched exactly.
    pub open spec fn spec_parse(s: Seq<char>) -> Option<CandleInterval> {
        if s == "1m"@ {
            Some(CandleInterval::OneMinute)
        } else if s == "3m"@ {
            Some(CandleInterval::ThreeMinutes)
        } else if s == "5m"@ {
            Some(CandleInterval::FiveMinutes)
        } else if s == "15m"@ {
            Some(CandleInterval::FifteenMinutes)
        } else if s == "30m"@ {
            Some(CandleInterval::ThirtyMinutes)
        } else if s == "1h"@ {
            Some(CandleInterval::OneHour)
        } else if s == "2h"@ {
            Some(CandleInterval::TwoHours)
        } else if s == "4h"@ {
            Some(CandleInterval::FourHours)
        } else if s == "8h"@ {
            Some(CandleInterval::EightHours)
        } else if s == "12h"@ {
            Some(CandleInterval::TwelveHours)
        } else if s == "1d"@ {
            Some(CandleInterval::OneDay)
        } else if s == "3d"@ {
            Some(CandleInterval::ThreeDays)
        } else if s == "1w"@ {
            Some(CandleInterval::OneWeek)
        } else if s == "1M"@ {
            Some(CandleInterval::OneMonth)
        } else {
            None
        }
    }

    /// Parse an interval name, matched exactly; unknown names are rejected
    /// back to the caller.
    pub fn parse(s: &str) -> (r: Option<CandleInterval>)
        ensures
            r == CandleInterval::spec_parse(s@),
    {
        if str_eq(s, "1m") {
            Some(CandleInterval::OneMinute)
        } else if str_eq(s, "3m") {
            Some(CandleInterval::ThreeMinutes)
        } else if str_eq(s, "5m") {
            Some(CandleInterval::FiveMinutes)
        } else if str_eq(s, "15m") {
            Some(CandleInterval::FifteenMinutes)
        } else if str_eq(s, "30m") {
            Some(CandleInterval::ThirtyMinutes)
        } else if str_eq(s, "1h") {
            Some(CandleInterval::OneHour)
        } else if str_eq(s, "2h") {
            Some(CandleInterval::TwoHours)
        } else if str_eq(s, "4h") {
            Some(CandleInterval::FourHours)
        } else if str_eq(s, "8h") {
            Some(CandleInterval::EightHours)
        } else if str_eq(s, "12h") {
            Some(CandleInterval::TwelveHours)
        } else if str_eq(s, "1d") {
            Some(CandleInterval::OneDay)
        } else if str_eq(s, "3d") {
            Some(CandleInterval::ThreeDays)
        } else if str_eq(s, "1w") {
            Some(CandleInterval::OneWeek)
        } else if str_eq(s, "1M") {
            Some(CandleInterval::OneMonth)
        } else {
            None
        }
    }
}

/// The start of a candle window ending now: `count` intervals back, capped at
/// 5000 candles, clamped at the epoch.
pub fn candle_window_start(now_ms: u64, count: u64, interval: CandleInterval) -> (r: u64)
    ensures
        ({
            let c = if count < 5000 {
                count as int
            } else {
                5000int
            };
            let span = c * interval.spec_millis();
            r == if span <= now_ms {
                now_ms - span
            } else {
                0int
            }
        }),
{
    let c: u64 = if count < 5000 {
        count
    } else {
        5000
    };
    let m = interval.millis();
    let span = c * m;
    proof {
        assert(c * m <= 5000 * 2_592_000_000) by (nonlinear_arith)
            requires
                c <= 5000,
                0 < m <= 2_592_000_000,
        ;
    }
    if span <= now_ms {
        now_ms - span
    } else {
        0
    }
}

/// The start of a funding-history window `hours` hours before `now_ms`,
/// clamped at the epoch however large the requested lookback is.
pub fn funding_window_start(now_ms: u64, hours: u64) -> (r: u64)
    ensures
        r == if hours * 3_600_000 <= now_ms {
            now_ms - hours * 3_600_000int
        } else {
            0int
        },
{
    let q = now_ms / 3_600_000;
    if hours <= q {
        proof {
            assert(hours * 3_600_000 <= q * 3_600_000) by (nonlinear_arith)
                requires
                    hours <= q,
            ;
            assert(q * 3_600_000 <= now_ms) by (nonlinear_arith)
                requires
                    q == now_ms / 3_600_000,
                    now_ms >= 0,
            ;
        }
        now_ms - hours * 3_600_000
    } else {
        proof {
            assert(hours * 3_600_000 > now_ms) by (nonlinear_arith)
                requires
                    hours > now_ms / 3_600_000,
                    now_ms >= 0,
            ;
        }
        0
    }
}

} // verus!
