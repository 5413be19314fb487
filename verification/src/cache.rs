//! The concurrent market-data cache's verified core: TTL-scoped entries for
//! semi-static reference data and user snapshots, a continuously pushed
//! mid-price map, and event-triggered invalidation of user-scoped state.
//!
//! Time is passed in by the caller as milliseconds, so freshness is a pure
//! function of the entry and the clock reading; the I/O that refreshes an
//! entry lives outside this core and hands results back through `store`.

use vstd::prelude::*;

verus! {

/// A cached value and the time it was stored.
pub struct CachedValue<T> {
    pub value: T,
    pub inserted_at: u64,
}

impl<T> CachedValue<T> {
    /// Whether the value is still within its time-to-live at `now`.
    pub open spec fn spec_fresh(&self, now: u64, ttl: u64) -> bool {
        now < self.inserted_at + ttl
    }

    /// Wrap a value with the current time.
    pub fn new(value: T, now_ms: u64) -> (r: Self)
        ensures
            r.value == value,
            r.inserted_at == now_ms,
    {
        CachedValue { value, inserted_at: now_ms }
    }

    /// Whether the value is still within its time-to-live at `now_ms`. A
    /// clock reading before the insertion time counts as no elapsed time.
    pub fn is_fresh(&self, now_ms: u64, ttl_ms: u64) -> (r: bool)
        ensures
            r == self.spec_fresh(now_ms, ttl_ms),
    {
        now_ms < self.inserted_at || now_ms - self.inserted_at < ttl_ms
    }
}

/// One TTL-gated cache slot: `Empty` until a store, then `Fresh` until its
/// time-to-live has passed, then `Stale` until the next store; `invalidate`
/// forces it back to `Empty`.
pub struct TtlEntry<T> {
    cell: Option<CachedValue<T>>,
}

impl<T> TtlEntry<T> {
    /// Whether the slot holds a value at all.
    pub closed spec fn spec_has_value(&self) -> bool {
        self.cell is Some
    }

    /// The held value, meaningful only when the slot holds one.
    pub closed spec fn spec_value(&self) -> T {
        self.cell->0.value
    }

    /// When the held value was stored, meaningful only when the slot holds one.
    pub closed spec fn spec_inserted_at(&self) -> u64 {
        self.cell->0.inserted_at
    }

    /// What a TTL-gated read returns at `now`: the value while it is fresh,
    /// nothing when the slot is empty or stale.
    pub open spec fn spec_read(&self, now: u64, ttl: u64) -> Option<T> {
        if self.spec_has_value() && now < self.spec_inserted_at() + ttl {
            Some(self.spec_value())
        } else {
            None
        }
    }

    /// The slot after a value is stored at `now`.
    pub closed spec fn spec_store(&self, value: T, now: u64) -> TtlEntry<T> {
        TtlEntry { cell: Some(CachedValue { value, inserted_at: now }) }
    }

    /// A store fills the slot with exactly the stored value and time.
    pub proof fn lemma_store(&self, value: T, now: u64)
        ensures
            self.spec_store(value, now).spec_has_value(),
            self.spec_store(value, now).spec_value() == value,
            self.spec_store(value, now).spec_inserted_at() == now,
    {
    }

    /// An empty slot.
    pub fn empty() -> (r: Self)
        ensures
            !r.spec_has_value(),
    {
        TtlEntry { cell: None }
    }

    /// Read the slot under its time-to-live: the value while fresh, nothing
    /// when empty or stale (the caller then fetches and stores).
    pub fn read(&self, now_ms: u64, ttl_ms: u64) -> (r: Option<&T>)
        ensures
            r matches Some(v) ==> self.spec_read(now_ms, ttl_ms) == Some(*v),
            r is Some <==> self.spec_read(now_ms, ttl_ms) is Some,
    {
        match &self.cell {
            Some(c) => {
                if c.is_fresh(now_ms, ttl_ms) {
                    Some(&c.value)
                } else {
                    None
                }
            },
            None => None,
        }
    }

    /// Whether a read at `now` must trigger a refresh.
    pub fn needs_refresh(&self, now_ms: u64, ttl_ms: u64) -> (r: bool)
        ensures
            r == (self.spec_read(now_ms, ttl_ms) is None),
    {
        match &self.cell {
            Some(c) => !c.is_fresh(now_ms, ttl_ms),
            None => true,
        }
    }

    /// The last stored value regardless of age: a refresh failure keeps it,
    /// so readers with a prior value degrade gracefully.
    pub fn read_any(&self) -> (r: Option<&T>)
        ensures
            r matches Some(v) ==> self.spec_has_value() && *v == self.spec_value(),
            r is Some <==> self.spec_has_value(),
    {
        match &self.cell {
            Some(c) => Some(&c.value),
            None => None,
        }
    }

    /// Store a freshly fetched value, replacing whatever was held.
    pub fn store(&mut self, value: T, now_ms: u64)
        ensures
            *final(self) == old(self).spec_store(value, now_ms),
            final(self).spec_has_value(),
            final(self).spec_value() == value,
            final(self).spec_inserted_at() == now_ms,
    {
        self.cell = Some(CachedValue::new(value, now_ms));
    }

    /// Force the slot back to empty.
    pub fn invalidate(&mut self)
        ensures
            !final(self).spec_has_value(),
            forall|now: u64, ttl: u64| final(self).spec_read(now, ttl) is None,
    {
        self.cell = None;
    }
}

/// Fold a refresh attempt's outcome into a slot: a fetched value replaces the
/// entry under the current time; a fetch failure leaves whatever was held
/// untouched, and surfaces as a transport error only when the slot was cold
/// (no prior value to degrade to).
pub fn apply_refresh<T>(entry: &mut TtlEntry<T>, fetched: Result<T, String>, now_ms: u64) -> (r:
    Result<(), crate::errors::CoreError>)
    ensures
        fetched matches Ok(v) ==> *final(entry) == old(entry).spec_store(v, now_ms) && r is Ok,
        fetched matches Err(m) ==> {
            &&& *final(entry) == *old(entry)
            &&& (old(entry).spec_has_value() ==> r is Ok)
            &&& (!old(entry).spec_has_value() ==> (r matches Err(e) && e matches
                crate::errors::CoreError::Transport(msg) && msg == m))
        },
{
    match fetched {
        Ok(v) => {
            entry.store(v, now_ms);
            Ok(())
        },
        Err(m) => {
            if entry.read_any().is_some() {
                Ok(())
            } else {
                Err(crate::errors::CoreError::Transport(m))
            }
        },
    }
}

/// A symbol's current mid price, as pushed by the live feed.
pub struct MidPrice {
    pub coin: String,
    pub price: String,
}

/// The cache's verified state: TTL-gated reference metadata for the two
/// markets, TTL-gated user-scoped snapshots that live events invalidate, and
/// the last pushed mid-price map (no TTL; empty means no live feed).
pub struct MarketDataCache<M, S, O> {
    pub meta: TtlEntry<M>,
    pub spot_meta: TtlEntry<M>,
    pub clearinghouse: TtlEntry<S>,
    pub open_orders: TtlEntry<O>,
    pub mids: Vec<MidPrice>,
}

/// An event delivered by the live feed, reduced to what the cache reacts to.
pub enum CacheEvent {
    Connected,
    Disconnected,
    MidsUpdate(Vec<MidPrice>),
    OrderUpdate,
    Fill,
    Other,
}

impl<M, S, O> MarketDataCache<M, S, O> {
    /// A cache with no data yet: every entry empty, no mid prices.
    pub fn new() -> (r: Self)
        ensures
            !r.meta.spec_has_value(),
            !r.spot_meta.spec_has_value(),
            !r.clearinghouse.spec_has_value(),
            !r.open_orders.spec_has_value(),
            r.mids@ =~= Seq::<MidPrice>::empty(),
    {
        MarketDataCache {
            meta: TtlEntry::empty(),
            spot_meta: TtlEntry::empty(),
            clearinghouse: TtlEntry::empty(),
            open_orders: TtlEntry::empty(),
            mids: Vec::new(),
        }
    }

    /// Clear the user-scoped entries (account snapshot and open orders) so no
    /// consumer can observe pre-event state; reference data and mid prices
    /// are untouched.
    pub fn invalidate_user_data(&mut self)
        ensures
            !final(self).clearinghouse.spec_has_value(),
            !final(self).open_orders.spec_has_value(),
            final(self).meta == old(self).meta,
            final(self).spot_meta == old(self).spot_meta,
            final(self).mids == old(self).mids,
    {
        self.clearinghouse.invalidate();
        self.open_orders.invalidate();
    }

    /// Apply one live-feed event: a mids push replaces the mid-price map; an
    /// order update or fill for the subscribed user clears the user-scoped
    /// entries; connection-state events change nothing here.
    pub fn apply_event(&mut self, event: CacheEvent)
        ensures
            final(self).meta == old(self).meta,
            final(self).spot_meta == old(self).spot_meta,
            event matches CacheEvent::MidsUpdate(m) ==> final(self).mids == m
                && final(self).clearinghouse == old(self).clearinghouse
                && final(self).open_orders == old(self).open_orders,
            event is OrderUpdate || event is Fill ==> !final(self).clearinghouse.spec_has_value()
                && !final(self).open_orders.spec_has_value() && final(self).mids == old(self).mids,
            event is Connected || event is Disconnected || event is Other
                ==> *final(self) == *old(self),
    {
        match event {
            CacheEvent::MidsUpdate(m) => {
                self.mids = m;
            },
            CacheEvent::OrderUpdate => {
                self.invalidate_user_data();
            },
            CacheEvent::Fill => {
                self.invalidate_user_data();
            },
            _ => {},
        }
    }

    /// The current mid price for a symbol: the first entry of the pushed map
    /// that carries it, or nothing when the feed has not supplied it (the
    /// consumer then falls back to an on-demand fetch).
    pub fn mid_for(&self, coin: &str) -> (r: Option<&String>)
        ensures
            r matches Some(p) ==> exists|i: int|
                0 <= i < self.mids@.len() && self.mids@[i].coin@ == coin@ && self.mids@[i].price
                    == *p,
            r is None ==> forall|i: int|
                0 <= i < self.mids@.len() ==> (#[trigger] self.mids@[i]).coin@ != coin@,
    {
        let mut i: usize = 0;
        while i < self.mids.len()
            invariant
                i <= self.mids@.len(),
                forall|k: int| 0 <= k < i ==> (#[trigger] self.mids@[k]).coin@ != coin@,
            decreases self.mids@.len() - i,
        {
            if crate::text::str_eq(self.mids[i].coin.as_str(), coin) {
                return Some(&self.mids[i].price);
            }
            i = i + 1;
        }
        None
    }
}

/// Once the user-scoped entries are invalidated, a read observes no value at
/// all until a store; and a store timestamps the value with its own time. So
/// a read after an invalidation can never return a value timestamped before
/// the invalidation: whatever it returns was stored later.
pub proof fn lemma_no_stale_read_after_invalidation<T>(
    cleared: TtlEntry<T>,
    restored: TtlEntry<T>,
    value: T,
    t_invalidate: u64,
    t_store: u64,
    now: u64,
    ttl: u64,
)
    requires
        !cleared.spec_has_value(),
        restored == cleared.spec_store(value, t_store),
        t_invalidate <= t_store,
    ensures
        cleared.spec_read(now, ttl) is None,
        restored.spec_read(now, ttl) matches Some(v) ==> v == value
            && restored.spec_inserted_at() == t_store >= t_invalidate,
{
}

} // verus!
