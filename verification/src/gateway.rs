//! Gateway-side decisions around the signing core: resolving market symbols
//! to asset indices, selecting which orders a batch cancel covers, planning
//! emergency position closes, parsing order parameters, the builder-fee
//! attribution and its approval state, and the candle-window arithmetic.

use vstd::prelude::*;
use vstd::string::StringSliceAdditionalSpecFns;

use crate::action::{sbytes, BuilderInfo, TimeInForce};
use crate::text::{eq_ignore_ascii_case, str_eq, str_eq_ignore_ascii_case};

verus! {

broadcast use vstd::string::group_string_axioms;

/// The builder fee charged per trade, in tenths of a basis point.
pub const BUILDER_FEE: u64 = 10;

/// The address builder fees are attributed to.
pub fn builder_address() -> (r: &'static str)
    ensures
        r@ == "0xdadcB94d61D4A14e8aD1b94Acf888120b7E807aE"@,
{
    "0xdadcB94d61D4A14e8aD1b94Acf888120b7E807aE"
}

/// The builder-fee attribution carried by order actions: the builder address
/// in lower case, with the fixed fee.
pub fn builder_info() -> (r: BuilderInfo)
    ensures
        r.b@ == "0xdadcb94d61d4a14e8ad1b94acf888120b7e807ae"@,
        r.f == BUILDER_FEE,
{
    let mut b = String::new();
    b.append("0xdadcb94d61d4a14e8ad1b94acf888120b7e807ae");
    proof {
        assert(b@ =~= "0xdadcb94d61d4a14e8ad1b94acf888120b7e807ae"@);
    }
    BuilderInfo { b, f: BUILDER_FEE }
}

/// One market: its symbol and its asset index.
pub struct AssetEntry {
    pub name: String,
    pub index: usize,
}

/// What resolving a symbol against a list of markets yields: the index of the
/// last entry carrying the symbol, as a later listing supersedes an earlier
/// one.
pub open spec fn lookup_asset(entries: Seq<AssetEntry>, name: Seq<char>) -> Option<usize>
    decreases entries.len(),
{
    if entries.len() == 0 {
        None
    } else if entries.last().name@ == name {
        Some(entries.last().index)
    } else {
        lookup_asset(entries.drop_last(), name)
    }
}

/// The symbol-to-asset-index directory, built once at startup from the
/// listed markets.
pub struct AssetDirectory {
    pub entries: Vec<AssetEntry>,
}

impl AssetDirectory {
    /// Build the directory from the derivatives and spot market listings;
    /// spot entries supersede derivative entries of the same symbol.
    pub fn from_markets(perps: Vec<AssetEntry>, mut spots: Vec<AssetEntry>) -> (r: Self)
        ensures
            r.entries@ == perps@ + spots@,
    {
        let mut entries = perps;
        entries.append(&mut spots);
        AssetDirectory { entries }
    }

    /// Resolve a market symbol to its asset index, or nothing for an unknown
    /// market (the caller reports it).
    pub fn resolve_asset(&self, coin: &str) -> (r: Option<usize>)
        ensures
            r == lookup_asset(self.entries@, coin@),
    {
        proof {
            assert(self.entries@.take(self.entries@.len() as int) =~= self.entries@);
        }
        let mut i: usize = self.entries.len();
        while i > 0
            invariant
                i <= self.entries@.len(),
                lookup_asset(self.entries@, coin@) == lookup_asset(
                    self.entries@.take(i as int),
                    coin@,
                ),
            decreases i,
        {
            proof {
                assert(self.entries@.take(i as int).last() == self.entries@[i - 1]);
                assert(self.entries@.take(i as int).drop_last() =~= self.entries@.take(i - 1));
            }
            if str_eq(self.entries[i - 1].name.as_str(), coin) {
                return Some(self.entries[i - 1].index);
            }
            i = i - 1;
        }
        proof {
            assert(self.entries@.take(0) =~= Seq::<AssetEntry>::empty());
        }
        None
    }
}

/// An open resting order, as the cancel planner sees it.
pub struct OpenOrder {
    pub coin: String,
    pub oid: u64,
}

/// One cancel instruction: the asset index and the order id.
pub struct Cancel {
    pub asset: usize,
    pub oid: u64,
}

/// Whether an order passes the symbol filter (none means all pass; symbols
/// compare up to ASCII case).
pub open spec fn passes_filter(o: OpenOrder, filter: Option<Seq<char>>) -> bool {
    match filter {
        None => true,
        Some(c) => eq_ignore_ascii_case(sbytes(o.coin@), sbytes(c)),
    }
}

/// The cancels a batch cancel covers: every open order passing the symbol
/// filter whose market is known, in order.
pub open spec fn spec_select_cancels(
    orders: Seq<OpenOrder>,
    filter: Option<Seq<char>>,
    entries: Seq<AssetEntry>,
) -> Seq<Cancel>
    decreases orders.len(),
{
    if orders.len() == 0 {
        Seq::<Cancel>::empty()
    } else {
        let rest = spec_select_cancels(orders.drop_last(), filter, entries);
        let o = orders.last();
        if passes_filter(o, filter) && lookup_asset(entries, o.coin@) is Some {
            rest + seq![Cancel { asset: lookup_asset(entries, o.coin@)->0, oid: o.oid }]
        } else {
            rest
        }
    }
}

/// The view of an optional symbol filter.
pub open spec fn filter_view(coin: Option<&String>) -> Option<Seq<char>> {
    match coin {
        None => None,
        Some(c) => Some(c@),
    }
}

/// Select the cancels for a batch cancel: the open orders passing the symbol
/// filter whose market the directory knows.
pub fn select_cancels(orders: &Vec<OpenOrder>, coin: Option<&String>, dir: &AssetDirectory) -> (r:
    Vec<Cancel>)
    ensures
        r@ == spec_select_cancels(orders@, filter_view(coin), dir.entries@),
{
    let mut out: Vec<Cancel> = Vec::new();
    let mut i: usize = 0;
    while i < orders.len()
        invariant
            i <= orders@.len(),
            out@ == spec_select_cancels(orders@.take(i as int), filter_view(coin), dir.entries@),
        decreases orders@.len() - i,
    {
        let o = &orders[i];
        let passes = match coin {
            None => true,
            Some(c) => str_eq_ignore_ascii_case(o.coin.as_str(), c.as_str()),
        };
        if passes {
            match dir.resolve_asset(o.coin.as_str()) {
                Some(asset) => {
                    out.push(Cancel { asset, oid: o.oid });
                },
                None => {},
            }
        }
        proof {
            assert(orders@.take(i as int + 1).drop_last() =~= orders@.take(i as int));
            assert(orders@.take(i as int + 1).last() == orders@[i as int]);
            assert(out@ =~= spec_select_cancels(
                orders@.take(i as int + 1),
                filter_view(coin),
                dir.entries@,
            ));
        }
        i = i + 1;
    }
    proof {
        assert(orders@.take(orders@.len() as int) =~= orders@);
    }
    out
}

/// An open position, as the close planners see it: the market symbol, whether
/// the signed size is zero or negative, and its magnitude as a decimal
/// string.
pub struct PositionLite {
    pub coin: String,
    pub is_zero: bool,
    pub is_negative: bool,
    pub size_abs: String,
}

/// One planned reduce-only close: buy back a short, sell off a long, for the
/// position's full magnitude. The caller prices it off the current mid.
pub struct ClosePlan {
    pub coin: String,
    pub asset: usize,
    pub is_buy: bool,
    pub size: String,
}

/// The closes an emergency close covers: every nonzero position whose market
/// is known, in order; shorts are bought back, longs sold.
pub open spec fn spec_plan_closes(positions: Seq<PositionLite>, entries: Seq<AssetEntry>) -> Seq<
    ClosePlan,
>
    decreases positions.len(),
{
    if positions.len() == 0 {
        Seq::<ClosePlan>::empty()
    } else {
        let rest = spec_plan_closes(positions.drop_last(), entries);
        let p = positions.last();
        if !p.is_zero && lookup_asset(entries, p.coin@) is Some {
            rest + seq![
                ClosePlan {
                    coin: p.coin,
                    asset: lookup_asset(entries, p.coin@)->0,
                    is_buy: p.is_negative,
                    size: p.size_abs,
                },
            ]
        } else {
            rest
        }
    }
}

/// Plan an emergency close of every open position: skip flat positions and
/// unknown markets, close each remaining one in full against its side.
pub fn plan_position_closes(positions: &Vec<PositionLite>, dir: &AssetDirectory) -> (r: Vec<
    ClosePlan,
>)
    ensures
        r@ == spec_plan_closes(positions@, dir.entries@),
{
    let mut out: Vec<ClosePlan> = Vec::new();
    let mut i: usize = 0;
    while i < positions.len()
        invariant
            i <= positions@.len(),
            out@ == spec_plan_closes(positions@.take(i as int), dir.entries@),
        decreases positions@.len() - i,
    {
        let p = &positions[i];
        if !p.is_zero {
            match dir.resolve_asset(p.coin.as_str()) {
                Some(asset) => {
                    out.push(
                        ClosePlan {
                            coin: p.coin.clone(),
                            asset,
                            is_buy: p.is_negative,
                            size: p.size_abs.clone(),
                        },
                    );
                },
                None => {},
            }
        }
        proof {
            assert(positions@.take(i as int + 1).drop_last() =~= positions@.take(i as int));
            assert(positions@.take(i as int + 1).last() == positions@[i as int]);
            assert(out@ =~= spec_plan_closes(positions@.take(i as int + 1), dir.entries@));
        }
        i = i + 1;
    }
    proof {
        assert(positions@.take(positions@.len() as int) =~= positions@);
    }
    out
}

/// The index of the first nonzero position in the given market, symbols
/// compared up to ASCII case: the position a single-market close closes.
pub open spec fn spec_find_position(positions: Seq<PositionLite>, coin: Seq<char>) -> Option<int> {
    if exists|i: int|
        0 <= i < positions.len() && !positions[i].is_zero && eq_ignore_ascii_case(
            sbytes(positions[i].coin@),
            sbytes(coin),
        ) {
        Some(
            choose|i: int|
                0 <= i < positions.len() && !positions[i].is_zero && eq_ignore_ascii_case(
                    sbytes(positions[i].coin@),
                    sbytes(coin),
                ) && forall|j: int|
                    0 <= j < i ==> !(!positions[j].is_zero && eq_ignore_ascii_case(
                        sbytes(#[trigger] positions[j].coin@),
                        sbytes(coin),
                    )),
        )
    } else {
        None
    }
}

/// Find the open position a close in the given market acts on: the first
/// nonzero position carrying the symbol, or nothing when the account is flat
/// there.
pub fn find_position(positions: &Vec<PositionLite>, coin: &str) -> (r: Option<usize>)
    ensures
        r matches Some(i) ==> {
            &&& i < positions@.len()
            &&& !positions@[i as int].is_zero
            &&& eq_ignore_ascii_case(sbytes(positions@[i as int].coin@), sbytes(coin@))
            &&& forall|j: int|
                0 <= j < i ==> !(!positions@[j].is_zero && eq_ignore_ascii_case(
                    sbytes(#[trigger] positions@[j].coin@),
                    sbytes(coin@),
                ))
        },
        r is None ==> forall|j: int|
            0 <= j < positions@.len() ==> !(!positions@[j].is_zero && eq_ignore_ascii_case(
                sbytes(#[trigger] positions@[j].coin@),
                sbytes(coin@),
            )),
{
    let mut i: usize = 0;
    while i < positions.len()
        invariant
            i <= positions@.len(),
            forall|j: int|
                0 <= j < i ==> !(!positions@[j].is_zero && eq_ignore_ascii_case(
                    sbytes(#[trigger] positions@[j].coin@),
                    sbytes(coin@),
                )),
        decreases positions@.len() - i,
    {
        let p = &positions[i];
        if !p.is_zero && str_eq_ignore_ascii_case(p.coin.as_str(), coin) {
            return Some(i);
        }
        i = i + 1;
    }
    None
}

/// Parse an order side: buy-like words affirm, sell-like words deny, case
/// folded; anything else is rejected back to the caller.
pub fn parse_side(side: &str) -> (r: Option<bool>)
    ensures
        r == Some(true) <==> (eq_ignore_ascii_case(sbytes(side@), sbytes("buy"@))
            || eq_ignore_ascii_case(sbytes(side@), sbytes("b"@)) || eq_ignore_ascii_case(
            sbytes(side@),
            sbytes("long"@),
        )),
        r == Some(false) <==> (!(r == Some(true)) && (eq_ignore_ascii_case(
            sbytes(side@),
            sbytes("sell"@),
        ) || eq_ignore_ascii_case(sbytes(side@), sbytes("s"@)) || eq_ignore_ascii_case(
            sbytes(side@),
            sbytes("short"@),
        ))),
{
    if str_eq_ignore_ascii_case(side, "buy") || str_eq_ignore_ascii_case(side, "b")
        || str_eq_ignore_ascii_case(side, "long") {
        Some(true)
    } else if str_eq_ignore_ascii_case(side, "sell") || str_eq_ignore_ascii_case(side, "s")
        || str_eq_ignore_ascii_case(side, "short") {
        Some(false)
    } else {
        None
    }
}

/// The time-in-force a word names, case folded; anything unrecognized falls
/// back to good-till-cancel.
pub open spec fn spec_parse_tif(s: Seq<char>) -> TimeInForce {
    if eq_ignore_ascii_case(sbytes(s), sbytes("gtc"@)) {
        TimeInForce::Gtc
    } else if eq_ignore_ascii_case(sbytes(s), sbytes("ioc"@)) {
        TimeInForce::Ioc
    } else if eq_ignore_ascii_case(sbytes(s), sbytes("alo"@)) || eq_ignore_ascii_case(
        sbytes(s),
        sbytes("post_only"@),
    ) || eq_ignore_ascii_case(sbytes(s), sbytes("post-only"@)) {
        TimeInForce::Alo
    } else {
        TimeInForce::Gtc
    }
}

/// Parse a time-in-force word, case folded; anything unrecognized falls back
/// to good-till-cancel.
pub fn parse_tif(s: &str) -> (r: TimeInForce)
    ensures
        r == spec_parse_tif(s@),
{
    if str_eq_ignore_ascii_case(s, "gtc") {
        TimeInForce::Gtc
    } else if str_eq_ignore_ascii_case(s, "ioc") {
        TimeInForce::Ioc
    } else if str_eq_ignore_ascii_case(s, "alo") || str_eq_ignore_ascii_case(s, "post_only")
        || str_eq_ignore_ascii_case(s, "post-only") {
        TimeInForce::Alo
    } else {
        TimeInForce::Gtc
    }
}

/// Parse a transfer direction: towards the derivatives account (`true`) or
/// towards spot (`false`), case folded; anything else is rejected.
pub fn parse_transfer_direction(s: &str) -> (r: Option<bool>)
    ensures
        r == Some(true) <==> (eq_ignore_ascii_case(sbytes(s@), sbytes("to_perps"@))
            || eq_ignore_ascii_case(sbytes(s@), sbytes("perps"@)) || eq_ignore_ascii_case(
            sbytes(s@),
            sbytes("to_perp"@),
        )),
        r == Some(false) <==> (!(r == Some(true)) && (eq_ignore_ascii_case(
            sbytes(s@),
            sbytes("to_spot"@),
        ) || eq_ignore_ascii_case(sbytes(s@), sbytes("spot"@)))),
{
    if str_eq_ignore_ascii_case(s, "to_perps") || str_eq_ignore_ascii_case(s, "perps")
        || str_eq_ignore_ascii_case(s, "to_perp") {
        Some(true)
    } else if str_eq_ignore_ascii_case(s, "to_spot") || str_eq_ignore_ascii_case(s, "spot") {
        Some(false)
    } else {
        None
    }
}

/// The index of the first token named `USDC` (either case form the listing
/// uses), the token spot/derivatives transfers move.
pub fn find_usdc_token(names: &Vec<String>) -> (r: Option<usize>)
    ensures
        r matches Some(i) ==> {
            &&& i < names@.len()
            &&& (names@[i as int]@ == "USDC"@ || names@[i as int]@ == "usdc"@)
            &&& forall|j: int|
                0 <= j < i ==> (#[trigger] names@[j])@ != "USDC"@ && names@[j]@ != "usdc"@
        },
        r is None ==> forall|j: int|
            0 <= j < names@.len() ==> (#[trigger] names@[j])@ != "USDC"@ && names@[j]@ != "usdc"@,
{
    let mut i: usize = 0;
    while i < names.len()
        invariant
            i <= names@.len(),
            forall|j: int|
                0 <= j < i ==> (#[trigger] names@[j])@ != "USDC"@ && names@[j]@ != "usdc"@,
        decreases names@.len() - i,
    {
        if str_eq(names[i].as_str(), "USDC") || str_eq(names[i].as_str(), "usdc") {
            return Some(i);
        }
        i = i + 1;
    }
    None
}

/// Whether a string is exactly 40 hexadecimal digits.
pub open spec fn is_hex_address(s: Seq<char>) -> bool {
    s.len() == 40 && forall|i: int| 0 <= i < 40 ==> crate::bytes::hex_val(#[trigger] s[i]) is Some
}

/// The address bytes named by 40 hex digits: each byte from its two digits.
pub open spec fn hex_address_bytes(s: Seq<char>) -> Seq<u8>
    recommends
        is_hex_address(s),
{
    Seq::new(
        20,
        |i: int|
            (crate::bytes::hex_val(s[2 * i])->0 * 16 + crate::bytes::hex_val(s[2 * i + 1])->0)
                as u8,
    )
}

/// The address a string names: 40 hex digits, with or without a `0x` prefix;
/// anything else names no address.
pub open spec fn hex_address_of(s: Seq<char>) -> Option<Seq<u8>> {
    if is_hex_address(s) {
        Some(hex_address_bytes(s))
    } else if s.len() == 42 && s.take(2) == "0x"@ && is_hex_address(s.skip(2)) {
        Some(hex_address_bytes(s.skip(2)))
    } else {
        None
    }
}

/// Parse a 20-byte address from 40 hex digits, either case, with or without a
/// `0x` prefix. Returns exactly the bytes the string names, and nothing when
/// it names no address.
pub fn parse_address_hex(s: &str) -> (r: Option<[u8; 20]>)
    requires
        s.is_ascii(),
    ensures
        r matches Some(a) ==> hex_address_of(s@) == Some(a@),
        r is Some <==> hex_address_of(s@) is Some,
{
    let b = s.as_bytes();
    proof {
        reveal_strlit("0x");
    }
    let (off, t): (usize, Ghost<Seq<char>>) = if b.len() == 42 && b[0] == 48 && b[1] == 120 {
        proof {
            assert(s@[0] == '0' && s@[1] == 'x');
            assert(s@.take(2) =~= "0x"@);
        }
        (2, Ghost(s@.skip(2)))
    } else {
        (0, Ghost(s@))
    };
    if b.len() - off != 40 {
        proof {
            if off == 2 {
                assert(t@.len() != 40);
            } else {
                assert(s@.len() != 40);
                if s@.len() == 42 && s@.take(2) == "0x"@ {
                    assert(s@.take(2)[0] == '0' && s@.take(2)[1] == 'x');
                    assert(s@[0] == '0' && s@[1] == 'x');
                    assert(b@[0] == 48 && b@[1] == 120);
                    assert(false);
                }
            }
        }
        return None;
    }
    proof {
        if off == 0 {
            assert(s@.skip(0) =~= s@);
        }
    }
    let mut addr = [0u8; 20];
    let mut i: usize = 0;
    while i < 20
        invariant
            i <= 20,
            off == 0 || off == 2,
            off + 40 == b@.len(),
            b@ == s.spec_bytes(),
            s.is_ascii(),
            t@ == s@.skip(off as int),
            t@.len() == 40,
            addr@.len() == 20,
            forall|k: int| 0 <= k < 2 * i ==> crate::bytes::hex_val(#[trigger] t@[k]) is Some,
            forall|k: int|
                0 <= k < i ==> addr@[k] == (crate::bytes::hex_val(t@[2 * k])->0 * 16
                    + crate::bytes::hex_val(t@[2 * k + 1])->0) as u8,
        decreases 20 - i,
    {
        proof {
            assert(b@[(off + 2 * i) as int] == s@[(off + 2 * i) as int] as u8);
            assert(b@[(off + 2 * i + 1) as int] == s@[(off + 2 * i + 1) as int] as u8);
            assert(s@[(off + 2 * i) as int] as u8 <= 127);
            assert(s@[(off + 2 * i + 1) as int] as u8 <= 127);
        }
        let hi = match crate::bytes::hex_val_exec(b[off + 2 * i]) {
            Some(v) => v,
            None => {
                proof {
                    assert(t@[2 * i as int] == s@[(off + 2 * i) as int]);
                    assert(crate::bytes::hex_val(t@[2 * i as int]) is None);
                    if off == 0 && s@.len() == 42 && s@.take(2) == "0x"@ {
                        assert(s@.take(2)[0] == '0' && s@.take(2)[1] == 'x');
                        assert(s@[0] == '0' && s@[1] == 'x');
                        assert(b@[0] == 48 && b@[1] == 120);
                    }
                }
                return None;
            },
        };
        let lo = match crate::bytes::hex_val_exec(b[off + 2 * i + 1]) {
            Some(v) => v,
            None => {
                proof {
                    assert(t@[2 * i as int + 1] == s@[(off + 2 * i + 1) as int]);
                    assert(crate::bytes::hex_val(t@[2 * i as int + 1]) is None);
                    if off == 0 && s@.len() == 42 && s@.take(2) == "0x"@ {
                        assert(s@.take(2)[0] == '0' && s@.take(2)[1] == 'x');
                        assert(s@[0] == '0' && s@[1] == 'x');
                        assert(b@[0] == 48 && b@[1] == 120);
                    }
                }
                return None;
            },
        };
        addr[i] = hi * 16 + lo;
        proof {
            assert(t@[2 * i as int] == s@[(off + 2 * i) as int]);
            assert(t@[2 * i as int + 1] == s@[(off + 2 * i + 1) as int]);
        }
        i = i + 1;
    }
    proof {
        assert(is_hex_address(t@));
        assert(addr@ =~= hex_address_bytes(t@));
        if off == 2 {
            assert(s@.take(2) =~= "0x"@);
            assert(s@.len() == 42);
            assert(!is_hex_address(s@));
            assert(hex_address_of(s@) == Some(hex_address_bytes(s@.skip(2))));
        }
    }
    Some(addr)
}

/// Whether a max-builder-fee response reports the fee as approved: any answer
/// other than the two zero forms.
pub fn approval_from_response(max_fee: &str) -> (r: bool)
    ensures
        r == (max_fee@ != "0"@ && max_fee@ != "0%"@),
{
    !(str_eq(max_fee, "0") || str_eq(max_fee, "0%"))
}

/// The query address: the durable identity's address when configured, else
/// the agent's (account queries then cover only the agent).
pub fn select_query_address(main: Option<[u8; 20]>, agent: Option<[u8; 20]>) -> (r: Option<
    [u8; 20],
>)
    ensures
        main is Some ==> r == main,
        main is None ==> r == agent,
{
    match main {
        Some(a) => Some(a),
        None => agent,
    }
}

/// The builder-fee approval state, and the one-time nudge shown to users who
/// have not approved it.
pub struct ApprovalState {
    pub approved: bool,
    pub nudge_shown: bool,
}

impl ApprovalState {
    /// The state at startup: nothing approved, no nudge shown yet.
    pub fn new() -> (r: Self)
        ensures
            !r.approved,
            !r.nudge_shown,
    {
        ApprovalState { approved: false, nudge_shown: false }
    }

    /// Record what the approval check reported.
    pub fn record_approval(&mut self, approved: bool)
        ensures
            final(self).approved == approved,
            final(self).nudge_shown == old(self).nudge_shown,
    {
        self.approved = approved;
    }

    /// Whether to append the builder-fee nudge to a trade result: only while
    /// the fee is unapproved, and at most once per process.
    pub fn should_show_nudge(&mut self) -> (r: bool)
        ensures
            r == (!old(self).approved && !old(self).nudge_shown),
            final(self).approved == old(self).approved,
            final(self).nudge_shown == (old(self).nudge_shown || !old(self).approved),
    {
        if !self.approved {
            let r = !self.nudge_shown;
            self.nudge_shown = true;
            r
        } else {
            false
        }
    }
}

} // verus!
