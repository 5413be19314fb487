//! The action data model and its canonical, key-order-stable binary encoding.
//!
//! Trading actions (orders, leverage changes) are serialized once per signing
//! operation into a MessagePack map whose field names and ordering must be
//! byte-exact: the remote verifier recomputes the same hash from the wire
//! bytes. Approval actions (builder fee, agent) are not serialized here; they
//! are signed as full typed-data documents instead.

use vstd::prelude::*;
use vstd::string::StringSliceAdditionalSpecFns;
use vstd::utf8::encode_utf8;

use crate::msgpack::{
    fits_len32, mp_array_header, mp_bool, mp_map_header, mp_str, mp_uint, push_array_header,
    push_bool, push_map_header, push_str, push_uint,
};

verus! {

broadcast use vstd::string::group_string_axioms;

/// The UTF-8 bytes of a string value.
pub open spec fn sbytes(s: Seq<char>) -> Seq<u8> {
    encode_utf8(s)
}

/// An ASCII string has as many UTF-8 bytes as characters.
pub proof fn lemma_ascii_len(s: Seq<char>)
    requires
        vstd::utf8::is_ascii_chars(s),
    ensures
        sbytes(s).len() == s.len(),
{
    vstd::utf8::is_ascii_chars_encode_utf8(s);
}

/// How long a resting order may stay on the book.
#[derive(Clone, Copy, Debug, PartialEq, Eq, Structural)]
pub enum TimeInForce {
    Gtc,
    Ioc,
    Alo,
}

impl TimeInForce {
    /// The wire name of this time-in-force.
    pub open spec fn label(self) -> Seq<char> {
        match self {
            TimeInForce::Gtc => "Gtc"@,
            TimeInForce::Ioc => "Ioc"@,
            TimeInForce::Alo => "Alo"@,
        }
    }

    /// The wire name of this time-in-force.
    pub fn as_str(&self) -> (r: &'static str)
        ensures
            r@ == self.label(),
    {
        match self {
            TimeInForce::Gtc => "Gtc",
            TimeInForce::Ioc => "Ioc",
            TimeInForce::Alo => "Alo",
        }
    }
}

/// How the orders of a batch are grouped on the exchange.
#[derive(Clone, Copy, Debug, PartialEq, Eq, Structural)]
pub enum OrderGrouping {
    Na,
    NormalTpsl,
    PositionTpsl,
}

impl OrderGrouping {
    /// The wire name of this grouping.
    pub open spec fn label(self) -> Seq<char> {
        match self {
            OrderGrouping::Na => "na"@,
            OrderGrouping::NormalTpsl => "normalTpsl"@,
            OrderGrouping::PositionTpsl => "positionTpsl"@,
        }
    }

    /// The wire name of this grouping.
    pub fn as_str(&self) -> (r: &'static str)
        ensures
            r@ == self.label(),
    {
        match self {
            OrderGrouping::Na => "na",
            OrderGrouping::NormalTpsl => "normalTpsl",
            OrderGrouping::PositionTpsl => "positionTpsl",
        }
    }
}

/// One order of a batch. Prices and sizes are normalized decimal strings; the
/// client order id, when present, is a `0x`-prefixed hex string.
pub struct OrderRequest {
    pub asset: usize,
    pub is_buy: bool,
    pub reduce_only: bool,
    pub limit_px: String,
    pub sz: String,
    pub cloid: Option<String>,
    pub tif: TimeInForce,
}

/// The builder-fee attribution carried by an order action: the builder's
/// lowercase address and its fee in tenths of a basis point.
#[derive(Debug)]
pub struct BuilderInfo {
    pub b: String,
    pub f: u64,
}

/// The payload of an order action.
pub struct OrderPayload {
    pub orders: Vec<OrderRequest>,
    pub grouping: OrderGrouping,
    pub builder: Option<BuilderInfo>,
}

/// The payload of a leverage update.
pub struct UpdateLeveragePayload {
    pub asset: usize,
    pub is_cross: bool,
    pub leverage: u32,
}

/// A structured instruction destined for the exchange. `Order` and
/// `UpdateLeverage` are trading actions signed through the implicit
/// (phantom-agent) scheme; the two approval variants are identity-level
/// actions signed as full typed-data documents.
pub enum Action {
    Order(OrderPayload),
    UpdateLeverage(UpdateLeveragePayload),
    ApproveBuilderFee(crate::typed_data::ApproveBuilderFee),
    ApproveAgent(crate::typed_data::ApproveAgent),
}

impl Action {
    /// Whether this action is signed through the implicit (hash-based) scheme.
    pub open spec fn spec_implicit(self) -> bool {
        self is Order || self is UpdateLeverage
    }

    /// Whether this action is signed through the implicit (hash-based) scheme.
    pub fn implicit(&self) -> (r: bool)
        ensures
            r == self.spec_implicit(),
    {
        match self {
            Action::Order(_) => true,
            Action::UpdateLeverage(_) => true,
            _ => false,
        }
    }
}


/// The byte lengths of the fixed wire keywords: every one is its character
/// count, and all fit the wire format's limits.
proof fn lemma_keys_fit()
    ensures
        sbytes("a"@).len() == 1,
        sbytes("b"@).len() == 1,
        sbytes("p"@).len() == 1,
        sbytes("s"@).len() == 1,
        sbytes("r"@).len() == 1,
        sbytes("t"@).len() == 1,
        sbytes("c"@).len() == 1,
        sbytes("f"@).len() == 1,
        sbytes("limit"@).len() == 5,
        sbytes("tif"@).len() == 3,
        sbytes("Gtc"@).len() == 3,
        sbytes("Ioc"@).len() == 3,
        sbytes("Alo"@).len() == 3,
        sbytes("type"@).len() == 4,
        sbytes("order"@).len() == 5,
        sbytes("orders"@).len() == 6,
        sbytes("grouping"@).len() == 8,
        sbytes("builder"@).len() == 7,
        sbytes("updateLeverage"@).len() == 14,
        sbytes("asset"@).len() == 5,
        sbytes("isCross"@).len() == 7,
        sbytes("leverage"@).len() == 8,
        sbytes("na"@).len() == 2,
        sbytes("normalTpsl"@).len() == 10,
        sbytes("positionTpsl"@).len() == 12,
{
    reveal_strlit("a");
    reveal_strlit("b");
    reveal_strlit("p");
    reveal_strlit("s");
    reveal_strlit("r");
    reveal_strlit("t");
    reveal_strlit("c");
    reveal_strlit("f");
    reveal_strlit("limit");
    reveal_strlit("tif");
    reveal_strlit("Gtc");
    reveal_strlit("Ioc");
    reveal_strlit("Alo");
    reveal_strlit("type");
    reveal_strlit("order");
    reveal_strlit("orders");
    reveal_strlit("grouping");
    reveal_strlit("builder");
    reveal_strlit("updateLeverage");
    reveal_strlit("asset");
    reveal_strlit("isCross");
    reveal_strlit("leverage");
    reveal_strlit("na");
    reveal_strlit("normalTpsl");
    reveal_strlit("positionTpsl");
    assert(vstd::utf8::is_ascii_chars("a"@));
    lemma_ascii_len("a"@);
    assert(vstd::utf8::is_ascii_chars("b"@));
    lemma_ascii_len("b"@);
    assert(vstd::utf8::is_ascii_chars("p"@));
    lemma_ascii_len("p"@);
    assert(vstd::utf8::is_ascii_chars("s"@));
    lemma_ascii_len("s"@);
    assert(vstd::utf8::is_ascii_chars("r"@));
    lemma_ascii_len("r"@);
    assert(vstd::utf8::is_ascii_chars("t"@));
    lemma_ascii_len("t"@);
    assert(vstd::utf8::is_ascii_chars("c"@));
    lemma_ascii_len("c"@);
    assert(vstd::utf8::is_ascii_chars("f"@));
    lemma_ascii_len("f"@);
    assert(vstd::utf8::is_ascii_chars("limit"@));
    lemma_ascii_len("limit"@);
    assert(vstd::utf8::is_ascii_chars("tif"@));
    lemma_ascii_len("tif"@);
    assert(vstd::utf8::is_ascii_chars("Gtc"@));
    lemma_ascii_len("Gtc"@);
    assert(vstd::utf8::is_ascii_chars("Ioc"@));
    lemma_ascii_len("Ioc"@);
    assert(vstd::utf8::is_ascii_chars("Alo"@));
    lemma_ascii_len("Alo"@);
    assert(vstd::utf8::is_ascii_chars("type"@));
    lemma_ascii_len("type"@);
    assert(vstd::utf8::is_ascii_chars("order"@));
    lemma_ascii_len("order"@);
    assert(vstd::utf8::is_ascii_chars("orders"@));
    lemma_ascii_len("orders"@);
    assert(vstd::utf8::is_ascii_chars("grouping"@));
    lemma_ascii_len("grouping"@);
    assert(vstd::utf8::is_ascii_chars("builder"@));
    lemma_ascii_len("builder"@);
    assert(vstd::utf8::is_ascii_chars("updateLeverage"@));
    lemma_ascii_len("updateLeverage"@);
    assert(vstd::utf8::is_ascii_chars("asset"@));
    lemma_ascii_len("asset"@);
    assert(vstd::utf8::is_ascii_chars("isCross"@));
    lemma_ascii_len("isCross"@);
    assert(vstd::utf8::is_ascii_chars("leverage"@));
    lemma_ascii_len("leverage"@);
    assert(vstd::utf8::is_ascii_chars("na"@));
    lemma_ascii_len("na"@);
    assert(vstd::utf8::is_ascii_chars("normalTpsl"@));
    lemma_ascii_len("normalTpsl"@);
    assert(vstd::utf8::is_ascii_chars("positionTpsl"@));
    lemma_ascii_len("positionTpsl"@);
}

/// The encoding of one order: a map under the exchange's single-letter field
/// names, in the fixed order `a, b, p, s, r, t` with `c` appended only when a
/// client order id is present.
pub open spec fn enc_order(o: OrderRequest) -> Seq<u8> {
    let n: nat = if o.cloid is Some {
        7nat
    } else {
        6nat
    };
    let base = mp_map_header(n) + mp_str(sbytes("a"@)) + mp_uint(o.asset as u64) + mp_str(
        sbytes("b"@),
    ) + mp_bool(o.is_buy) + mp_str(sbytes("p"@)) + mp_str(sbytes(o.limit_px@)) + mp_str(
        sbytes("s"@),
    ) + mp_str(sbytes(o.sz@)) + mp_str(sbytes("r"@)) + mp_bool(o.reduce_only) + mp_str(
        sbytes("t"@),
    ) + mp_map_header(1) + mp_str(sbytes("limit"@)) + mp_map_header(1) + mp_str(sbytes("tif"@))
        + mp_str(sbytes(o.tif.label()));
    match o.cloid {
        Some(c) => base + mp_str(sbytes("c"@)) + mp_str(sbytes(c@)),
        None => base,
    }
}

/// The concatenated encodings of a batch of orders.
pub open spec fn enc_orders(os: Seq<OrderRequest>) -> Seq<u8>
    decreases os.len(),
{
    if os.len() == 0 {
        Seq::<u8>::empty()
    } else {
        enc_orders(os.drop_last()) + enc_order(os.last())
    }
}

/// The encoding of the builder-fee attribution.
pub open spec fn enc_builder(b: BuilderInfo) -> Seq<u8> {
    mp_map_header(2) + mp_str(sbytes("b"@)) + mp_str(sbytes(b.b@)) + mp_str(sbytes("f"@)) + mp_uint(
        b.f,
    )
}

/// The canonical encoding of a trading action: a map that carries the action
/// kind under `type` first, then the payload fields in declaration order.
pub open spec fn enc_action(a: Action) -> Seq<u8>
    recommends
        a.spec_implicit(),
{
    match a {
        Action::Order(p) => {
            let n: nat = if p.builder is Some {
                4nat
            } else {
                3nat
            };
            let base = mp_map_header(n) + mp_str(sbytes("type"@)) + mp_str(sbytes("order"@))
                + mp_str(sbytes("orders"@)) + mp_array_header(p.orders@.len()) + enc_orders(
                p.orders@,
            ) + mp_str(sbytes("grouping"@)) + mp_str(sbytes(p.grouping.label()));
            match p.builder {
                Some(b) => base + mp_str(sbytes("builder"@)) + enc_builder(b),
                None => base,
            }
        },
        Action::UpdateLeverage(p) => mp_map_header(4) + mp_str(sbytes("type"@)) + mp_str(
            sbytes("updateLeverage"@),
        ) + mp_str(sbytes("asset"@)) + mp_uint(p.asset as u64) + mp_str(sbytes("isCross"@))
            + mp_bool(p.is_cross) + mp_str(sbytes("leverage"@)) + mp_uint(p.leverage as u64),
        _ => Seq::<u8>::empty(),
    }
}


/// The canonical leverage encoding is injective: two leverage payloads that
/// encode to the same bytes agree in every field, so changing any single
/// field changes the encoded byte string.
#[verifier::rlimit(100)]
pub proof fn lemma_enc_update_leverage_injective(
    p1: UpdateLeveragePayload,
    p2: UpdateLeveragePayload,
)
    requires
        enc_action(Action::UpdateLeverage(p1)) == enc_action(Action::UpdateLeverage(p2)),
    ensures
        p1.asset == p2.asset,
        p1.is_cross == p2.is_cross,
        p1.leverage == p2.leverage,
{
    lemma_keys_fit();
    let e1 = enc_action(Action::UpdateLeverage(p1));
    let e2 = enc_action(Action::UpdateLeverage(p2));
    let pre = mp_map_header(4) + mp_str(sbytes("type"@)) + mp_str(sbytes("updateLeverage"@))
        + mp_str(sbytes("asset"@));
    let k3 = mp_str(sbytes("isCross"@));
    let k4 = mp_str(sbytes("leverage"@));
    let a1 = mp_uint(p1.asset as u64);
    let a2 = mp_uint(p2.asset as u64);
    let b1 = mp_bool(p1.is_cross);
    let b2 = mp_bool(p2.is_cross);
    let l1 = mp_uint(p1.leverage as u64);
    let l2 = mp_uint(p2.leverage as u64);
    let tail1 = a1 + k3 + b1 + k4 + l1;
    let tail2 = a2 + k3 + b2 + k4 + l2;
    assert(e1 =~= pre + tail1);
    assert(e2 =~= pre + tail2);
    assert(tail1 =~= (pre + tail1).skip(pre.len() as int));
    assert(tail2 =~= (pre + tail2).skip(pre.len() as int));
    assert(tail1 == tail2);

    // the asset integers open both tails; their first bytes agree, so the
    // encodings are in the same width class and cover the same span
    crate::msgpack::lemma_mp_uint_shape(p1.asset as u64);
    crate::msgpack::lemma_mp_uint_shape(p2.asset as u64);
    assert(tail1[0] == a1[0] && tail2[0] == a2[0]);
    assert(a1.len() == a2.len());
    assert(a1 =~= tail1.take(a1.len() as int));
    assert(a2 =~= tail2.take(a2.len() as int));
    crate::msgpack::lemma_mp_uint_injective(p1.asset as u64, p2.asset as u64);

    // behind the asset both tails continue with the same fixed key, the
    // boolean, the other fixed key, and the leverage integer
    let rest1 = tail1.skip(a1.len() as int);
    let rest2 = tail2.skip(a2.len() as int);
    assert(rest1 == rest2);
    assert(k3.len() == 8 && k4.len() == 9);
    assert(rest1 =~= k3 + b1 + k4 + l1);
    assert(rest2 =~= k3 + b2 + k4 + l2);
    assert(rest1[8] == b1[0] && rest2[8] == b2[0]);
    assert(p1.is_cross == p2.is_cross);
    assert(l1 =~= rest1.skip(18));
    assert(l2 =~= rest2.skip(18));
    crate::msgpack::lemma_mp_uint_injective(p1.leverage as u64, p2.leverage as u64);
}

/// Whether every string of the order fits the wire format's length limits.
pub open spec fn order_encodable(o: OrderRequest) -> bool {
    &&& fits_len32(sbytes(o.limit_px@).len())
    &&& fits_len32(sbytes(o.sz@).len())
    &&& (o.cloid matches Some(c) ==> fits_len32(sbytes(c@).len()))
}

/// Whether the action can be canonically encoded: every string and every
/// collection fits the wire format's length limits.
pub open spec fn action_encodable(a: Action) -> bool {
    match a {
        Action::Order(p) => {
            &&& fits_len32(p.orders@.len())
            &&& (forall|i: int| 0 <= i < p.orders@.len() ==> order_encodable(#[trigger] p.orders@[i]))
            &&& (p.builder matches Some(b) ==> fits_len32(sbytes(b.b@).len()))
        },
        Action::UpdateLeverage(_) => true,
        _ => false,
    }
}

/// Whether a string's UTF-8 form fits the wire format's length limit.
fn str_fits(s: &String) -> (r: bool)
    ensures
        r == fits_len32(sbytes(s@).len()),
{
    let b = s.as_str().as_bytes();
    (b.len() as u64) < 0x1_0000_0000
}

/// Append the canonical encoding of one order to `out`.
#[verifier::rlimit(100)]
fn push_order(out: &mut Vec<u8>, o: &OrderRequest)
    requires
        order_encodable(*o),
    ensures
        final(out)@ == old(out)@ + enc_order(*o),
{
    proof {
        lemma_keys_fit();
    }
    let ghost hdr: nat = if o.cloid is Some {
        7nat
    } else {
        6nat
    };
    let n: usize = if o.cloid.is_some() {
        7
    } else {
        6
    };
    push_map_header(out, n);
    push_str(out, "a");
    assert(out@ =~= old(out)@ + (mp_map_header(hdr) + mp_str(sbytes("a"@))));
    push_uint(out, o.asset as u64);
    assert(out@ =~= old(out)@ + (mp_map_header(hdr) + mp_str(sbytes("a"@)) + mp_uint(
        o.asset as u64,
    )));
    push_str(out, "b");
    assert(out@ =~= old(out)@ + (mp_map_header(hdr) + mp_str(sbytes("a"@)) + mp_uint(
        o.asset as u64,
    ) + mp_str(sbytes("b"@))));
    push_bool(out, o.is_buy);
    assert(out@ =~= old(out)@ + (mp_map_header(hdr) + mp_str(sbytes("a"@)) + mp_uint(
        o.asset as u64,
    ) + mp_str(sbytes("b"@)) + mp_bool(o.is_buy)));
    push_str(out, "p");
    assert(out@ =~= old(out)@ + (mp_map_header(hdr) + mp_str(sbytes("a"@)) + mp_uint(
        o.asset as u64,
    ) + mp_str(sbytes("b"@)) + mp_bool(o.is_buy) + mp_str(sbytes("p"@))));
    push_str(out, o.limit_px.as_str());
    assert(out@ =~= old(out)@ + (mp_map_header(hdr) + mp_str(sbytes("a"@)) + mp_uint(
        o.asset as u64,
    ) + mp_str(sbytes("b"@)) + mp_bool(o.is_buy) + mp_str(sbytes("p"@)) + mp_str(
        sbytes(o.limit_px@),
    )));
    push_str(out, "s");
    assert(out@ =~= old(out)@ + (mp_map_header(hdr) + mp_str(sbytes("a"@)) + mp_uint(
        o.asset as u64,
    ) + mp_str(sbytes("b"@)) + mp_bool(o.is_buy) + mp_str(sbytes("p"@)) + mp_str(
        sbytes(o.limit_px@),
    ) + mp_str(sbytes("s"@))));
    push_str(out, o.sz.as_str());
    assert(out@ =~= old(out)@ + (mp_map_header(hdr) + mp_str(sbytes("a"@)) + mp_uint(
        o.asset as u64,
    ) + mp_str(sbytes("b"@)) + mp_bool(o.is_buy) + mp_str(sbytes("p"@)) + mp_str(
        sbytes(o.limit_px@),
    ) + mp_str(sbytes("s"@)) + mp_str(sbytes(o.sz@))));
    push_str(out, "r");
    assert(out@ =~= old(out)@ + (mp_map_header(hdr) + mp_str(sbytes("a"@)) + mp_uint(
        o.asset as u64,
    ) + mp_str(sbytes("b"@)) + mp_bool(o.is_buy) + mp_str(sbytes("p"@)) + mp_str(
        sbytes(o.limit_px@),
    ) + mp_str(sbytes("s"@)) + mp_str(sbytes(o.sz@)) + mp_str(sbytes("r"@))));
    push_bool(out, o.reduce_only);
    assert(out@ =~= old(out)@ + (mp_map_header(hdr) + mp_str(sbytes("a"@)) + mp_uint(
        o.asset as u64,
    ) + mp_str(sbytes("b"@)) + mp_bool(o.is_buy) + mp_str(sbytes("p"@)) + mp_str(
        sbytes(o.limit_px@),
    ) + mp_str(sbytes("s"@)) + mp_str(sbytes(o.sz@)) + mp_str(sbytes("r"@)) + mp_bool(
        o.reduce_only,
    )));
    push_str(out, "t");
    assert(out@ =~= old(out)@ + (mp_map_header(hdr) + mp_str(sbytes("a"@)) + mp_uint(
        o.asset as u64,
    ) + mp_str(sbytes("b"@)) + mp_bool(o.is_buy) + mp_str(sbytes("p"@)) + mp_str(
        sbytes(o.limit_px@),
    ) + mp_str(sbytes("s"@)) + mp_str(sbytes(o.sz@)) + mp_str(sbytes("r"@)) + mp_bool(
        o.reduce_only,
    ) + mp_str(sbytes("t"@))));
    push_map_header(out, 1);
    assert(out@ =~= old(out)@ + (mp_map_header(hdr) + mp_str(sbytes("a"@)) + mp_uint(
        o.asset as u64,
    ) + mp_str(sbytes("b"@)) + mp_bool(o.is_buy) + mp_str(sbytes("p"@)) + mp_str(
        sbytes(o.limit_px@),
    ) + mp_str(sbytes("s"@)) + mp_str(sbytes(o.sz@)) + mp_str(sbytes("r"@)) + mp_bool(
        o.reduce_only,
    ) + mp_str(sbytes("t"@)) + mp_map_header(1)));
    push_str(out, "limit");
    assert(out@ =~= old(out)@ + (mp_map_header(hdr) + mp_str(sbytes("a"@)) + mp_uint(
        o.asset as u64,
    ) + mp_str(sbytes("b"@)) + mp_bool(o.is_buy) + mp_str(sbytes("p"@)) + mp_str(
        sbytes(o.limit_px@),
    ) + mp_str(sbytes("s"@)) + mp_str(sbytes(o.sz@)) + mp_str(sbytes("r"@)) + mp_bool(
        o.reduce_only,
    ) + mp_str(sbytes("t"@)) + mp_map_header(1) + mp_str(sbytes("limit"@))));
    push_map_header(out, 1);
    assert(out@ =~= old(out)@ + (mp_map_header(hdr) + mp_str(sbytes("a"@)) + mp_uint(
        o.asset as u64,
    ) + mp_str(sbytes("b"@)) + mp_bool(o.is_buy) + mp_str(sbytes("p"@)) + mp_str(
        sbytes(o.limit_px@),
    ) + mp_str(sbytes("s"@)) + mp_str(sbytes(o.sz@)) + mp_str(sbytes("r"@)) + mp_bool(
        o.reduce_only,
    ) + mp_str(sbytes("t"@)) + mp_map_header(1) + mp_str(sbytes("limit"@)) + mp_map_header(1)));
    push_str(out, "tif");
    assert(out@ =~= old(out)@ + (mp_map_header(hdr) + mp_str(sbytes("a"@)) + mp_uint(
        o.asset as u64,
    ) + mp_str(sbytes("b"@)) + mp_bool(o.is_buy) + mp_str(sbytes("p"@)) + mp_str(
        sbytes(o.limit_px@),
    ) + mp_str(sbytes("s"@)) + mp_str(sbytes(o.sz@)) + mp_str(sbytes("r"@)) + mp_bool(
        o.reduce_only,
    ) + mp_str(sbytes("t"@)) + mp_map_header(1) + mp_str(sbytes("limit"@)) + mp_map_header(1)
        + mp_str(sbytes("tif"@))));
    push_str(out, o.tif.as_str());
    assert(out@ =~= old(out)@ + (mp_map_header(hdr) + mp_str(sbytes("a"@)) + mp_uint(
        o.asset as u64,
    ) + mp_str(sbytes("b"@)) + mp_bool(o.is_buy) + mp_str(sbytes("p"@)) + mp_str(
        sbytes(o.limit_px@),
    ) + mp_str(sbytes("s"@)) + mp_str(sbytes(o.sz@)) + mp_str(sbytes("r"@)) + mp_bool(
        o.reduce_only,
    ) + mp_str(sbytes("t"@)) + mp_map_header(1) + mp_str(sbytes("limit"@)) + mp_map_header(1)
        + mp_str(sbytes("tif"@)) + mp_str(sbytes(o.tif.label()))));
    match &o.cloid {
        Some(c) => {
            push_str(out, "c");
            let ghost base = mp_map_header(hdr) + mp_str(sbytes("a"@)) + mp_uint(o.asset as u64)
                + mp_str(sbytes("b"@)) + mp_bool(o.is_buy) + mp_str(sbytes("p"@)) + mp_str(
                sbytes(o.limit_px@),
            ) + mp_str(sbytes("s"@)) + mp_str(sbytes(o.sz@)) + mp_str(sbytes("r"@)) + mp_bool(
                o.reduce_only,
            ) + mp_str(sbytes("t"@)) + mp_map_header(1) + mp_str(sbytes("limit"@)) + mp_map_header(
                1,
            ) + mp_str(sbytes("tif"@)) + mp_str(sbytes(o.tif.label()));
            assert(out@ =~= old(out)@ + (base + mp_str(sbytes("c"@))));
            push_str(out, c.as_str());
            assert(out@ =~= old(out)@ + (base + mp_str(sbytes("c"@)) + mp_str(sbytes(c@))));
        },
        None => {},
    }
    assert(final(out)@ =~= old(out)@ + enc_order(*o));
}

/// Append the canonical encoding of a trading action to `out`.
#[verifier::rlimit(100)]
#[verifier::loop_isolation(false)]
fn push_action(out: &mut Vec<u8>, a: &Action)
    requires
        a.spec_implicit(),
        action_encodable(*a),
    ensures
        final(out)@ == old(out)@ + enc_action(*a),
{
    proof {
        lemma_keys_fit();
    }
    match a {
        Action::Order(p) => {
            let ghost hdr: nat = if p.builder is Some {
                4nat
            } else {
                3nat
            };
            let n: usize = if p.builder.is_some() {
                4
            } else {
                3
            };
            push_map_header(out, n);
            push_str(out, "type");
            assert(out@ =~= old(out)@ + (mp_map_header(hdr) + mp_str(sbytes("type"@))));
            push_str(out, "order");
            assert(out@ =~= old(out)@ + (mp_map_header(hdr) + mp_str(sbytes("type"@)) + mp_str(
                sbytes("order"@),
            )));
            push_str(out, "orders");
            assert(out@ =~= old(out)@ + (mp_map_header(hdr) + mp_str(sbytes("type"@)) + mp_str(
                sbytes("order"@),
            ) + mp_str(sbytes("orders"@))));
            push_array_header(out, p.orders.len());
            let ghost head = mp_map_header(hdr) + mp_str(sbytes("type"@)) + mp_str(
                sbytes("order"@),
            ) + mp_str(sbytes("orders"@)) + mp_array_header(p.orders@.len());
            assert(out@ =~= old(out)@ + head);
            let ghost mid = out@;
            let mut i: usize = 0;
            while i < p.orders.len()
                invariant
                    i <= p.orders@.len(),
                    out@ == mid + enc_orders(p.orders@.take(i as int)),
                decreases p.orders@.len() - i,
            {
                push_order(out, &p.orders[i]);
                proof {
                    assert(p.orders@.take((i + 1) as int).drop_last() =~= p.orders@.take(i as int));
                    assert(out@ =~= mid + enc_orders(p.orders@.take((i + 1) as int)));
                }
                i = i + 1;
            }
            proof {
                assert(p.orders@.take(p.orders@.len() as int) =~= p.orders@);
                assert(out@ =~= old(out)@ + (head + enc_orders(p.orders@)));
            }
            push_str(out, "grouping");
            assert(out@ =~= old(out)@ + (head + enc_orders(p.orders@) + mp_str(
                sbytes("grouping"@),
            )));
            push_str(out, p.grouping.as_str());
            assert(out@ =~= old(out)@ + (head + enc_orders(p.orders@) + mp_str(
                sbytes("grouping"@),
            ) + mp_str(sbytes(p.grouping.label()))));
            let ghost base = head + enc_orders(p.orders@) + mp_str(sbytes("grouping"@)) + mp_str(
                sbytes(p.grouping.label()),
            );
            match &p.builder {
                Some(b) => {
                    push_str(out, "builder");
                    assert(out@ =~= old(out)@ + (base + mp_str(sbytes("builder"@))));
                    push_map_header(out, 2);
                    assert(out@ =~= old(out)@ + (base + mp_str(sbytes("builder"@))
                        + mp_map_header(2)));
                    push_str(out, "b");
                    assert(out@ =~= old(out)@ + (base + mp_str(sbytes("builder"@))
                        + mp_map_header(2) + mp_str(sbytes("b"@))));
                    push_str(out, b.b.as_str());
                    assert(out@ =~= old(out)@ + (base + mp_str(sbytes("builder"@))
                        + mp_map_header(2) + mp_str(sbytes("b"@)) + mp_str(sbytes(b.b@))));
                    push_str(out, "f");
                    assert(out@ =~= old(out)@ + (base + mp_str(sbytes("builder"@))
                        + mp_map_header(2) + mp_str(sbytes("b"@)) + mp_str(sbytes(b.b@)) + mp_str(
                        sbytes("f"@),
                    )));
                    push_uint(out, b.f);
                    assert(out@ =~= old(out)@ + (base + mp_str(sbytes("builder"@))
                        + mp_map_header(2) + mp_str(sbytes("b"@)) + mp_str(sbytes(b.b@)) + mp_str(
                        sbytes("f"@),
                    ) + mp_uint(b.f)));
                    assert(mp_map_header(2) + mp_str(sbytes("b"@)) + mp_str(sbytes(b.b@)) + mp_str(
                        sbytes("f"@),
                    ) + mp_uint(b.f) =~= enc_builder(*b));
                    assert(base + mp_str(sbytes("builder"@)) + mp_map_header(2) + mp_str(
                        sbytes("b"@),
                    ) + mp_str(sbytes(b.b@)) + mp_str(sbytes("f"@)) + mp_uint(b.f) =~= base
                        + mp_str(sbytes("builder"@)) + enc_builder(*b));
                },
                None => {},
            }
            assert(final(out)@ =~= old(out)@ + enc_action(*a));
        },
        Action::UpdateLeverage(p) => {
            push_map_header(out, 4);
            push_str(out, "type");
            assert(out@ =~= old(out)@ + (mp_map_header(4) + mp_str(sbytes("type"@))));
            push_str(out, "updateLeverage");
            assert(out@ =~= old(out)@ + (mp_map_header(4) + mp_str(sbytes("type"@)) + mp_str(
                sbytes("updateLeverage"@),
            )));
            push_str(out, "asset");
            assert(out@ =~= old(out)@ + (mp_map_header(4) + mp_str(sbytes("type"@)) + mp_str(
                sbytes("updateLeverage"@),
            ) + mp_str(sbytes("asset"@))));
            push_uint(out, p.asset as u64);
            assert(out@ =~= old(out)@ + (mp_map_header(4) + mp_str(sbytes("type"@)) + mp_str(
                sbytes("updateLeverage"@),
            ) + mp_str(sbytes("asset"@)) + mp_uint(p.asset as u64)));
            push_str(out, "isCross");
            assert(out@ =~= old(out)@ + (mp_map_header(4) + mp_str(sbytes("type"@)) + mp_str(
                sbytes("updateLeverage"@),
            ) + mp_str(sbytes("asset"@)) + mp_uint(p.asset as u64) + mp_str(sbytes("isCross"@))));
            push_bool(out, p.is_cross);
            assert(out@ =~= old(out)@ + (mp_map_header(4) + mp_str(sbytes("type"@)) + mp_str(
                sbytes("updateLeverage"@),
            ) + mp_str(sbytes("asset"@)) + mp_uint(p.asset as u64) + mp_str(sbytes("isCross"@))
                + mp_bool(p.is_cross)));
            push_str(out, "leverage");
            assert(out@ =~= old(out)@ + (mp_map_header(4) + mp_str(sbytes("type"@)) + mp_str(
                sbytes("updateLeverage"@),
            ) + mp_str(sbytes("asset"@)) + mp_uint(p.asset as u64) + mp_str(sbytes("isCross"@))
                + mp_bool(p.is_cross) + mp_str(sbytes("leverage"@))));
            push_uint(out, p.leverage as u64);
            assert(out@ =~= old(out)@ + (mp_map_header(4) + mp_str(sbytes("type"@)) + mp_str(
                sbytes("updateLeverage"@),
            ) + mp_str(sbytes("asset"@)) + mp_uint(p.asset as u64) + mp_str(sbytes("isCross"@))
                + mp_bool(p.is_cross) + mp_str(sbytes("leverage"@)) + mp_uint(p.leverage as u64)));
            assert(final(out)@ =~= old(out)@ + enc_action(*a));
        },
        _ => {
            proof {
                assert(false);
            }
        },
    }
}

/// Whether the action can be canonically encoded.
#[verifier::loop_isolation(false)]
pub fn check_encodable(a: &Action) -> (r: bool)
    requires
        a.spec_implicit(),
    ensures
        r == action_encodable(*a),
{
    match a {
        Action::Order(p) => {
            if !((p.orders.len() as u64) < 0x1_0000_0000) {
                return false;
            }
            let mut i: usize = 0;
            while i < p.orders.len()
                invariant
                    i <= p.orders@.len(),
                    forall|k: int| 0 <= k < i ==> order_encodable(#[trigger] p.orders@[k]),
                decreases p.orders@.len() - i,
            {
                let o = &p.orders[i];
                let cloid_ok = match &o.cloid {
                    Some(c) => str_fits(c),
                    None => true,
                };
                if !(str_fits(&o.limit_px) && str_fits(&o.sz) && cloid_ok) {
                    assert(!order_encodable(p.orders@[i as int]));
                    return false;
                }
                i = i + 1;
            }
            match &p.builder {
                Some(b) => str_fits(&b.b),
                None => true,
            }
        },
        Action::UpdateLeverage(_) => true,
        _ => false,
    }
}

/// Canonically encode a trading action, or report that a field exceeds the
/// wire format's limits.
pub fn encode_action(a: &Action) -> (r: Result<Vec<u8>, crate::errors::CoreError>)
    requires
        a.spec_implicit(),
    ensures
        r matches Ok(v) ==> v@ == enc_action(*a) && action_encodable(*a),
        r is Err <==> !action_encodable(*a),
        r matches Err(e) ==> e is Serialization,
{
    if !check_encodable(a) {
        return Err(crate::errors::CoreError::Serialization);
    }
    let mut out: Vec<u8> = Vec::new();
    push_action(&mut out, a);
    Ok(out)
}

} // verus!
