use vstd::prelude::*;
use crate::book::{OrderBookSnapshot, SnapV};
use crate::price::{parse_price, scaled_price_of};

verus! {

/// Deployment policy for the margin estimate: position size in whole
/// units and the leverage multiplier. These are configuration, not
/// protocol constants.
#[derive(Clone, Copy, PartialEq, Eq, Structural, Debug)]
pub struct Config {
    pub position_size: u64,
    pub leverage: u64,
}

impl Config {
    /// Policy bounds under which every derivation below stays exact and
    /// free of overflow.
    pub open spec fn valid(self) -> bool {
        &&& 1 <= self.position_size <= 100
        &&& 1 <= self.leverage <= 1000
    }

    /// A policy within the accepted bounds, or `None`.
    pub fn new(position_size: u64, leverage: u64) -> (r: Option<Config>)
        ensures
            match r {
                Some(c) => c.position_size == position_size && c.leverage == leverage
                    && c.valid(),
                None => !(Config { position_size, leverage }).valid(),
            },
    {
        if 1 <= position_size && position_size <= 100 && 1 <= leverage && leverage <= 1000 {
            Some(Config { position_size, leverage })
        } else {
            None
        }
    }
}

impl Default for Config {
    /// One unit of position at tenfold leverage.
    fn default() -> (r: Config)
        ensures
            r.position_size == 1,
            r.leverage == 10,
            r.valid(),
    {
        Config { position_size: 1, leverage: 10 }
    }
}

/// Metrics derived from one snapshot, in exact scaled integers.
///
/// `mid_e9` is the mid-price times 10^9: with best bid and ask scaled by
/// 10^8, the arithmetic mean times 10^9 is `(bid + ask) * 5` exactly.
/// The margin requirement is `mid × position_size / leverage`; it is kept
/// as the exact fraction `margin_num_e9 / (10^9 × leverage)`.
#[derive(Clone, Copy, PartialEq, Eq, Structural, Debug)]
pub struct DerivedMetrics {
    pub mid_e9: u64,
    pub margin_num_e9: u64,
    pub leverage: u64,
}

/// What one inbound text frame came to.
#[derive(PartialEq, Eq, Structural, Debug)]
pub enum FrameOutcome {
    /// Not JSON, no envelope path, or a payload of the wrong shape:
    /// expected noise, dropped silently.
    Ignored,
    /// A well-shaped book with an empty side: a valid transient state
    /// that yields no metrics.
    OneSided,
    /// A well-shaped two-sided book whose best price is not numeric: the
    /// feed broke its own contract; the frame is rejected with a logged
    /// error and the session continues.
    PriceError,
    /// A two-sided book with numeric best prices: derived metrics.
    Metrics(DerivedMetrics),
}

proof fn lemma_mul_le(x: int, y: int, xb: int, yb: int)
    by (nonlinear_arith)
    requires
        0 <= x <= xb,
        0 <= y <= yb,
    ensures
        x * y <= xb * yb,
{
}

/// The outcome a decoded snapshot yields under the given policy.
pub open spec fn snapshot_outcome(snap: SnapV, cfg: Config) -> FrameOutcome {
    if snap.asks.len() == 0 || snap.bids.len() == 0 {
        FrameOutcome::OneSided
    } else {
        match (scaled_price_of(snap.bids[0].px), scaled_price_of(snap.asks[0].px)) {
            (Some(b), Some(a)) => FrameOutcome::Metrics(
                DerivedMetrics {
                    mid_e9: ((b + a) * 5) as u64,
                    margin_num_e9: ((b + a) * 5 * cfg.position_size) as u64,
                    leverage: cfg.leverage,
                },
            ),
            _ => FrameOutcome::PriceError,
        }
    }
}

/// Reads the top of book and computes mid-price and margin requirement.
/// One-sided books yield no metrics; a non-numeric best price is a hard
/// error for the frame.
pub fn derive_metrics(snap: &OrderBookSnapshot, cfg: &Config) -> (r: FrameOutcome)
    requires
        cfg.valid(),
    ensures
        r == snapshot_outcome(snap.model(), *cfg),
{
    if snap.asks.len() == 0 || snap.bids.len() == 0 {
        return FrameOutcome::OneSided;
    }
    let bid = parse_price(snap.bids[0].px.as_str());
    let ask = parse_price(snap.asks[0].px.as_str());
    match (bid, ask) {
        (Some(b), Some(a)) => {
            let mid_e9 = (b + a) * 5;
            proof {
                lemma_mul_le(mid_e9 as int, cfg.position_size as int, 100000000000000000, 100);
            }
            let margin_num_e9 = mid_e9 * cfg.position_size;
            FrameOutcome::Metrics(DerivedMetrics { mid_e9, margin_num_e9, leverage: cfg.leverage })
        },
        _ => FrameOutcome::PriceError,
    }
}

/// Law: for a two-sided book whose best prices parse as `b` and `a`
/// (scaled by 10^8), metrics are produced, the mid-price is the
/// arithmetic mean of the two best prices (`2 × mid_e9 == 10 × (b + a)`,
/// both sides being the mean times 2 × 10^9), and the margin requirement
/// is mid-price × position_size / leverage (`margin_num_e9` over
/// 10^9 × leverage being exactly that fraction).
pub proof fn lemma_metrics_exact(snap: SnapV, cfg: Config, b: int, a: int)
    requires
        cfg.valid(),
        snap.bids.len() > 0,
        snap.asks.len() > 0,
        scaled_price_of(snap.bids[0].px) == Some(b),
        scaled_price_of(snap.asks[0].px) == Some(a),
        0 <= b < 10000000000000000,
        0 <= a < 10000000000000000,
    ensures
        snapshot_outcome(snap, cfg) matches FrameOutcome::Metrics(m) && {
            &&& 2 * m.mid_e9 == 10 * (b + a)
            &&& m.margin_num_e9 == m.mid_e9 * cfg.position_size
            &&& m.leverage == cfg.leverage
        },
{
    lemma_mul_le((b + a) * 5, cfg.position_size as int, 100000000000000000, 100);
}

/// Law: a one-sided book yields no metrics and no error.
pub proof fn lemma_one_sided_no_metrics(snap: SnapV, cfg: Config)
    requires
        snap.asks.len() == 0 || snap.bids.len() == 0,
    ensures
        snapshot_outcome(snap, cfg) == FrameOutcome::OneSided,
{
}

} // verus!
