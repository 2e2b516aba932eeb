//! Trades: their life cycle (active, then completed or cancelled, never back),
//! the price and risk checks a trade must pass, profit and loss, and the
//! consensus price of several oracles.
use vstd::prelude::*;
use vstd::relations::sorted_by;
use crate::error::{ErrorCode, TYieldResult};
use crate::math::bps::{abs_diff, deviation_bps, ratio_bps};
use crate::math::constants::PERCENTAGE_PRECISION_U64;
use crate::math::int_spec::{lemma_trunc_div_i64_fits, trunc_div};
use crate::math::safe_math::SafeMath;
use crate::pubkey::Pubkey;
use crate::state::oracle::{scale_ok, scaled_to, OraclePrice};
use crate::text::{spec_utf8_lossy, utf8_lossy};
use crate::clock::unix_timestamp_now;

verus! {

/// Where a trade is in its life cycle. Each status is one bit of
/// `Trade::status`.
#[derive(Clone, Copy, PartialEq, Eq, Structural, Debug)]
pub enum TradeStatus {
    Active,
    Completed,
    Cancelled,
}

/// The side of a trade. Each side is one bit of `Trade::trade_type`.
#[derive(Clone, Copy, PartialEq, Eq, Structural, Debug)]
pub enum TradeType {
    Buy,
    Sell,
}

/// The outcome of a trade. Each outcome is one bit of `Trade::result`.
#[derive(Clone, Copy, PartialEq, Eq, Structural, Debug)]
pub enum TradeResult {
    Success,
    Failed,
    Pending,
}

/// The byte that stands for a status.
pub open spec fn status_byte(s: TradeStatus) -> u8 {
    match s {
        TradeStatus::Active => 1,
        TradeStatus::Completed => 2,
        TradeStatus::Cancelled => 4,
    }
}

/// The byte that stands for a side.
pub open spec fn type_byte(t: TradeType) -> u8 {
    match t {
        TradeType::Buy => 1,
        TradeType::Sell => 2,
    }
}

/// The byte that stands for an outcome.
pub open spec fn result_byte(r: TradeResult) -> u8 {
    match r {
        TradeResult::Success => 1,
        TradeResult::Failed => 2,
        TradeResult::Pending => 4,
    }
}

/// The status a byte stands for; an unknown byte reads as `Active`.
pub open spec fn status_from_byte(b: u8) -> TradeStatus {
    if b == 2 {
        TradeStatus::Completed
    } else if b == 4 {
        TradeStatus::Cancelled
    } else {
        TradeStatus::Active
    }
}

/// The side a byte stands for; an unknown byte reads as `Buy`.
pub open spec fn type_from_byte(b: u8) -> TradeType {
    if b == 2 {
        TradeType::Sell
    } else {
        TradeType::Buy
    }
}

/// The outcome a byte stands for; an unknown byte reads as `Pending`.
pub open spec fn result_from_byte(b: u8) -> TradeResult {
    if b == 1 {
        TradeResult::Success
    } else if b == 2 {
        TradeResult::Failed
    } else {
        TradeResult::Pending
    }
}

/// The status changes a trade may make: from active to completed or
/// cancelled, and from completed to cancelled. Nothing returns to active and
/// a cancelled trade stays cancelled.
pub open spec fn transition_allowed(from: TradeStatus, to: TradeStatus) -> bool {
    (from == TradeStatus::Active && to == TradeStatus::Completed) || (from == TradeStatus::Active
        && to == TradeStatus::Cancelled) || (from == TradeStatus::Completed && to
        == TradeStatus::Cancelled)
}

/// A trade's status only moves forward: nothing returns to active, and a
/// cancelled trade never changes status again.
pub proof fn lemma_status_moves_forward(from: TradeStatus, to: TradeStatus)
    ensures
        !transition_allowed(from, TradeStatus::Active),
        !transition_allowed(TradeStatus::Cancelled, to),
        transition_allowed(from, to) ==> from != to,
{
}

impl TradeStatus {
    /// The byte that stands for this status (1, 2 or 4).
    pub fn bits(&self) -> (r: u8)
        ensures
            r == status_byte(*self),
    {
        match self {
            TradeStatus::Active => 1,
            TradeStatus::Completed => 2,
            TradeStatus::Cancelled => 4,
        }
    }
}

impl TradeType {
    /// The byte that stands for this side (1 or 2).
    pub fn bits(&self) -> (r: u8)
        ensures
            r == type_byte(*self),
    {
        match self {
            TradeType::Buy => 1,
            TradeType::Sell => 2,
        }
    }
}

impl TradeResult {
    /// The byte that stands for this outcome (1, 2 or 4).
    pub fn bits(&self) -> (r: u8)
        ensures
            r == result_byte(*self),
    {
        match self {
            TradeResult::Success => 1,
            TradeResult::Failed => 2,
            TradeResult::Pending => 4,
        }
    }
}

/// Limits, circuit breaker and oracle requirements of secure trade execution.
#[derive(Clone, Copy, PartialEq, Eq, Structural, Debug)]
pub struct TradeSecurityConfig {
    pub max_position_size: u64,
    pub max_price: u64,
    pub min_price: u64,
    /// Largest move from the entry price, in basis points, before the breaker trips.
    pub circuit_breaker_threshold_bps: u64,
    /// Largest distance from the oracle consensus, in basis points.
    pub max_oracle_deviation_bps: u64,
    pub min_oracle_consensus: u8,
    pub max_price_age_sec: u32,
    /// Move from the entry price, in basis points, that pauses trading.
    pub emergency_pause_threshold: u64,
}

impl Default for TradeSecurityConfig {
    fn default() -> (r: TradeSecurityConfig)
        ensures
            r == (TradeSecurityConfig {
                max_position_size: 1_000_000_000,
                max_price: 1_000_000_000_000,
                min_price: 1,
                circuit_breaker_threshold_bps: 5000,
                max_oracle_deviation_bps: 1000,
                min_oracle_consensus: 2,
                max_price_age_sec: 300,
                emergency_pause_threshold: 10000,
            }),
    {
        TradeSecurityConfig {
            max_position_size: 1_000_000_000,
            max_price: 1_000_000_000_000,
            min_price: 1,
            circuit_breaker_threshold_bps: 5000,
            max_oracle_deviation_bps: 1000,
            min_oracle_consensus: 2,
            max_price_age_sec: 300,
            emergency_pause_threshold: 10000,
        }
    }
}

/// The price several oracles agree on.
#[derive(Clone, Copy, PartialEq, Eq, Structural, Debug)]
pub struct OracleConsensus {
    pub consensus_price: u64,
    pub consensus_count: u8,
    pub max_deviation_bps: u64,
    pub is_valid: bool,
}

impl Default for OracleConsensus {
    fn default() -> (r: OracleConsensus)
        ensures
            r == (OracleConsensus {
                consensus_price: 0,
                consensus_count: 0,
                max_deviation_bps: 0,
                is_valid: false,
            }),
    {
        OracleConsensus { consensus_price: 0, consensus_count: 0, max_deviation_bps: 0, is_valid: false }
    }
}

/// The non-zero prices among oracle readings, in their order.
pub open spec fn positive_prices(s: Seq<OraclePrice>) -> Seq<u64>
    decreases s.len(),
{
    if s.len() == 0 {
        Seq::empty()
    } else if s.last().price > 0 {
        positive_prices(s.drop_last()).push(s.last().price)
    } else {
        positive_prices(s.drop_last())
    }
}

/// The order prices are sorted in.
pub open spec fn price_leq() -> spec_fn(u64, u64) -> bool {
    |a: u64, b: u64| a <= b
}

/// The median of a sorted list: the middle element, or the mean (rounded
/// down) of the two middle elements.
pub open spec fn median_of(sorted: Seq<u64>) -> int {
    let mid = (sorted.len() / 2) as int;
    if sorted.len() % 2 == 0 {
        (sorted[mid - 1] + sorted[mid]) / 2
    } else {
        sorted[mid] as int
    }
}

/// The largest distance of the prices from `m`, in basis points of `m`;
/// `MathError` when one of them overflows.
pub open spec fn max_deviation_of(prices: Seq<u64>, m: u64) -> Result<u64, ErrorCode>
    decreases prices.len(),
{
    if prices.len() == 0 {
        Ok(0)
    } else {
        match max_deviation_of(prices.drop_last(), m) {
            Err(e) => Err(e),
            Ok(acc) => match ratio_bps(abs_diff(prices.last() as int, m as int), m as int) {
                Err(e) => Err(e),
                Ok(d) => Ok(
                    if d > acc {
                        d
                    } else {
                        acc
                    },
                ),
            },
        }
    }
}

/// Whether the median of the non-zero prices can be computed without
/// panicking: there is at least one, or the two middle ones add up within
/// `u64`.
pub open spec fn consensus_median_ok(oracles: Seq<OraclePrice>, min_consensus: u8) -> bool {
    let valid = positive_prices(oracles);
    let sorted = valid.sort_by(price_leq());
    oracles.len() < min_consensus || valid.len() < min_consensus || (valid.len() > 0 && (
    valid.len() % 2 == 1 || sorted[valid.len() / 2 - 1] + sorted[(valid.len() / 2) as int] <= u64::MAX))
}

/// The consensus of oracle readings: at least `min_consensus` readings and at
/// least that many non-zero prices (`OracleConsensusThresholdNotMet`), the
/// median of the non-zero prices, and every price within `max_deviation_bps`
/// of it (`OracleDeviationTooHigh`).
pub open spec fn consensus_of(oracles: Seq<OraclePrice>, max_deviation_bps: u64, min_consensus: u8) -> Result<
    OracleConsensus,
    ErrorCode,
> {
    let valid = positive_prices(oracles);
    let sorted = valid.sort_by(price_leq());
    let median = median_of(sorted) as u64;
    if oracles.len() < min_consensus || valid.len() < min_consensus {
        Err(ErrorCode::OracleConsensusThresholdNotMet)
    } else {
        match max_deviation_of(valid, median) {
            Err(e) => Err(e),
            Ok(dev) => if dev > max_deviation_bps {
                Err(ErrorCode::OracleDeviationTooHigh)
            } else {
                Ok(
                    OracleConsensus {
                        consensus_price: median,
                        consensus_count: valid.len() as u8,
                        max_deviation_bps: dev,
                        is_valid: true,
                    },
                )
            },
        }
    }
}

/// The maximum deviation of a list does not depend on the order of its
/// elements' bounds: every element's deviation is at most the maximum.
proof fn lemma_max_deviation_perm(a: Seq<u64>, b: Seq<u64>, m: u64)
    requires
        a.to_multiset() == b.to_multiset(),
    ensures
        max_deviation_of(a, m) == max_deviation_of(b, m),
    decreases a.len(),
{
    broadcast use vstd::seq_lib::group_to_multiset_ensures;

    vstd::seq_lib::to_multiset_len(a);
    vstd::seq_lib::to_multiset_len(b);
    if a.len() == 0 {
        assert(b.len() == 0);
    } else {
        let x = a.last();
        assert(a.to_multiset().count(x) > 0);
        assert(b.contains(x));
        let i = choose|i: int| 0 <= i < b.len() && b[i] == x;
        let b2 = b.remove(i);
        assert(a.drop_last().to_multiset() =~= a.to_multiset().remove(x)) by {
            assert(a =~= a.drop_last().push(x));
        }
        lemma_max_deviation_perm(a.drop_last(), b2, m);
        lemma_max_deviation_remove(b, i, m);
    }
}

/// Removing an element and folding it back in gives the same maximum.
proof fn lemma_max_deviation_remove(b: Seq<u64>, i: int, m: u64)
    requires
        0 <= i < b.len(),
    ensures
        max_deviation_of(b, m) == (match max_deviation_of(b.remove(i), m) {
            Err(e) => Err(e),
            Ok(acc) => match ratio_bps(abs_diff(b[i] as int, m as int), m as int) {
                Err(e) => Err(e),
                Ok(d) => Ok(
                    if d > acc {
                        d
                    } else {
                        acc
                    },
                ),
            },
        }),
    decreases b.len(),
{
    if i == b.len() - 1 {
        assert(b.remove(i) =~= b.drop_last());
    } else {
        let c = b.drop_last();
        assert(b.remove(i).drop_last() =~= c.remove(i));
        assert(b.remove(i).last() == b.last());
        lemma_max_deviation_remove(c, i, m);
    }
}

/// The positive prices of a list with one element taken out, and that
/// element's price put back when it is positive, are those of the list.
proof fn lemma_positive_prices_remove(b: Seq<OraclePrice>, i: int)
    requires
        0 <= i < b.len(),
    ensures
        positive_prices(b).to_multiset() == (if b[i].price > 0 {
            positive_prices(b.remove(i)).to_multiset().insert(b[i].price)
        } else {
            positive_prices(b.remove(i)).to_multiset()
        }),
    decreases b.len(),
{
    broadcast use vstd::seq_lib::group_to_multiset_ensures;

    if i == b.len() - 1 {
        assert(b.remove(i) =~= b.drop_last());
    } else {
        let c = b.drop_last();
        assert(b.remove(i).drop_last() =~= c.remove(i));
        assert(b.remove(i).last() == b.last());
        lemma_positive_prices_remove(c, i);
        if b.last().price > 0 {
            assert(positive_prices(b) == positive_prices(c).push(b.last().price));
            assert(positive_prices(b.remove(i)) == positive_prices(c.remove(i)).push(b.last().price));
        } else {
            assert(positive_prices(b) == positive_prices(c));
            assert(positive_prices(b.remove(i)) == positive_prices(c.remove(i)));
        }
    }
}

/// Lists with the same elements have the same positive prices, counted with
/// multiplicity.
proof fn lemma_positive_prices_perm(a: Seq<OraclePrice>, b: Seq<OraclePrice>)
    requires
        a.to_multiset() == b.to_multiset(),
    ensures
        positive_prices(a).to_multiset() == positive_prices(b).to_multiset(),
    decreases a.len(),
{
    broadcast use vstd::seq_lib::group_to_multiset_ensures;

    vstd::seq_lib::to_multiset_len(a);
    vstd::seq_lib::to_multiset_len(b);
    if a.len() == 0 {
        assert(b.len() == 0);
        assert(positive_prices(b) =~= Seq::<u64>::empty());
    } else {
        let x = a.last();
        assert(a.to_multiset().count(x) > 0);
        assert(b.contains(x));
        let i = choose|i: int| 0 <= i < b.len() && b[i] == x;
        let b2 = b.remove(i);
        assert(a.drop_last().to_multiset() =~= a.to_multiset().remove(x)) by {
            assert(a =~= a.drop_last().push(x));
        }
        assert(b2.to_multiset() =~= b.to_multiset().remove(x)) by {
            vstd::seq_lib::to_multiset_remove(b, i);
        }
        lemma_positive_prices_perm(a.drop_last(), b2);
        lemma_positive_prices_remove(b, i);
        if x.price > 0 {
            assert(positive_prices(a) == positive_prices(a.drop_last()).push(x.price));
        } else {
            assert(positive_prices(a) == positive_prices(a.drop_last()));
        }
    }
}

/// The consensus does not depend on the order of the readings: two lists of
/// the same readings, in any order, give the same answer.
pub proof fn lemma_consensus_order_free(
    a: Seq<OraclePrice>,
    b: Seq<OraclePrice>,
    max_deviation_bps: u64,
    min_consensus: u8,
)
    requires
        a.to_multiset() == b.to_multiset(),
    ensures
        consensus_of(a, max_deviation_bps, min_consensus) == consensus_of(
            b,
            max_deviation_bps,
            min_consensus,
        ),
{
    broadcast use vstd::seq_lib::group_to_multiset_ensures;

    let pa = positive_prices(a);
    let pb = positive_prices(b);
    vstd::seq_lib::to_multiset_len(a);
    vstd::seq_lib::to_multiset_len(b);
    lemma_positive_prices_perm(a, b);
    vstd::seq_lib::to_multiset_len(pa);
    vstd::seq_lib::to_multiset_len(pb);
    pa.lemma_sort_by_ensures(price_leq());
    pb.lemma_sort_by_ensures(price_leq());
    vstd::seq_lib::lemma_sorted_unique(pa.sort_by(price_leq()), pb.sort_by(price_leq()), price_leq());
    assert(pa.sort_by(price_leq()) == pb.sort_by(price_leq()));
    let m = median_of(pa.sort_by(price_leq())) as u64;
    lemma_max_deviation_perm(pa, pb, m);
}

/// Sorts prices into ascending order.
fn sort_prices(v: &Vec<u64>) -> (r: Vec<u64>)
    ensures
        r@ == v@.sort_by(price_leq()),
{
    broadcast use vstd::seq_lib::group_to_multiset_ensures;

    let mut out: Vec<u64> = Vec::new();
    let mut i: usize = 0;
    while i < v.len()
        invariant
            i <= v.len(),
            sorted_by(out@, price_leq()),
            out@.to_multiset() == v@.subrange(0, i as int).to_multiset(),
        decreases v.len() - i,
    {
        let x = v[i];
        let mut pos: usize = 0;
        while pos < out.len() && out[pos] <= x
            invariant
                pos <= out.len(),
                forall|k: int| 0 <= k < pos ==> out@[k] <= x,
            decreases out.len() - pos,
        {
            pos = pos + 1;
        }
        let ghost before = out@;
        out.insert(pos, x);
        proof {
            assert(v@.subrange(0, i + 1) =~= v@.subrange(0, i as int).push(x));
            vstd::seq_lib::to_multiset_insert(before, pos as int, x);
            vstd::seq_lib::to_multiset_build(v@.subrange(0, i as int), x);
            assert forall|a: int, b: int| 0 <= a < b < out@.len() implies #[trigger] price_leq()(
                out@[a],
                out@[b],
            ) by {
                if b < pos {
                    assert(price_leq()(before[a], before[b]));
                } else if b == pos {
                } else if a < pos {
                    if pos < before.len() {
                        assert(price_leq()(before[pos as int], before[b - 1]));
                    }
                } else if a == pos {
                    assert(price_leq()(before[pos as int], before[b - 1]) || b - 1 == pos);
                } else {
                    assert(price_leq()(before[a - 1], before[b - 1]));
                }
            }
        }
        i = i + 1;
    }
    proof {
        assert(v@.subrange(0, v@.len() as int) =~= v@);
        v@.lemma_sort_by_ensures(price_leq());
        vstd::seq_lib::lemma_sorted_unique(out@, v@.sort_by(price_leq()), price_leq());
    }
    out
}

impl OracleConsensus {
    /// An empty, invalid consensus.
    pub fn new() -> (r: Self)
        ensures
            r == (OracleConsensus {
                consensus_price: 0,
                consensus_count: 0,
                max_deviation_bps: 0,
                is_valid: false,
            }),
    {
        Self::default()
    }

    /// The consensus of oracle readings (see `consensus_of`).
    pub fn calculate_consensus(
        oracles: &[OraclePrice],
        max_deviation_bps: u64,
        min_consensus: u8,
    ) -> (r: TYieldResult<Self>)
        requires
            consensus_median_ok(oracles@, min_consensus),
        ensures
            r == consensus_of(oracles@, max_deviation_bps, min_consensus),
    {
        if oracles.len() < min_consensus as usize {
            return Err(ErrorCode::OracleConsensusThresholdNotMet);
        }
        let mut valid_prices: Vec<u64> = Vec::new();
        let mut i: usize = 0;
        while i < oracles.len()
            invariant
                i <= oracles@.len(),
                valid_prices@ == positive_prices(oracles@.subrange(0, i as int)),
            decreases oracles@.len() - i,
        {
            proof {
                assert(oracles@.subrange(0, i + 1).drop_last() =~= oracles@.subrange(0, i as int));
            }
            if oracles[i].price > 0 {
                valid_prices.push(oracles[i].price);
            }
            i = i + 1;
        }
        proof {
            assert(oracles@.subrange(0, oracles@.len() as int) =~= oracles@);
        }
        if valid_prices.len() < min_consensus as usize {
            return Err(ErrorCode::OracleConsensusThresholdNotMet);
        }
        let sorted = sort_prices(&valid_prices);
        proof {
            valid_prices@.lemma_sort_by_ensures(price_leq());
            lemma_sort_perm(valid_prices@);
            vstd::seq_lib::to_multiset_len(sorted@);
            vstd::seq_lib::to_multiset_len(valid_prices@);
        }
        let n = sorted.len();
        let median_price = if n % 2 == 0 {
            let mid = n / 2;
            (sorted[mid - 1] + sorted[mid]) / 2
        } else {
            sorted[n / 2]
        };
        proof {
            lemma_sort_perm(valid_prices@);
            lemma_max_deviation_perm(sorted@, valid_prices@, median_price);
        }
        let mut max_deviation: u64 = 0;
        let mut k: usize = 0;
        while k < n
            invariant
                k <= n == sorted@.len(),
                sorted@ == valid_prices@.sort_by(price_leq()),
                valid_prices@ == positive_prices(oracles@),
                oracles@.len() >= min_consensus,
                valid_prices@.len() >= min_consensus,
                median_price == median_of(sorted@) as u64,
                max_deviation_of(sorted@, median_price) == max_deviation_of(
                    valid_prices@,
                    median_price,
                ),
                max_deviation_of(sorted@.subrange(0, k as int), median_price) == Ok::<
                    u64,
                    ErrorCode,
                >(max_deviation),
            decreases n - k,
        {
            proof {
                assert(sorted@.subrange(0, k + 1).drop_last() =~= sorted@.subrange(0, k as int));
            }
            let price = sorted[k];
            let deviation = match deviation_bps(price, median_price, median_price) {
                Ok(d) => d,
                Err(e) => {
                    proof {
                        lemma_max_deviation_err_extends(sorted@, k + 1, median_price);
                    }
                    return Err(e);
                },
            };
            if deviation > max_deviation {
                max_deviation = deviation;
            }
            k = k + 1;
        }
        proof {
            assert(sorted@.subrange(0, n as int) =~= sorted@);
        }
        if max_deviation > max_deviation_bps {
            return Err(ErrorCode::OracleDeviationTooHigh);
        }
        Ok(
            Self {
                consensus_price: median_price,
                consensus_count: #[verifier::truncate] (n as u8),
                max_deviation_bps: max_deviation,
                is_valid: true,
            },
        )
    }
}

/// A failure on a prefix is a failure on the whole list.
proof fn lemma_max_deviation_err_extends(s: Seq<u64>, k: int, m: u64)
    requires
        0 <= k <= s.len(),
        max_deviation_of(s.subrange(0, k), m) is Err,
    ensures
        max_deviation_of(s, m) == Err::<u64, ErrorCode>(ErrorCode::MathError),
    decreases s.len(),
{
    if k == s.len() {
        assert(s.subrange(0, k) =~= s);
        lemma_max_deviation_err_is_math(s, m);
    } else {
        assert(s.drop_last().subrange(0, k) =~= s.subrange(0, k));
        lemma_max_deviation_err_extends(s.drop_last(), k, m);
    }
}

/// The only failure is `MathError`.
proof fn lemma_max_deviation_err_is_math(s: Seq<u64>, m: u64)
    ensures
        max_deviation_of(s, m) is Err ==> max_deviation_of(s, m) == Err::<u64, ErrorCode>(
            ErrorCode::MathError,
        ),
    decreases s.len(),
{
    if s.len() > 0 {
        lemma_max_deviation_err_is_math(s.drop_last(), m);
    }
}

/// Sorting keeps the elements.
proof fn lemma_sort_perm(s: Seq<u64>)
    ensures
        s.sort_by(price_leq()).to_multiset() == s.to_multiset(),
{
    s.lemma_sort_by_ensures(price_leq());
}

/// Limits on slippage, distances and risk that a trade's prices must meet,
/// all in basis points.
#[derive(Clone, Copy, PartialEq, Eq, Structural, Debug)]
pub struct PriceValidationConfig {
    pub max_slippage_bps: u64,
    pub min_distance_bps: u64,
    pub min_risk_reward_bps: u64,
    pub max_deviation_bps: u64,
    pub range_buffer_bps: u64,
    pub spread_bps: u64,
    pub slippage_buffer_bps: u64,
}

impl Default for PriceValidationConfig {
    fn default() -> (r: PriceValidationConfig)
        ensures
            r == PriceValidationConfig::custom(500, 100, 150, 200, 50, 50, 25),
    {
        PriceValidationConfig::custom(500, 100, 150, 200, 50, 50, 25)
    }
}

impl PriceValidationConfig {
    /// Tighter limits: 2% slippage and distance, 2:1 risk-reward.
    pub fn conservative() -> (r: Self)
        ensures
            r == PriceValidationConfig::custom(200, 200, 200, 100, 25, 25, 10),
    {
        PriceValidationConfig::custom(200, 200, 200, 100, 25, 25, 10)
    }

    /// Looser limits: 10% slippage, 0.5% distance, 1:1 risk-reward.
    pub fn aggressive() -> (r: Self)
        ensures
            r == PriceValidationConfig::custom(1000, 50, 100, 500, 100, 100, 50),
    {
        PriceValidationConfig::custom(1000, 50, 100, 500, 100, 100, 50)
    }

    /// A configuration with the given limits.
    #[verifier::when_used_as_spec(spec_custom)]
    pub fn custom(
        max_slippage_bps: u64,
        min_distance_bps: u64,
        min_risk_reward_bps: u64,
        max_deviation_bps: u64,
        range_buffer_bps: u64,
        spread_bps: u64,
        slippage_buffer_bps: u64,
    ) -> (r: Self)
        ensures
            r == Self::spec_custom(
                max_slippage_bps,
                min_distance_bps,
                min_risk_reward_bps,
                max_deviation_bps,
                range_buffer_bps,
                spread_bps,
                slippage_buffer_bps,
            ),
    {
        Self {
            max_slippage_bps,
            min_distance_bps,
            min_risk_reward_bps,
            max_deviation_bps,
            range_buffer_bps,
            spread_bps,
            slippage_buffer_bps,
        }
    }

    pub open spec fn spec_custom(
        max_slippage_bps: u64,
        min_distance_bps: u64,
        min_risk_reward_bps: u64,
        max_deviation_bps: u64,
        range_buffer_bps: u64,
        spread_bps: u64,
        slippage_buffer_bps: u64,
    ) -> Self {
        Self {
            max_slippage_bps,
            min_distance_bps,
            min_risk_reward_bps,
            max_deviation_bps,
            range_buffer_bps,
            spread_bps,
            slippage_buffer_bps,
        }
    }

    /// The configuration is usable when slippage and distance are non-zero and
    /// the slippage allowed is at least the distance required; `MathError`
    /// otherwise.
    pub open spec fn check(self) -> Result<(), ErrorCode> {
        if self.max_slippage_bps == 0 || self.min_distance_bps == 0 || self.max_slippage_bps
            < self.min_distance_bps {
            Err(ErrorCode::MathError)
        } else {
            Ok(())
        }
    }

    /// Checks the configuration (see `check`).
    pub fn validate(&self) -> (r: TYieldResult<()>)
        ensures
            r == self.check(),
    {
        if self.max_slippage_bps == 0 || self.min_distance_bps == 0 {
            return Err(ErrorCode::MathError);
        }
        if self.max_slippage_bps < self.min_distance_bps {
            return Err(ErrorCode::MathError);
        }
        Ok(())
    }
}

/// What a trade is opened with.
#[derive(Clone, Copy)]
pub struct TradeInitParams {
    pub master_agent: Pubkey,
    pub size: u64,
    pub entry_price: u64,
    pub take_profit: u64,
    pub stop_loss: u64,
    pub created_at: i64,
    pub pair: [u8; 8],
    pub feed_id: [u8; 32],
    pub status: TradeStatus,
    pub trade_type: TradeType,
    pub result: TradeResult,
    pub bump: u8,
}

/// A trade of a master agent.
#[derive(Clone, Copy, PartialEq, Eq, Debug)]
pub struct Trade {
    pub master_agent: Pubkey,
    pub feed_id: [u8; 32],
    pub pair: [u8; 8],
    pub size: u64,
    pub entry_price: u64,
    pub take_profit: u64,
    pub stop_loss: u64,
    pub created_at: i64,
    pub updated_at: i64,
    pub status: u8,
    pub trade_type: u8,
    pub result: u8,
    pub bump: u8,
    /// The only key that may change the trade.
    pub authority: Pubkey,
    pub oracle_consensus_count: u8,
    pub last_price_update: i64,
    pub circuit_breaker_triggered: bool,
    pub _padding: [u8; 2],
}

impl Default for Trade {
    fn default() -> (r: Trade)
        ensures
            r.is_blank(),
    {
        let r = Trade {
            master_agent: Pubkey::default(),
            feed_id: [0;32],
            pair: [0;8],
            size: 0,
            entry_price: 0,
            take_profit: 0,
            stop_loss: 0,
            created_at: 0,
            updated_at: 0,
            status: 0,
            trade_type: 0,
            result: 0,
            bump: 0,
            authority: Pubkey::default(),
            oracle_consensus_count: 0,
            last_price_update: 0,
            circuit_breaker_triggered: false,
            _padding: [0;2],
        };
        assert(r.feed_id@ =~= Seq::new(32, |i: int| 0u8));
        assert(r.pair@ =~= Seq::new(8, |i: int| 0u8));
        assert(r._padding@ =~= Seq::new(2, |i: int| 0u8));
        r
    }
}

/// The signed profit of a trade at `price`: `(price - entry) * size / entry`
/// for a buy, `(entry - price) * size / entry` for a sell, with the magnitude
/// rounded down. `InvalidEntryPrice` for a zero price, `MathError` on overflow
/// (including a magnitude past `i64::MAX`) or a zero entry price.
pub open spec fn pnl_at(t: Trade, price: u64) -> Result<i64, ErrorCode> {
    let gain = if t.is_buy_spec() {
        price - t.entry_price
    } else {
        t.entry_price - price
    };
    let magnitude = abs_diff(price as int, t.entry_price as int);
    if price == 0 {
        Err(ErrorCode::InvalidEntryPrice)
    } else if magnitude * t.size > u64::MAX || t.entry_price == 0 {
        Err(ErrorCode::MathError)
    } else if magnitude * t.size / (t.entry_price as int) > i64::MAX {
        Err(ErrorCode::MathError)
    } else {
        let q = magnitude * t.size / (t.entry_price as int);
        Ok(
            (if gain >= 0 {
                q
            } else {
                -q
            }) as i64,
        )
    }
}

/// `|x|` as an unsigned number.
pub open spec fn unsigned_abs(x: i64) -> u64 {
    if x >= 0 {
        x as u64
    } else {
        (-x) as u64
    }
}

/// `|x|` as an unsigned number, as `i64::unsigned_abs` gives it.
pub fn abs_u64(x: i64) -> (r: u64)
    ensures
        r == unsigned_abs(x),
{
    if x >= 0 {
        x as u64
    } else {
        (-(x as i128)) as u64
    }
}

/// Profit at the take-profit level over loss at the stop-loss level, both
/// taken as magnitudes, in basis points; `MathError` when there is no loss or
/// on overflow.
pub open spec fn risk_reward_of(t: Trade) -> Result<u64, ErrorCode> {
    match pnl_at(t, t.take_profit) {
        Err(e) => Err(e),
        Ok(profit) => match pnl_at(t, t.stop_loss) {
            Err(e) => Err(e),
            Ok(loss) => if loss == 0 {
                Err(ErrorCode::MathError)
            } else {
                ratio_bps(unsigned_abs(profit) as int, unsigned_abs(loss) as int)
            },
        },
    }
}

/// The checks of `Trade::validate`.
pub open spec fn trade_check(t: Trade) -> Result<(), ErrorCode> {
    if t.size == 0 {
        Err(ErrorCode::InvalidTradeSize)
    } else if t.entry_price == 0 {
        Err(ErrorCode::InvalidEntryPrice)
    } else if t.take_profit <= t.entry_price && t.is_buy_spec() {
        Err(ErrorCode::InvalidTakeProfitBuy)
    } else if t.take_profit >= t.entry_price && !t.is_buy_spec() {
        Err(ErrorCode::InvalidTakeProfitSell)
    } else if t.stop_loss >= t.entry_price && t.is_buy_spec() {
        Err(ErrorCode::InvalidStopLossBuy)
    } else if t.stop_loss <= t.entry_price && !t.is_buy_spec() {
        Err(ErrorCode::InvalidStopLossSell)
    } else {
        Ok(())
    }
}

/// `value * bps / 10_000`, `MathError` when the product overflows.
pub open spec fn bps_of(value: u64, bps: u64) -> Result<u64, ErrorCode> {
    if value * bps > u64::MAX {
        Err(ErrorCode::MathError)
    } else {
        Ok((value * bps / 10_000) as u64)
    }
}

/// `value * bps / 10_000`.
fn bps_of_exec(value: u64, bps: u64) -> (r: TYieldResult<u64>)
    ensures
        r == bps_of(value, bps),
{
    value.safe_mul(bps)?.safe_div(PERCENTAGE_PRECISION_U64)
}

/// Whether a price lies in the band from the stop loss less `buffer_bps` to the
/// take profit plus `buffer_bps`.
pub open spec fn in_range(t: Trade, price: u64, buffer_bps: u64) -> Result<bool, ErrorCode> {
    if price == 0 {
        Err(ErrorCode::PriceValidationFailed)
    } else {
        match bps_of(t.stop_loss, buffer_bps) {
            Err(e) => Err(e),
            Ok(down) => if down > t.stop_loss {
                Err(ErrorCode::MathError)
            } else {
                match bps_of(t.take_profit, buffer_bps) {
                    Err(e) => Err(e),
                    Ok(up) => if t.take_profit + up > u64::MAX {
                        Err(ErrorCode::MathError)
                    } else {
                        Ok(price >= t.stop_loss - down && price <= t.take_profit + up)
                    },
                }
            },
        }
    }
}

/// The oracle price as a whole number (exponent 0).
pub open spec fn whole_price(o: OraclePrice) -> Result<u64, ErrorCode> {
    match scaled_to(o.price, o.exponent, 0) {
        Ok(s) => Ok(s.price),
        Err(e) => Err(e),
    }
}

/// `base` moved up by `bps` for a buy, down for a sell; `MathError` on
/// overflow or underflow.
pub open spec fn adjust_by_side(base: u64, bps: u64, side: TradeType) -> Result<u64, ErrorCode> {
    match bps_of(base, bps) {
        Err(e) => Err(e),
        Ok(amount) => match side {
            TradeType::Buy => if base + amount > u64::MAX {
                Err(ErrorCode::MathError)
            } else {
                Ok((base + amount) as u64)
            },
            TradeType::Sell => if amount > base {
                Err(ErrorCode::MathError)
            } else {
                Ok((base - amount) as u64)
            },
        },
    }
}

/// `base` moved up (buy) or down (sell) by `bps`.
fn adjust_by_side_exec(base: u64, bps: u64, side: TradeType) -> (r: TYieldResult<u64>)
    ensures
        r == adjust_by_side(base, bps, side),
{
    let amount = bps_of_exec(base, bps)?;
    match side {
        TradeType::Buy => base.safe_add(amount),
        TradeType::Sell => base.safe_sub(amount),
    }
}

/// The entry price an oracle price suggests once the spread is applied for
/// the side; a zero price either way is `PriceValidationFailed`.
pub open spec fn spread_price(o: OraclePrice, spread_bps: u64, side: TradeType) -> Result<u64, ErrorCode> {
    match whole_price(o) {
        Err(e) => Err(e),
        Ok(base) => if base == 0 {
            Err(ErrorCode::PriceValidationFailed)
        } else {
            match adjust_by_side(base, spread_bps, side) {
                Err(e) => Err(e),
                Ok(p) => if p == 0 {
                    Err(ErrorCode::PriceValidationFailed)
                } else {
                    Ok(p)
                },
            }
        },
    }
}

/// The spread price with a slippage buffer applied again for the side.
pub open spec fn optimal_price(o: OraclePrice, spread_bps: u64, buffer_bps: u64, side: TradeType) -> Result<
    u64,
    ErrorCode,
> {
    match whole_price(o) {
        Err(e) => Err(e),
        Ok(base) => if base == 0 {
            Err(ErrorCode::PriceValidationFailed)
        } else {
            match adjust_by_side(base, spread_bps, side) {
                Err(e) => Err(e),
                Ok(p) => match adjust_by_side(p, buffer_bps, side) {
                    Err(e) => Err(e),
                    Ok(q) => if q == 0 {
                        Err(ErrorCode::PriceValidationFailed)
                    } else {
                        Ok(q)
                    },
                },
            }
        },
    }
}

/// Checks of an oracle price against the entry price: non-zero as a whole
/// number (`PriceValidationFailed`) and within `max_deviation_bps`
/// (`PriceDeviationTooHigh`).
pub open spec fn oracle_check(t: Trade, o: OraclePrice, max_deviation_bps: u64) -> Result<(), ErrorCode> {
    match whole_price(o) {
        Err(e) => Err(e),
        Ok(p) => if p == 0 {
            Err(ErrorCode::PriceValidationFailed)
        } else {
            match ratio_bps(abs_diff(p as int, t.entry_price as int), t.entry_price as int) {
                Err(e) => Err(e),
                Ok(d) => if d > max_deviation_bps {
                    Err(ErrorCode::PriceDeviationTooHigh)
                } else {
                    Ok(())
                },
            }
        },
    }
}

/// Checks of a price against the entry price: non-zero
/// (`PriceValidationFailed`) and within `max_slippage_bps` (`MaxPriceSlippage`).
pub open spec fn slippage_check(t: Trade, price: u64, max_slippage_bps: u64) -> Result<(), ErrorCode> {
    if price == 0 {
        Err(ErrorCode::PriceValidationFailed)
    } else {
        match ratio_bps(abs_diff(price as int, t.entry_price as int), t.entry_price as int) {
            Err(e) => Err(e),
            Ok(s) => if s > max_slippage_bps {
                Err(ErrorCode::MaxPriceSlippage)
            } else {
                Ok(())
            },
        }
    }
}

/// Take profit and stop loss each at least `min_distance_bps` from the entry
/// price (`TakeProfitTooClose`, `StopLossTooClose`).
pub open spec fn levels_check(t: Trade, min_distance_bps: u64) -> Result<(), ErrorCode> {
    match ratio_bps(abs_diff(t.take_profit as int, t.entry_price as int), t.entry_price as int) {
        Err(e) => Err(e),
        Ok(tp) => if tp < min_distance_bps {
            Err(ErrorCode::TakeProfitTooClose)
        } else {
            match ratio_bps(abs_diff(t.stop_loss as int, t.entry_price as int), t.entry_price as int) {
                Err(e) => Err(e),
                Ok(sl) => if sl < min_distance_bps {
                    Err(ErrorCode::StopLossTooClose)
                } else {
                    Ok(())
                },
            }
        },
    }
}

/// Risk-reward ratio at least `min_ratio_bps` (`InsufficientRiskRewardRatio`).
pub open spec fn risk_reward_check(t: Trade, min_ratio_bps: u64) -> Result<(), ErrorCode> {
    match risk_reward_of(t) {
        Err(e) => Err(e),
        Ok(r) => if r < min_ratio_bps {
            Err(ErrorCode::InsufficientRiskRewardRatio)
        } else {
            Ok(())
        },
    }
}

/// The checks of `Trade::comprehensive_validation`, in order.
pub open spec fn comprehensive_check(
    t: Trade,
    price: u64,
    o: OraclePrice,
    max_slippage_bps: u64,
    min_distance_bps: u64,
    min_risk_reward_bps: u64,
    max_deviation_bps: u64,
    range_buffer_bps: u64,
) -> Result<(), ErrorCode> {
    if trade_check(t) is Err {
        trade_check(t)
    } else if slippage_check(t, price, max_slippage_bps) is Err {
        slippage_check(t, price, max_slippage_bps)
    } else if levels_check(t, min_distance_bps) is Err {
        levels_check(t, min_distance_bps)
    } else if risk_reward_check(t, min_risk_reward_bps) is Err {
        risk_reward_check(t, min_risk_reward_bps)
    } else if oracle_check(t, o, max_deviation_bps) is Err {
        oracle_check(t, o, max_deviation_bps)
    } else {
        match in_range(t, price, range_buffer_bps) {
            Err(e) => Err(e),
            Ok(inside) => if inside {
                Ok(())
            } else {
                Err(ErrorCode::PriceOutOfRange)
            },
        }
    }
}

/// What `Trade::can_execute_trade` answers: `false` when the trade, the
/// slippage or the oracle price fails its check, else whether the price is in
/// range.
pub open spec fn can_execute(
    t: Trade,
    price: u64,
    o: OraclePrice,
    max_slippage_bps: u64,
    max_deviation_bps: u64,
    range_buffer_bps: u64,
) -> Result<bool, ErrorCode> {
    if trade_check(t) is Err || slippage_check(t, price, max_slippage_bps) is Err || oracle_check(
        t,
        o,
        max_deviation_bps,
    ) is Err {
        Ok(false)
    } else {
        in_range(t, price, range_buffer_bps)
    }
}

/// Flash-attack checks: the price is non-zero (`PriceValidationFailed`),
/// within the configured deviation of the consensus (`PriceDeviationTooHigh`),
/// and a move of more than 20% from the entry needs three oracles
/// (`OracleConsensusThresholdNotMet`).
pub open spec fn flash_check(t: Trade, price: u64, c: OracleConsensus, config: TradeSecurityConfig) -> Result<
    (),
    ErrorCode,
> {
    if price == 0 {
        Err(ErrorCode::PriceValidationFailed)
    } else {
        match ratio_bps(abs_diff(price as int, c.consensus_price as int), c.consensus_price as int) {
            Err(e) => Err(e),
            Ok(d) => if d > config.max_oracle_deviation_bps {
                Err(ErrorCode::PriceDeviationTooHigh)
            } else {
                match ratio_bps(abs_diff(price as int, t.entry_price as int), t.entry_price as int) {
                    Err(e) => Err(e),
                    Ok(m) => if m > 2000 && c.consensus_count < 3 {
                        Err(ErrorCode::OracleConsensusThresholdNotMet)
                    } else {
                        Ok(())
                    },
                }
            },
        }
    }
}

/// Size and prices within the configured limits; size failures are
/// `InvalidTradeSize`, price failures `InvalidEntryPrice`.
pub open spec fn limits_check(t: Trade, l: TradeSecurityConfig) -> Result<(), ErrorCode> {
    if t.size == 0 || t.size > l.max_position_size {
        Err(ErrorCode::InvalidTradeSize)
    } else if t.entry_price == 0 || t.entry_price < l.min_price || t.entry_price > l.max_price
        || t.take_profit == 0 || t.take_profit > l.max_price || t.stop_loss == 0 || t.stop_loss
        < l.min_price {
        Err(ErrorCode::InvalidEntryPrice)
    } else {
        Ok(())
    }
}

/// Circuit breaker: refused when already tripped or when the price moved more
/// than the threshold from the entry (`CircuitBreakerTriggered`), or more than
/// the emergency threshold (`EmergencyPauseActive`).
pub open spec fn breaker_check(t: Trade, price: u64, config: TradeSecurityConfig) -> Result<(), ErrorCode> {
    if t.circuit_breaker_triggered {
        Err(ErrorCode::CircuitBreakerTriggered)
    } else {
        match ratio_bps(abs_diff(price as int, t.entry_price as int), t.entry_price as int) {
            Err(e) => Err(e),
            Ok(c) => if c > config.circuit_breaker_threshold_bps {
                Err(ErrorCode::CircuitBreakerTriggered)
            } else if c > config.emergency_pause_threshold {
                Err(ErrorCode::EmergencyPauseActive)
            } else {
                Ok(())
            },
        }
    }
}

/// The text of the security warnings of a trade.
pub open spec fn security_status_of(breaker: bool, consensus_count: u8) -> Seq<char> {
    if breaker && consensus_count < 2 {
        "Circuit Breaker Active"@ + ", "@ + "Low Oracle Consensus"@
    } else if breaker {
        "Circuit Breaker Active"@
    } else if consensus_count < 2 {
        "Low Oracle Consensus"@
    } else {
        "Secure"@
    }
}

/// The lowercase hexadecimal digit of a nibble.
pub open spec fn hex_char(n: u8) -> char {
    if n < 10 {
        (('0' as u8) + n) as char
    } else {
        (('a' as u8) + n - 10) as char
    }
}

/// Two lowercase hexadecimal digits per byte.
pub open spec fn hex_of(bytes: Seq<u8>) -> Seq<char>
    decreases bytes.len(),
{
    if bytes.len() == 0 {
        Seq::empty()
    } else {
        hex_of(bytes.drop_last()) + seq![hex_char(bytes.last() / 16), hex_char(bytes.last() % 16)]
    }
}

/// The text of one hexadecimal digit.
fn hex_digit(n: u8) -> (r: &'static str)
    requires
        n < 16,
    ensures
        r@ == seq![hex_char(n)],
{
    proof {
        reveal_strlit("0");
        reveal_strlit("1");
        reveal_strlit("2");
        reveal_strlit("3");
        reveal_strlit("4");
        reveal_strlit("5");
        reveal_strlit("6");
        reveal_strlit("7");
        reveal_strlit("8");
        reveal_strlit("9");
        reveal_strlit("a");
        reveal_strlit("b");
        reveal_strlit("c");
        reveal_strlit("d");
        reveal_strlit("e");
        reveal_strlit("f");
    }
    let r = match n {
        0 => "0",
        1 => "1",
        2 => "2",
        3 => "3",
        4 => "4",
        5 => "5",
        6 => "6",
        7 => "7",
        8 => "8",
        9 => "9",
        10 => "a",
        11 => "b",
        12 => "c",
        13 => "d",
        14 => "e",
        _ => "f",
    };
    assert(r@ =~= seq![hex_char(n)]);
    r
}

/// The cluster clock's time, zero without a clock.
fn clock_time_or_zero() -> i64 {
    match unix_timestamp_now() {
        Some(t) => t,
        None => 0,
    }
}

impl Trade {
    /// A trade with every field zero.
    pub open spec fn is_blank(self) -> bool {
        &&& self.master_agent == Pubkey::spec_default()
        &&& self.feed_id@ == Seq::new(32, |i: int| 0u8)
        &&& self.pair@ == Seq::new(8, |i: int| 0u8)
        &&& self.size == 0 && self.entry_price == 0 && self.take_profit == 0 && self.stop_loss == 0
        &&& self.created_at == 0 && self.updated_at == 0
        &&& self.status == 0 && self.trade_type == 0 && self.result == 0 && self.bump == 0
        &&& self.authority == Pubkey::spec_default()
        &&& self.oracle_consensus_count == 0 && self.last_price_update == 0
        &&& !self.circuit_breaker_triggered
        &&& self._padding@ == Seq::new(2, |i: int| 0u8)
    }

    /// Whether the trade reads as a buy.
    pub open spec fn is_buy_spec(self) -> bool {
        type_from_byte(self.trade_type) == TradeType::Buy
    }

    /// The trade as `init_trade` leaves it, with `authority` as its authority.
    pub open spec fn initialized(self, params: TradeInitParams, authority: Pubkey) -> bool {
        &&& self.master_agent == params.master_agent
        &&& self.size == params.size
        &&& self.entry_price == params.entry_price
        &&& self.take_profit == params.take_profit
        &&& self.stop_loss == params.stop_loss
        &&& self.created_at == params.created_at
        &&& self.updated_at == params.created_at
        &&& self.pair == params.pair
        &&& self.feed_id == params.feed_id
        &&& self.status == status_byte(params.status)
        &&& self.trade_type == type_byte(params.trade_type)
        &&& self.result == result_byte(params.result)
        &&& self.bump == params.bump
        &&& self.authority == authority
        &&& self.oracle_consensus_count == 0
        &&& self.last_price_update == params.created_at
        &&& !self.circuit_breaker_triggered
        &&& self._padding@ == Seq::new(2, |i: int| 0u8)
    }

    /// The status; an unknown byte reads as `Active`.
    pub fn get_status(&self) -> (r: TradeStatus)
        ensures
            r == status_from_byte(self.status),
    {
        match self.status {
            2 => TradeStatus::Completed,
            4 => TradeStatus::Cancelled,
            _ => TradeStatus::Active,
        }
    }

    /// The side; an unknown byte reads as `Buy`.
    pub fn get_trade_type(&self) -> (r: TradeType)
        ensures
            r == type_from_byte(self.trade_type),
    {
        match self.trade_type {
            2 => TradeType::Sell,
            _ => TradeType::Buy,
        }
    }

    /// The outcome; an unknown byte reads as `Pending`.
    pub fn get_result(&self) -> (r: TradeResult)
        ensures
            r == result_from_byte(self.result),
    {
        match self.result {
            1 => TradeResult::Success,
            2 => TradeResult::Failed,
            _ => TradeResult::Pending,
        }
    }

    /// Moves the trade to `status` at `current_time`. Only the trade's authority
    /// may (`InvalidAuthority`), and only along `transition_allowed`
    /// (`CannotPerformAction`).
    pub fn set_status(&mut self, status: TradeStatus, authority: &Pubkey, current_time: i64) -> (r:
        TYieldResult<()>)
        ensures
            *authority != old(self).authority ==> r == Err::<(), ErrorCode>(
                ErrorCode::InvalidAuthority,
            ) && *final(self) == *old(self),
            *authority == old(self).authority && !transition_allowed(
                status_from_byte(old(self).status),
                status,
            ) ==> r == Err::<(), ErrorCode>(ErrorCode::CannotPerformAction) && *final(self)
                == *old(self),
            *authority == old(self).authority && transition_allowed(
                status_from_byte(old(self).status),
                status,
            ) ==> r == Ok::<(), ErrorCode>(()) && *final(self) == (Trade {
                status: status_byte(status),
                updated_at: current_time,
                ..*old(self)
            }),
    {
        if *authority != self.authority {
            return Err(ErrorCode::InvalidAuthority);
        }
        match (self.get_status(), status) {
            (TradeStatus::Active, TradeStatus::Completed) => {},
            (TradeStatus::Active, TradeStatus::Cancelled) => {},
            (TradeStatus::Completed, TradeStatus::Cancelled) => {},
            _ => {
                return Err(ErrorCode::CannotPerformAction);
            },
        }
        self.status = status.bits();
        self.updated_at = current_time;
        Ok(())
    }

    /// Records the outcome at `current_time`; only the trade's authority may
    /// (`InvalidAuthority`).
    pub fn set_result(&mut self, result: TradeResult, authority: &Pubkey, current_time: i64) -> (r:
        TYieldResult<()>)
        ensures
            *authority != old(self).authority ==> r == Err::<(), ErrorCode>(
                ErrorCode::InvalidAuthority,
            ) && *final(self) == *old(self),
            *authority == old(self).authority ==> r == Ok::<(), ErrorCode>(()) && *final(self) == (
            Trade { result: result_byte(result), updated_at: current_time, ..*old(self) }),
    {
        if *authority != self.authority {
            return Err(ErrorCode::InvalidAuthority);
        }
        self.result = result.bits();
        self.updated_at = current_time;
        Ok(())
    }

    /// Whether the trade is active.
    pub fn is_active(&self) -> (r: bool)
        ensures
            r == (status_from_byte(self.status) == TradeStatus::Active),
    {
        self.get_status() == TradeStatus::Active
    }

    /// Whether the trade is completed.
    pub fn is_completed(&self) -> (r: bool)
        ensures
            r == (status_from_byte(self.status) == TradeStatus::Completed),
    {
        self.get_status() == TradeStatus::Completed
    }

    /// Whether the trade is cancelled.
    pub fn is_cancelled(&self) -> (r: bool)
        ensures
            r == (status_from_byte(self.status) == TradeStatus::Cancelled),
    {
        self.get_status() == TradeStatus::Cancelled
    }

    /// Whether the trade is a buy.
    pub fn is_buy(&self) -> (r: bool)
        ensures
            r == self.is_buy_spec(),
    {
        self.get_trade_type() == TradeType::Buy
    }

    /// Whether the trade is a sell.
    pub fn is_sell(&self) -> (r: bool)
        ensures
            r == !self.is_buy_spec(),
    {
        self.get_trade_type() == TradeType::Sell
    }

    /// Checks size, entry price, and the sides of take profit and stop loss
    /// (see `trade_check`).
    pub fn validate(&self) -> (r: TYieldResult<()>)
        ensures
            r == trade_check(*self),
    {
        if self.size == 0 {
            return Err(ErrorCode::InvalidTradeSize);
        }
        if self.entry_price == 0 {
            return Err(ErrorCode::InvalidEntryPrice);
        }
        if self.take_profit <= self.entry_price && self.is_buy() {
            return Err(ErrorCode::InvalidTakeProfitBuy);
        }
        if self.take_profit >= self.entry_price && self.is_sell() {
            return Err(ErrorCode::InvalidTakeProfitSell);
        }
        if self.stop_loss >= self.entry_price && self.is_buy() {
            return Err(ErrorCode::InvalidStopLossBuy);
        }
        if self.stop_loss <= self.entry_price && self.is_sell() {
            return Err(ErrorCode::InvalidStopLossSell);
        }
        Ok(())
    }

    /// Profit at `current_price` in signed 64-bit arithmetic, rounded toward
    /// zero: `(price - entry) * size / entry` for a buy, negated for a sell.
    pub fn calculate_pnl(&self, current_price: u64) -> (r: i64)
        requires
            ({
                let diff = if self.is_buy_spec() {
                    (current_price as i64) - (self.entry_price as i64)
                } else {
                    (self.entry_price as i64) - (current_price as i64)
                };
                &&& i64::MIN <= diff <= i64::MAX
                &&& i64::MIN <= diff * (self.size as i64) <= i64::MAX
                &&& (self.entry_price as i64) != 0
                &&& !(diff * (self.size as i64) == i64::MIN && (self.entry_price as i64) == -1)
            }),
        ensures
            ({
                let diff = if self.is_buy_spec() {
                    (current_price as i64) - (self.entry_price as i64)
                } else {
                    (self.entry_price as i64) - (current_price as i64)
                };
                r == trunc_div(diff * (self.size as i64), self.entry_price as i64 as int)
            }),
    {
        let price_diff = if self.is_buy() {
            current_price as i64 - self.entry_price as i64
        } else {
            self.entry_price as i64 - current_price as i64
        };
        let numerator = price_diff * self.size as i64;
        let denominator = self.entry_price as i64;
        proof {
            lemma_trunc_div_i64_fits(numerator as int, denominator as int);
        }
        match numerator.safe_div(denominator) {
            Ok(q) => q,
            Err(_) => 0,
        }
    }

    /// Profit at `current_price` with checked arithmetic (see `pnl_at`).
    pub fn calculate_pnl_safe(&self, current_price: u64) -> (r: TYieldResult<i64>)
        ensures
            r == pnl_at(*self, current_price),
    {
        if current_price == 0 {
            return Err(ErrorCode::InvalidEntryPrice);
        }
        let (price_diff, sign) = if self.is_buy() {
            if current_price >= self.entry_price {
                (current_price.safe_sub(self.entry_price)?, 1i64)
            } else {
                (self.entry_price.safe_sub(current_price)?, -1i64)
            }
        } else if self.entry_price >= current_price {
            (self.entry_price.safe_sub(current_price)?, 1i64)
        } else {
            (current_price.safe_sub(self.entry_price)?, -1i64)
        };
        let pnl_numerator = price_diff.safe_mul(self.size)?;
        let pnl = pnl_numerator.safe_div(self.entry_price)?;
        if pnl > i64::MAX as u64 {
            return Err(ErrorCode::MathError);
        }
        let signed = pnl as i64;
        Ok(signed * sign)
    }

    /// The gain at `current_price` in basis points of the entry price; a loss
    /// is `MathError` (the gain is computed unsigned), a zero price
    /// `InvalidEntryPrice`.
    pub fn calculate_pnl_percentage(&self, current_price: u64) -> (r: TYieldResult<i64>)
        ensures
            r == (if current_price == 0 {
                Err(ErrorCode::InvalidEntryPrice)
            } else {
                let gain = if self.is_buy_spec() {
                    current_price - self.entry_price
                } else {
                    self.entry_price - current_price
                };
                if gain < 0 {
                    Err(ErrorCode::MathError)
                } else {
                    match ratio_bps(gain, self.entry_price as int) {
                        Err(e) => Err(e),
                        Ok(p) => Ok(p as i64),
                    }
                }
            }),
    {
        if current_price == 0 {
            return Err(ErrorCode::InvalidEntryPrice);
        }
        let price_diff = if self.is_buy() {
            current_price.safe_sub(self.entry_price)?
        } else {
            self.entry_price.safe_sub(current_price)?
        };
        let percentage_numerator = price_diff.safe_mul(PERCENTAGE_PRECISION_U64)?;
        let percentage = percentage_numerator.safe_div(self.entry_price)?;
        let r = #[verifier::truncate] (percentage as i64);
        Ok(r)
    }

    /// Profit at `current_price` while the trade is active; zero afterwards.
    pub fn calculate_unrealized_pnl(&self, current_price: u64) -> (r: TYieldResult<i64>)
        ensures
            r == (if status_from_byte(self.status) != TradeStatus::Active {
                Ok(0i64)
            } else {
                pnl_at(*self, current_price)
            }),
    {
        if !self.is_active() {
            return Ok(0);
        }
        self.calculate_pnl_safe(current_price)
    }

    /// Profit at the take-profit level.
    pub fn calculate_max_profit(&self) -> (r: TYieldResult<i64>)
        ensures
            r == pnl_at(*self, self.take_profit),
    {
        self.calculate_pnl_safe(self.take_profit)
    }

    /// Profit (a loss, for a valid trade) at the stop-loss level.
    pub fn calculate_max_loss(&self) -> (r: TYieldResult<i64>)
        ensures
            r == pnl_at(*self, self.stop_loss),
    {
        self.calculate_pnl_safe(self.stop_loss)
    }

    /// Reward over risk in basis points (see `risk_reward_of`).
    pub fn calculate_risk_reward_ratio(&self) -> (r: TYieldResult<u64>)
        ensures
            r == risk_reward_of(*self),
    {
        let max_profit = self.calculate_max_profit()?;
        let max_loss = self.calculate_max_loss()?;
        if max_loss == 0 {
            return Err(ErrorCode::MathError);
        }
        let ratio = abs_u64(max_profit).safe_mul(PERCENTAGE_PRECISION_U64)?;
        let ratio_basis_points = ratio.safe_div(abs_u64(max_loss))?;
        Ok(ratio_basis_points)
    }

    /// Whether `current_price` reached the take profit: at or above it for a
    /// buy, at or below it for a sell.
    pub fn has_hit_take_profit(&self, current_price: u64) -> (r: bool)
        ensures
            r == (if self.is_buy_spec() {
                current_price >= self.take_profit
            } else {
                current_price <= self.take_profit
            }),
    {
        if self.is_buy() {
            current_price >= self.take_profit
        } else {
            current_price <= self.take_profit
        }
    }

    /// Whether `current_price` reached the stop loss: at or below it for a
    /// buy, at or above it for a sell.
    pub fn has_hit_stop_loss(&self, current_price: u64) -> (r: bool)
        ensures
            r == (if self.is_buy_spec() {
                current_price <= self.stop_loss
            } else {
                current_price >= self.stop_loss
            }),
    {
        if self.is_buy() {
            current_price <= self.stop_loss
        } else {
            current_price >= self.stop_loss
        }
    }

    /// Marks the trade completed with `result`, whatever its status, at
    /// `current_time`.
    pub fn complete_at(&mut self, result: TradeResult, current_time: i64)
        ensures
            *final(self) == (Trade {
                status: status_byte(TradeStatus::Completed),
                result: result_byte(result),
                updated_at: current_time,
                ..*old(self)
            }),
    {
        let authority = self.authority;
        if self.set_status(TradeStatus::Completed, &authority, current_time).is_err() {
            self.status = TradeStatus::Completed.bits();
        }
        if self.set_result(result, &authority, current_time).is_err() {
            self.result = result.bits();
        }
    }

    /// Marks the trade completed with `result`, whatever its status, at the
    /// time the cluster clock gives (zero without a clock).
    pub fn complete(&mut self, result: TradeResult)
        ensures
            *final(self) == (Trade {
                status: status_byte(TradeStatus::Completed),
                result: result_byte(result),
                updated_at: final(self).updated_at,
                ..*old(self)
            }),
    {
        let now = clock_time_or_zero();
        self.complete_at(result, now)
    }

    /// Marks the trade cancelled and failed, whatever its status, at
    /// `current_time`.
    pub fn cancel_at(&mut self, current_time: i64)
        ensures
            *final(self) == (Trade {
                status: status_byte(TradeStatus::Cancelled),
                result: result_byte(TradeResult::Failed),
                updated_at: current_time,
                ..*old(self)
            }),
    {
        let authority = self.authority;
        if self.set_status(TradeStatus::Cancelled, &authority, current_time).is_err() {
            self.status = TradeStatus::Cancelled.bits();
        }
        if self.set_result(TradeResult::Failed, &authority, current_time).is_err() {
            self.result = TradeResult::Failed.bits();
        }
    }

    /// Marks the trade cancelled and failed, whatever its status, at the time
    /// the cluster clock gives (zero without a clock).
    pub fn cancel(&mut self)
        ensures
            *final(self) == (Trade {
                status: status_byte(TradeStatus::Cancelled),
                result: result_byte(TradeResult::Failed),
                updated_at: final(self).updated_at,
                ..*old(self)
            }),
    {
        let now = clock_time_or_zero();
        self.cancel_at(now)
    }

    /// Seconds since the trade was created.
    pub fn get_duration(&self, current_time: i64) -> (r: i64)
        requires
            i64::MIN <= current_time - self.created_at <= i64::MAX,
        ensures
            r == current_time - self.created_at,
    {
        current_time - self.created_at
    }

    /// The pair bytes decoded as UTF-8, invalid sequences replaced.
    pub fn get_pair_string(&self) -> (r: String)
        ensures
            r@ == spec_utf8_lossy(self.pair@),
    {
        utf8_lossy(self.pair.as_slice())
    }

    /// The feed id as 64 lowercase hexadecimal digits.
    pub fn get_feed_id_string(&self) -> (r: String)
        ensures
            r@ == hex_of(self.feed_id@),
    {
        let mut out = String::new();
        let mut i: usize = 0;
        while i < 32
            invariant
                i <= 32,
                self.feed_id@.len() == 32,
                out@ == hex_of(self.feed_id@.subrange(0, i as int)),
            decreases 32 - i,
        {
            let b = self.feed_id[i];
            out.append(hex_digit(b / 16));
            out.append(hex_digit(b % 16));
            proof {
                let s = self.feed_id@.subrange(0, i + 1);
                assert(s.drop_last() =~= self.feed_id@.subrange(0, i as int));
                assert(out@ =~= hex_of(s));
            }
            i = i + 1;
        }
        proof {
            assert(self.feed_id@.subrange(0, 32) =~= self.feed_id@);
        }
        out
    }

    /// Opens the trade from `params` with the unset key as authority, no
    /// oracle consensus, and the breaker reset.
    pub fn init_trade(&mut self, params: TradeInitParams)
        ensures
            final(self).initialized(params, Pubkey::spec_default()),
    {
        self.master_agent = params.master_agent;
        self.size = params.size;
        self.entry_price = params.entry_price;
        self.take_profit = params.take_profit;
        self.stop_loss = params.stop_loss;
        self.created_at = params.created_at;
        self.updated_at = params.created_at;
        self.pair = params.pair;
        self.feed_id = params.feed_id;
        self.status = params.status.bits();
        self.trade_type = params.trade_type.bits();
        self.result = params.result.bits();
        self.bump = params.bump;
        self.authority = Pubkey::default();
        self.oracle_consensus_count = 0;
        self.last_price_update = params.created_at;
        self.circuit_breaker_triggered = false;
        self._padding = [0;2];
        assert(self._padding@ =~= Seq::new(2, |i: int| 0u8));
    }

    /// Overwrites size and levels, then sets status and outcome at
    /// `updated_at`; a status change the trade may not make is written anyway.
    pub fn update_trade(
        &mut self,
        size: u64,
        take_profit: u64,
        stop_loss: u64,
        status: TradeStatus,
        result: TradeResult,
        updated_at: i64,
    )
        ensures
            *final(self) == (Trade {
                size,
                take_profit,
                stop_loss,
                status: status_byte(status),
                result: result_byte(result),
                updated_at,
                ..*old(self)
            }),
    {
        self.size = size;
        self.take_profit = take_profit;
        self.stop_loss = stop_loss;
        let authority = self.authority;
        if self.set_status(status, &authority, updated_at).is_err() {
            self.status = status.bits();
        }
        if self.set_result(result, &authority, updated_at).is_err() {
            self.result = result.bits();
        }
        self.updated_at = updated_at;
    }

    /// Checks `current_price` against the entry price (see `slippage_check`).
    pub fn validate_price_with_slippage(&self, current_price: u64, max_slippage_bps: u64) -> (r:
        TYieldResult<()>)
        ensures
            r == slippage_check(*self, current_price, max_slippage_bps),
    {
        if current_price == 0 {
            return Err(ErrorCode::PriceValidationFailed);
        }
        let slippage_bps = deviation_bps(current_price, self.entry_price, self.entry_price)?;
        if slippage_bps > max_slippage_bps {
            return Err(ErrorCode::MaxPriceSlippage);
        }
        Ok(())
    }

    /// Checks the distances of take profit and stop loss (see `levels_check`).
    pub fn validate_risk_management_levels(&self, min_distance_bps: u64) -> (r: TYieldResult<()>)
        ensures
            r == levels_check(*self, min_distance_bps),
    {
        let tp_distance_bps = deviation_bps(self.take_profit, self.entry_price, self.entry_price)?;
        if tp_distance_bps < min_distance_bps {
            return Err(ErrorCode::TakeProfitTooClose);
        }
        let sl_distance_bps = deviation_bps(self.stop_loss, self.entry_price, self.entry_price)?;
        if sl_distance_bps < min_distance_bps {
            return Err(ErrorCode::StopLossTooClose);
        }
        Ok(())
    }

    /// Checks the risk-reward ratio (see `risk_reward_check`).
    pub fn validate_risk_reward_ratio(&self, min_ratio_bps: u64) -> (r: TYieldResult<()>)
        ensures
            r == risk_reward_check(*self, min_ratio_bps),
    {
        let ratio = self.calculate_risk_reward_ratio()?;
        if ratio < min_ratio_bps {
            return Err(ErrorCode::InsufficientRiskRewardRatio);
        }
        Ok(())
    }
}

impl Trade {
    /// The checks of secure execution, in order: the trade, its limits, the
    /// circuit breaker, the oracle consensus, flash-attack protection,
    /// slippage, level distances and the risk-reward ratio.
    pub fn validate_secure_trade_execution(
        &self,
        current_price: u64,
        oracles: &[OraclePrice],
        security_config: &TradeSecurityConfig,
        validation_config: &PriceValidationConfig,
    ) -> (r: TYieldResult<()>)
        requires
            consensus_median_ok(oracles@, security_config.min_oracle_consensus),
        ensures
            r == (if trade_check(*self) is Err {
                trade_check(*self)
            } else if limits_check(*self, *security_config) is Err {
                limits_check(*self, *security_config)
            } else if breaker_check(*self, current_price, *security_config) is Err {
                breaker_check(*self, current_price, *security_config)
            } else {
                match consensus_of(
                    oracles@,
                    security_config.max_oracle_deviation_bps,
                    security_config.min_oracle_consensus,
                ) {
                    Err(e) => Err(e),
                    Ok(c) => if flash_check(*self, current_price, c, *security_config) is Err {
                        flash_check(*self, current_price, c, *security_config)
                    } else if slippage_check(
                        *self,
                        current_price,
                        validation_config.max_slippage_bps,
                    ) is Err {
                        slippage_check(*self, current_price, validation_config.max_slippage_bps)
                    } else if levels_check(*self, validation_config.min_distance_bps) is Err {
                        levels_check(*self, validation_config.min_distance_bps)
                    } else {
                        risk_reward_check(*self, validation_config.min_risk_reward_bps)
                    },
                }
            }),
    {
        let current_time = match unix_timestamp_now() {
            Some(t) => t,
            None => 0,
        };
        self.validate()?;
        self.validate_trade_limits(security_config)?;
        self.check_circuit_breaker(current_price, security_config)?;
        let oracle_consensus = self.validate_oracle_consensus(
            oracles,
            security_config,
            current_time,
        )?;
        self.validate_price_with_flash_protection(
            current_price,
            &oracle_consensus,
            security_config,
        )?;
        self.validate_price_with_slippage(current_price, validation_config.max_slippage_bps)?;
        self.validate_risk_management_levels(validation_config.min_distance_bps)?;
        self.validate_risk_reward_ratio(validation_config.min_risk_reward_bps)?;
        Ok(())
    }

    /// Completes an active trade with `result`. Only the authority may
    /// (`InvalidAuthority`), only an active trade (`CannotPerformAction`), and
    /// the reported profit may not exceed 1000 times the size (`MathError`).
    /// The update time is `current_time`.
    pub fn complete_secure_at(&mut self, result: TradeResult, authority: &Pubkey, pnl: i64, current_time: i64) -> (r:
        TYieldResult<()>)
        ensures
            *authority != old(self).authority ==> r == Err::<(), ErrorCode>(
                ErrorCode::InvalidAuthority,
            ) && *final(self) == *old(self),
            *authority == old(self).authority && status_from_byte(old(self).status)
                != TradeStatus::Active ==> r == Err::<(), ErrorCode>(ErrorCode::CannotPerformAction)
                && *final(self) == *old(self),
            *authority == old(self).authority && status_from_byte(old(self).status)
                == TradeStatus::Active && (old(self).size * 1000 > u64::MAX || unsigned_abs(pnl)
                > old(self).size * 1000) ==> r == Err::<(), ErrorCode>(ErrorCode::MathError)
                && *final(self) == *old(self),
            *authority == old(self).authority && status_from_byte(old(self).status)
                == TradeStatus::Active && !(old(self).size * 1000 > u64::MAX || unsigned_abs(pnl)
                > old(self).size * 1000) ==> r == Ok::<(), ErrorCode>(()) && *final(self) == (
            Trade {
                status: status_byte(TradeStatus::Completed),
                result: result_byte(result),
                updated_at: current_time,
                ..*old(self)
            }),
    {
        if *authority != self.authority {
            return Err(ErrorCode::InvalidAuthority);
        }
        if !self.is_active() {
            return Err(ErrorCode::CannotPerformAction);
        }
        let max_expected_pnl = self.size.safe_mul(1000)?;
        if abs_u64(pnl) > max_expected_pnl {
            return Err(ErrorCode::MathError);
        }
        self.set_status(TradeStatus::Completed, authority, current_time)?;
        self.set_result(result, authority, current_time)?;
        Ok(())
    }

    /// Completes an active trade with `result`. Only the authority may
    /// (`InvalidAuthority`), only an active trade (`CannotPerformAction`), and
    /// the reported profit may not exceed 1000 times the size (`MathError`). The
    /// time is the cluster clock's (zero without a clock).
    pub fn complete_secure(&mut self, result: TradeResult, authority: &Pubkey, pnl: i64) -> (r:
        TYieldResult<()>)
        ensures
            *authority != old(self).authority ==> r == Err::<(), ErrorCode>(
                ErrorCode::InvalidAuthority,
            ) && *final(self) == *old(self),
            *authority == old(self).authority && status_from_byte(old(self).status)
                != TradeStatus::Active ==> r == Err::<(), ErrorCode>(ErrorCode::CannotPerformAction)
                && *final(self) == *old(self),
            *authority == old(self).authority && status_from_byte(old(self).status)
                == TradeStatus::Active && (old(self).size * 1000 > u64::MAX || unsigned_abs(pnl)
                > old(self).size * 1000) ==> r == Err::<(), ErrorCode>(ErrorCode::MathError)
                && *final(self) == *old(self),
            *authority == old(self).authority && status_from_byte(old(self).status)
                == TradeStatus::Active && !(old(self).size * 1000 > u64::MAX || unsigned_abs(pnl)
                > old(self).size * 1000) ==> r == Ok::<(), ErrorCode>(()) && *final(self) == (
            Trade {
                status: status_byte(TradeStatus::Completed),
                result: result_byte(result),
                updated_at: final(self).updated_at,
                ..*old(self)
            }),
    {
        let now = clock_time_or_zero();
        self.complete_secure_at(result, authority, pnl, now)
    }

    /// Cancels an active trade and marks it failed. Only the authority may
    /// (`InvalidAuthority`) and only an active trade (`CannotPerformAction`).
    /// The reason is not kept.
    /// The update time is `current_time`.
    pub fn cancel_secure_at(&mut self, authority: &Pubkey, reason: &str, current_time: i64) -> (r: TYieldResult<()>)
        ensures
            *authority != old(self).authority ==> r == Err::<(), ErrorCode>(
                ErrorCode::InvalidAuthority,
            ) && *final(self) == *old(self),
            *authority == old(self).authority && status_from_byte(old(self).status)
                != TradeStatus::Active ==> r == Err::<(), ErrorCode>(ErrorCode::CannotPerformAction)
                && *final(self) == *old(self),
            *authority == old(self).authority && status_from_byte(old(self).status)
                == TradeStatus::Active ==> r == Ok::<(), ErrorCode>(()) && *final(self) == (Trade {
                status: status_byte(TradeStatus::Cancelled),
                result: result_byte(TradeResult::Failed),
                updated_at: current_time,
                ..*old(self)
            }),
    {
        if *authority != self.authority {
            return Err(ErrorCode::InvalidAuthority);
        }
        if !self.is_active() {
            return Err(ErrorCode::CannotPerformAction);
        }
        self.set_status(TradeStatus::Cancelled, authority, current_time)?;
        self.set_result(TradeResult::Failed, authority, current_time)?;
        Ok(())
    }

    /// Cancels an active trade and marks it failed. Only the authority may
    /// (`InvalidAuthority`) and only an active trade (`CannotPerformAction`).
    /// The reason is not kept. The time is the cluster clock's.
    pub fn cancel_secure(&mut self, authority: &Pubkey, reason: &str) -> (r: TYieldResult<()>)
        ensures
            *authority != old(self).authority ==> r == Err::<(), ErrorCode>(
                ErrorCode::InvalidAuthority,
            ) && *final(self) == *old(self),
            *authority == old(self).authority && status_from_byte(old(self).status)
                != TradeStatus::Active ==> r == Err::<(), ErrorCode>(ErrorCode::CannotPerformAction)
                && *final(self) == *old(self),
            *authority == old(self).authority && status_from_byte(old(self).status)
                == TradeStatus::Active ==> r == Ok::<(), ErrorCode>(()) && *final(self) == (Trade {
                status: status_byte(TradeStatus::Cancelled),
                result: result_byte(TradeResult::Failed),
                updated_at: final(self).updated_at,
                ..*old(self)
            }),
    {
        let now = clock_time_or_zero();
        self.cancel_secure_at(authority, reason, now)
    }

    /// Trips the circuit breaker; only the authority may (`InvalidAuthority`).
    ///
    /// The update time is `current_time`.
    pub fn trigger_circuit_breaker_at(&mut self, authority: &Pubkey, current_time: i64) -> (r: TYieldResult<()>)
        ensures
            *authority != old(self).authority ==> r == Err::<(), ErrorCode>(
                ErrorCode::InvalidAuthority,
            ) && *final(self) == *old(self),
            *authority == old(self).authority ==> r == Ok::<(), ErrorCode>(()) && *final(self) == (
            Trade {
                circuit_breaker_triggered: true,
                updated_at: current_time,
                ..*old(self)
            }),
    {
        if *authority != self.authority {
            return Err(ErrorCode::InvalidAuthority);
        }
        self.circuit_breaker_triggered = true;
        self.updated_at = current_time;
        Ok(())
    }

    /// Trips the circuit breaker; only the authority may (`InvalidAuthority`).
    /// The time is the cluster clock's.
    pub fn trigger_circuit_breaker(&mut self, authority: &Pubkey) -> (r: TYieldResult<()>)
        ensures
            *authority != old(self).authority ==> r == Err::<(), ErrorCode>(
                ErrorCode::InvalidAuthority,
            ) && *final(self) == *old(self),
            *authority == old(self).authority ==> r == Ok::<(), ErrorCode>(()) && *final(self) == (
            Trade {
                circuit_breaker_triggered: true,
                updated_at: final(self).updated_at,
                ..*old(self)
            }),
    {
        let now = clock_time_or_zero();
        self.trigger_circuit_breaker_at(authority, now)
    }

    /// Resets the circuit breaker; any caller may. 
    /// The update time is `current_time`.
    pub fn reset_circuit_breaker_at(&mut self, _admin_authority: &Pubkey, current_time: i64) -> (r: TYieldResult<()>)
        ensures
            r == Ok::<(), ErrorCode>(()),
            *final(self) == (Trade {
                circuit_breaker_triggered: false,
                updated_at: current_time,
                ..*old(self)
            }),
    {
        self.circuit_breaker_triggered = false;
        self.updated_at = current_time;
        Ok(())
    }

    /// Resets the circuit breaker; any caller may. The time is the cluster
    /// clock's.
    pub fn reset_circuit_breaker(&mut self, _admin_authority: &Pubkey) -> (r: TYieldResult<()>)
        ensures
            r == Ok::<(), ErrorCode>(()),
            *final(self) == (Trade {
                circuit_breaker_triggered: false,
                updated_at: final(self).updated_at,
                ..*old(self)
            }),
    {
        let now = clock_time_or_zero();
        self.reset_circuit_breaker_at(_admin_authority, now)
    }

    /// Opens the trade from `params` under `authority`, then validates it; the
    /// trade stays written when validation fails.
    pub fn init_trade_secure(&mut self, params: TradeInitParams, authority: Pubkey) -> (r:
        TYieldResult<()>)
        ensures
            final(self).initialized(params, authority),
            r == trade_check(*final(self)),
    {
        self.master_agent = params.master_agent;
        self.size = params.size;
        self.entry_price = params.entry_price;
        self.take_profit = params.take_profit;
        self.stop_loss = params.stop_loss;
        self.created_at = params.created_at;
        self.updated_at = params.created_at;
        self.pair = params.pair;
        self.feed_id = params.feed_id;
        self.status = params.status.bits();
        self.trade_type = params.trade_type.bits();
        self.result = params.result.bits();
        self.bump = params.bump;
        self.authority = authority;
        self.oracle_consensus_count = 0;
        self.last_price_update = params.created_at;
        self.circuit_breaker_triggered = false;
        self._padding = [0;2];
        assert(self._padding@ =~= Seq::new(2, |i: int| 0u8));
        self.validate()?;
        Ok(())
    }

    /// Checks an oracle price against the entry price (see `oracle_check`).
    pub fn validate_oracle_price(&self, oracle_price: &OraclePrice, max_deviation_bps: u64) -> (r:
        TYieldResult<()>)
        requires
            scale_ok(oracle_price.exponent, 0),
        ensures
            r == oracle_check(*self, *oracle_price, max_deviation_bps),
    {
        let oracle_price_u64 = oracle_price.scale_to_exponent(0)?.price;
        if oracle_price_u64 == 0 {
            return Err(ErrorCode::PriceValidationFailed);
        }
        let deviation = deviation_bps(oracle_price_u64, self.entry_price, self.entry_price)?;
        if deviation > max_deviation_bps {
            return Err(ErrorCode::PriceDeviationTooHigh);
        }
        Ok(())
    }

    /// Whether `current_price` lies in the buffered band (see `in_range`).
    pub fn is_price_in_range(&self, current_price: u64, range_buffer_bps: u64) -> (r: TYieldResult<
        bool,
    >)
        ensures
            r == in_range(*self, current_price, range_buffer_bps),
    {
        if current_price == 0 {
            return Err(ErrorCode::PriceValidationFailed);
        }
        let min_price = self.stop_loss.safe_sub(bps_of_exec(self.stop_loss, range_buffer_bps)?)?;
        let max_price = self.take_profit.safe_add(
            bps_of_exec(self.take_profit, range_buffer_bps)?,
        )?;
        Ok(current_price >= min_price && current_price <= max_price)
    }

    /// The oracle price with the spread applied for `side` (see `spread_price`).
    pub fn calculate_entry_price_with_spread(
        &self,
        oracle_price: &OraclePrice,
        spread_bps: u64,
        side: TradeType,
    ) -> (r: TYieldResult<u64>)
        requires
            scale_ok(oracle_price.exponent, 0),
        ensures
            r == spread_price(*oracle_price, spread_bps, side),
    {
        let base_price = oracle_price.scale_to_exponent(0)?.price;
        if base_price == 0 {
            return Err(ErrorCode::PriceValidationFailed);
        }
        let entry_price = adjust_by_side_exec(base_price, spread_bps, side)?;
        if entry_price == 0 {
            return Err(ErrorCode::PriceValidationFailed);
        }
        Ok(entry_price)
    }

    /// Whether the trade can execute at `current_price` (see `can_execute`).
    pub fn can_execute_trade(
        &self,
        current_price: u64,
        oracle_price: &OraclePrice,
        max_slippage_bps: u64,
        max_deviation_bps: u64,
        range_buffer_bps: u64,
    ) -> (r: TYieldResult<bool>)
        requires
            scale_ok(oracle_price.exponent, 0),
        ensures
            r == can_execute(
                *self,
                current_price,
                *oracle_price,
                max_slippage_bps,
                max_deviation_bps,
                range_buffer_bps,
            ),
    {
        if self.validate().is_err() {
            return Ok(false);
        }
        if self.validate_price_with_slippage(current_price, max_slippage_bps).is_err() {
            return Ok(false);
        }
        if self.validate_oracle_price(oracle_price, max_deviation_bps).is_err() {
            return Ok(false);
        }
        if !self.is_price_in_range(current_price, range_buffer_bps)? {
            return Ok(false);
        }
        Ok(true)
    }

    /// The oracle price with spread and slippage buffer applied for the trade's
    /// side (see `optimal_price`).
    pub fn calculate_optimal_entry_price(
        &self,
        oracle_price: &OraclePrice,
        spread_bps: u64,
        slippage_buffer_bps: u64,
    ) -> (r: TYieldResult<u64>)
        requires
            scale_ok(oracle_price.exponent, 0),
        ensures
            r == optimal_price(
                *oracle_price,
                spread_bps,
                slippage_buffer_bps,
                type_from_byte(self.trade_type),
            ),
    {
        let base_price = oracle_price.scale_to_exponent(0)?.price;
        if base_price == 0 {
            return Err(ErrorCode::PriceValidationFailed);
        }
        let side = self.get_trade_type();
        let spread_adjusted_price = adjust_by_side_exec(base_price, spread_bps, side)?;
        let optimal_price = adjust_by_side_exec(spread_adjusted_price, slippage_buffer_bps, side)?;
        if optimal_price == 0 {
            return Err(ErrorCode::PriceValidationFailed);
        }
        Ok(optimal_price)
    }

    /// Every price and risk check (see `comprehensive_check`).
    pub fn comprehensive_validation(
        &self,
        current_price: u64,
        oracle_price: &OraclePrice,
        max_slippage_bps: u64,
        min_distance_bps: u64,
        min_risk_reward_bps: u64,
        max_deviation_bps: u64,
        range_buffer_bps: u64,
    ) -> (r: TYieldResult<()>)
        requires
            scale_ok(oracle_price.exponent, 0),
        ensures
            r == comprehensive_check(
                *self,
                current_price,
                *oracle_price,
                max_slippage_bps,
                min_distance_bps,
                min_risk_reward_bps,
                max_deviation_bps,
                range_buffer_bps,
            ),
    {
        self.validate()?;
        self.validate_price_with_slippage(current_price, max_slippage_bps)?;
        self.validate_risk_management_levels(min_distance_bps)?;
        self.validate_risk_reward_ratio(min_risk_reward_bps)?;
        self.validate_oracle_price(oracle_price, max_deviation_bps)?;
        if !self.is_price_in_range(current_price, range_buffer_bps)? {
            return Err(ErrorCode::PriceOutOfRange);
        }
        Ok(())
    }

    /// The configuration's own check, then every price and risk check with its
    /// limits.
    pub fn validate_with_config(
        &self,
        current_price: u64,
        oracle_price: &OraclePrice,
        config: &PriceValidationConfig,
    ) -> (r: TYieldResult<()>)
        requires
            scale_ok(oracle_price.exponent, 0),
        ensures
            r == (if config.check() is Err {
                config.check()
            } else {
                comprehensive_check(
                    *self,
                    current_price,
                    *oracle_price,
                    config.max_slippage_bps,
                    config.min_distance_bps,
                    config.min_risk_reward_bps,
                    config.max_deviation_bps,
                    config.range_buffer_bps,
                )
            }),
    {
        config.validate()?;
        self.comprehensive_validation(
            current_price,
            oracle_price,
            config.max_slippage_bps,
            config.min_distance_bps,
            config.min_risk_reward_bps,
            config.max_deviation_bps,
            config.range_buffer_bps,
        )
    }

    /// The optimal entry price with the configuration's spread and buffer.
    pub fn calculate_optimal_price_with_config(
        &self,
        oracle_price: &OraclePrice,
        config: &PriceValidationConfig,
    ) -> (r: TYieldResult<u64>)
        requires
            scale_ok(oracle_price.exponent, 0),
        ensures
            r == optimal_price(
                *oracle_price,
                config.spread_bps,
                config.slippage_buffer_bps,
                type_from_byte(self.trade_type),
            ),
    {
        self.calculate_optimal_entry_price(oracle_price, config.spread_bps, config.slippage_buffer_bps)
    }

    /// Whether the trade can execute with the configuration's limits.
    pub fn can_execute_with_config(
        &self,
        current_price: u64,
        oracle_price: &OraclePrice,
        config: &PriceValidationConfig,
    ) -> (r: TYieldResult<bool>)
        requires
            scale_ok(oracle_price.exponent, 0),
        ensures
            r == can_execute(
                *self,
                current_price,
                *oracle_price,
                config.max_slippage_bps,
                config.max_deviation_bps,
                config.range_buffer_bps,
            ),
    {
        self.can_execute_trade(
            current_price,
            oracle_price,
            config.max_slippage_bps,
            config.max_deviation_bps,
            config.range_buffer_bps,
        )
    }

    /// Flash-attack protection (see `flash_check`).
    pub fn validate_price_with_flash_protection(
        &self,
        current_price: u64,
        oracle_consensus: &OracleConsensus,
        config: &TradeSecurityConfig,
    ) -> (r: TYieldResult<()>)
        ensures
            r == flash_check(*self, current_price, *oracle_consensus, *config),
    {
        if current_price == 0 {
            return Err(ErrorCode::PriceValidationFailed);
        }
        let deviation = deviation_bps(
            current_price,
            oracle_consensus.consensus_price,
            oracle_consensus.consensus_price,
        )?;
        if deviation > config.max_oracle_deviation_bps {
            return Err(ErrorCode::PriceDeviationTooHigh);
        }
        let trade_deviation = deviation_bps(current_price, self.entry_price, self.entry_price)?;
        if trade_deviation > 2000 {
            if oracle_consensus.consensus_count < 3 {
                return Err(ErrorCode::OracleConsensusThresholdNotMet);
            }
        }
        Ok(())
    }

    /// Size and prices within the limits (see `limits_check`).
    pub fn validate_trade_limits(&self, limits: &TradeSecurityConfig) -> (r: TYieldResult<()>)
        ensures
            r == limits_check(*self, *limits),
    {
        if self.size == 0 {
            return Err(ErrorCode::InvalidTradeSize);
        }
        if self.size > limits.max_position_size {
            return Err(ErrorCode::InvalidTradeSize);
        }
        if self.entry_price == 0 {
            return Err(ErrorCode::InvalidEntryPrice);
        }
        if self.entry_price < limits.min_price {
            return Err(ErrorCode::InvalidEntryPrice);
        }
        if self.entry_price > limits.max_price {
            return Err(ErrorCode::InvalidEntryPrice);
        }
        if self.take_profit == 0 {
            return Err(ErrorCode::InvalidEntryPrice);
        }
        if self.take_profit > limits.max_price {
            return Err(ErrorCode::InvalidEntryPrice);
        }
        if self.stop_loss == 0 {
            return Err(ErrorCode::InvalidEntryPrice);
        }
        if self.stop_loss < limits.min_price {
            return Err(ErrorCode::InvalidEntryPrice);
        }
        Ok(())
    }

    /// The circuit breaker (see `breaker_check`).
    pub fn check_circuit_breaker(&self, current_price: u64, config: &TradeSecurityConfig) -> (r:
        TYieldResult<()>)
        ensures
            r == breaker_check(*self, current_price, *config),
    {
        if self.circuit_breaker_triggered {
            return Err(ErrorCode::CircuitBreakerTriggered);
        }
        let change_bps = deviation_bps(current_price, self.entry_price, self.entry_price)?;
        if change_bps > config.circuit_breaker_threshold_bps {
            return Err(ErrorCode::CircuitBreakerTriggered);
        }
        if change_bps > config.emergency_pause_threshold {
            return Err(ErrorCode::EmergencyPauseActive);
        }
        Ok(())
    }

    /// The consensus of the oracles under the configured deviation and count;
    /// the time is not used.
    pub fn validate_oracle_consensus(
        &self,
        oracles: &[OraclePrice],
        config: &TradeSecurityConfig,
        _current_time: i64,
    ) -> (r: TYieldResult<OracleConsensus>)
        requires
            consensus_median_ok(oracles@, config.min_oracle_consensus),
        ensures
            r == consensus_of(oracles@, config.max_oracle_deviation_bps, config.min_oracle_consensus),
    {
        OracleConsensus::calculate_consensus(
            oracles,
            config.max_oracle_deviation_bps,
            config.min_oracle_consensus,
        )
    }

    /// "Circuit Breaker Active" and "Low Oracle Consensus" (fewer than two
    /// oracles) joined by ", ", or "Secure".
    pub fn get_security_status(&self) -> (r: String)
        ensures
            r@ == security_status_of(self.circuit_breaker_triggered, self.oracle_consensus_count),
    {
        let breaker = self.circuit_breaker_triggered;
        let low = self.oracle_consensus_count < 2;
        if !breaker && !low {
            return String::from_str("Secure");
        }
        let mut out = String::new();
        if breaker {
            out.append("Circuit Breaker Active");
        }
        if low {
            if breaker {
                out.append(", ");
            }
            out.append("Low Oracle Consensus");
        }
        assert(out@ =~= security_status_of(breaker, self.oracle_consensus_count));
        out
    }
}


/// The profit of a trade is measured against its entry price, whatever its
/// side: for a non-zero price and entry price, a computed profit `v` has the
/// magnitude `|price - entry| * size / entry` rounded down
/// (`|v| * entry <= |price - entry| * size < (|v| + 1) * entry`), is positive
/// only when the price moved the trade's way (up for a buy, down for a sell)
/// and negative only when it moved against it; and the profit is computed
/// whenever `|price - entry| * size` fits a `u64` and the magnitude an `i64`.
pub proof fn lemma_pnl_is_move_times_size_over_entry(t: Trade, price: u64)
    requires
        price > 0,
        t.entry_price > 0,
    ensures
        ({
            let d: int = if price >= t.entry_price {
                price - t.entry_price
            } else {
                t.entry_price - price
            };
            let favourable = if t.is_buy_spec() {
                price > t.entry_price
            } else {
                price < t.entry_price
            };
            &&& (d * t.size <= u64::MAX && d * t.size < (i64::MAX + 1) * t.entry_price) ==> pnl_at(
                t,
                price,
            ) is Ok
            &&& pnl_at(t, price) matches Ok(v) ==> {
                let m: int = if v >= 0 {
                    v as int
                } else {
                    -(v as int)
                };
                &&& m * t.entry_price <= d * t.size
                &&& d * t.size < (m + 1) * t.entry_price
                &&& (v > 0 ==> favourable)
                &&& (v < 0 ==> !favourable)
            }
        }),
{
    let d: int = if price >= t.entry_price {
        price - t.entry_price
    } else {
        t.entry_price - price
    };
    let e = t.entry_price as int;
    let n = d * t.size;
    assert(n >= 0) by (nonlinear_arith)
        requires
            d >= 0,
            t.size >= 0,
            n == d * t.size,
    ;
    let q = n / e;
    assert(q * e <= n < (q + 1) * e && q >= 0) by (nonlinear_arith)
        requires
            e > 0,
            n >= 0,
            q == n / e,
    ;
    if n < (i64::MAX + 1) * e {
        assert(q <= i64::MAX) by (nonlinear_arith)
            requires
                e > 0,
                q * e <= n,
                n < (i64::MAX + 1) * e,
        ;
    }
    if d == 0 {
        assert(n == 0) by (nonlinear_arith)
            requires
                d == 0,
                n == d * t.size,
        ;
    }
}

/// Slippage is the distance of the price from the entry price in basis
/// points of the entry price, the same for a move up as for a move down: for
/// a non-zero price and entry price (and a distance whose basis points fit a
/// `u64`), the check refuses with `MaxPriceSlippage` exactly when
/// `|price - entry| * 10_000 >= (max_slippage_bps + 1) * entry`.
pub proof fn lemma_slippage_is_symmetric_distance(t: Trade, price: u64, max_slippage_bps: u64)
    requires
        price > 0,
        t.entry_price > 0,
        (if price >= t.entry_price {
            price - t.entry_price
        } else {
            t.entry_price - price
        }) * 10_000 <= u64::MAX,
    ensures
        slippage_check(t, price, max_slippage_bps) == (if (if price >= t.entry_price {
            price - t.entry_price
        } else {
            t.entry_price - price
        }) * 10_000 >= (max_slippage_bps + 1) * t.entry_price {
            Err::<(), ErrorCode>(ErrorCode::MaxPriceSlippage)
        } else {
            Ok(())
        }),
{
    let d: int = if price >= t.entry_price {
        price - t.entry_price
    } else {
        t.entry_price - price
    };
    let e = t.entry_price as int;
    let q = (d * 10_000) / e;
    let mx = max_slippage_bps as int;
    assert(q > mx <==> d * 10_000 >= (mx + 1) * e) by (nonlinear_arith)
        requires
            e > 0,
            d >= 0,
            q == (d * 10_000) / e,
    ;
}

/// Every price's deviation from `m` is within the maximum that
/// `max_deviation_of` computes, and, for a non-empty list, one price reaches
/// it.
proof fn lemma_max_deviation_bounds(prices: Seq<u64>, m: u64)
    requires
        max_deviation_of(prices, m) is Ok,
    ensures
        forall|i: int|
            0 <= i < prices.len() ==> (#[trigger] ratio_bps(abs_diff(prices[i] as int, m as int), m as int) matches Ok(d)
                && d <= max_deviation_of(prices, m)->Ok_0),
        prices.len() > 0 ==> exists|i: int|
            0 <= i < prices.len() && #[trigger] ratio_bps(abs_diff(prices[i] as int, m as int), m as int)
                == Ok::<u64, ErrorCode>(max_deviation_of(prices, m)->Ok_0),
    decreases prices.len(),
{
    if prices.len() > 0 {
        let front = prices.drop_last();
        lemma_max_deviation_bounds(front, m);
        let n = prices.len() - 1;
        assert forall|i: int| 0 <= i < prices.len() implies (#[trigger] ratio_bps(
            abs_diff(prices[i] as int, m as int),
            m as int,
        ) matches Ok(d) && d <= max_deviation_of(prices, m)->Ok_0) by {
            if i < n {
                assert(prices[i] == front[i]);
            }
        }
        let acc = max_deviation_of(front, m)->Ok_0;
        let last = ratio_bps(abs_diff(prices[n] as int, m as int), m as int)->Ok_0;
        if last > acc {
            assert(ratio_bps(abs_diff(prices[n] as int, m as int), m as int) == Ok::<u64, ErrorCode>(
                max_deviation_of(prices, m)->Ok_0,
            ));
        } else if front.len() > 0 {
            let i = choose|i: int|
                0 <= i < front.len() && #[trigger] ratio_bps(abs_diff(front[i] as int, m as int), m as int)
                    == Ok::<u64, ErrorCode>(acc);
            assert(prices[i] == front[i]);
            assert(ratio_bps(abs_diff(prices[i] as int, m as int), m as int) == Ok::<u64, ErrorCode>(
                max_deviation_of(prices, m)->Ok_0,
            ));
        } else {
            assert(acc == 0);
            assert(ratio_bps(abs_diff(prices[n] as int, m as int), m as int) == Ok::<u64, ErrorCode>(
                max_deviation_of(prices, m)->Ok_0,
            ));
        }
    }
}

/// The consensus price is the median of the non-zero readings: for the
/// readings' non-zero prices in ascending order `s` (any ordering of them
/// that is ascending), the price is the middle one for an odd count and the
/// mean, rounded down, of the two middle ones for an even count, so it lies
/// between the two middle readings and does not move when only the extreme
/// readings change. The count is the number of non-zero readings, and the
/// reported deviation is the largest of the readings' deviations from the
/// consensus price, in basis points of it.
pub proof fn lemma_consensus_is_median(
    oracles: Seq<OraclePrice>,
    max_deviation_bps: u64,
    min_consensus: u8,
    s: Seq<u64>,
)
    requires
        consensus_of(oracles, max_deviation_bps, min_consensus) is Ok,
        s.len() > 0,
        s.to_multiset() == positive_prices(oracles).to_multiset(),
        forall|i: int, j: int| 0 <= i <= j < s.len() ==> s[i] <= s[j],
    ensures
        ({
            let c = consensus_of(oracles, max_deviation_bps, min_consensus)->Ok_0;
            let n = s.len() as int;
            &&& n <= 255 ==> c.consensus_count == n
            &&& n % 2 == 1 ==> c.consensus_price == s[n / 2]
            &&& n % 2 == 0 ==> c.consensus_price == (s[n / 2 - 1] + s[n / 2]) / 2
            &&& s[(n - 1) / 2] <= c.consensus_price <= s[n / 2]
            &&& forall|i: int|
                0 <= i < n ==> (#[trigger] ratio_bps(
                    abs_diff(s[i] as int, c.consensus_price as int),
                    c.consensus_price as int,
                ) matches Ok(d) && d <= c.max_deviation_bps)
            &&& exists|i: int|
                0 <= i < n && #[trigger] ratio_bps(
                    abs_diff(s[i] as int, c.consensus_price as int),
                    c.consensus_price as int,
                ) == Ok::<u64, ErrorCode>(c.max_deviation_bps)
        }),
{
    broadcast use vstd::seq_lib::group_to_multiset_ensures;

    let valid = positive_prices(oracles);
    let sorted = valid.sort_by(price_leq());
    valid.lemma_sort_by_ensures(price_leq());
    assert(sorted_by(s, price_leq())) by {
        assert forall|i: int, j: int| 0 <= i < j < s.len() implies #[trigger] price_leq()(s[i], s[j]) by {
            assert(s[i] <= s[j]);
        }
    }
    vstd::seq_lib::lemma_sorted_unique(s, sorted, price_leq());
    assert(s == sorted);
    vstd::seq_lib::to_multiset_len(s);
    vstd::seq_lib::to_multiset_len(valid);
    let n = s.len() as int;
    let c = consensus_of(oracles, max_deviation_bps, min_consensus)->Ok_0;
    let m = median_of(sorted) as u64;
    if n % 2 == 0 {
        assert(s[n / 2 - 1] <= s[n / 2]);
    }
    assert(c.consensus_price == m);
    lemma_max_deviation_perm(valid, s, m);
    lemma_max_deviation_bounds(s, m);
}

/// The take profit and stop loss are each measured from the entry price in
/// basis points of the entry price, in either direction: for a non-zero
/// entry price (and distances whose basis points fit a `u64`), the take
/// profit is refused as too close exactly when
/// `|take_profit - entry| * 10_000 < min_distance_bps * entry`, and
/// otherwise the stop loss exactly when
/// `|stop_loss - entry| * 10_000 < min_distance_bps * entry`.
pub proof fn lemma_level_distances_in_bps(t: Trade, min_distance_bps: u64)
    requires
        t.entry_price > 0,
        abs_diff(t.take_profit as int, t.entry_price as int) * 10_000 <= u64::MAX,
        abs_diff(t.stop_loss as int, t.entry_price as int) * 10_000 <= u64::MAX,
    ensures
        ({
            let e = t.entry_price as int;
            let dt: int = if t.take_profit >= t.entry_price {
                t.take_profit - t.entry_price
            } else {
                t.entry_price - t.take_profit
            };
            let ds: int = if t.stop_loss >= t.entry_price {
                t.stop_loss - t.entry_price
            } else {
                t.entry_price - t.stop_loss
            };
            levels_check(t, min_distance_bps) == (if dt * 10_000 < min_distance_bps * e {
                Err::<(), ErrorCode>(ErrorCode::TakeProfitTooClose)
            } else if ds * 10_000 < min_distance_bps * e {
                Err(ErrorCode::StopLossTooClose)
            } else {
                Ok(())
            })
        }),
{
    let e = t.entry_price as int;
    let mn = min_distance_bps as int;
    let dt = abs_diff(t.take_profit as int, t.entry_price as int);
    let ds = abs_diff(t.stop_loss as int, t.entry_price as int);
    let qt = (dt * 10_000) / e;
    let qs = (ds * 10_000) / e;
    assert(qt < mn <==> dt * 10_000 < mn * e) by (nonlinear_arith)
        requires
            e > 0,
            dt >= 0,
            qt == (dt * 10_000) / e,
    ;
    assert(qs < mn <==> ds * 10_000 < mn * e) by (nonlinear_arith)
        requires
            e > 0,
            ds >= 0,
            qs == (ds * 10_000) / e,
    ;
}

/// An oracle price is checked against the entry price in basis points of the
/// entry price, in either direction: for a non-zero whole oracle price `p`
/// and entry price (and a distance whose basis points fit a `u64`), the check
/// refuses with `PriceDeviationTooHigh` exactly when
/// `|p - entry| * 10_000 >= (max_deviation_bps + 1) * entry`.
pub proof fn lemma_oracle_deviation_in_bps(t: Trade, o: OraclePrice, max_deviation_bps: u64)
    requires
        whole_price(o) matches Ok(p) && p > 0 && abs_diff(p as int, t.entry_price as int) * 10_000
            <= u64::MAX,
        t.entry_price > 0,
    ensures
        ({
            let p = whole_price(o)->Ok_0;
            let d: int = if p >= t.entry_price {
                p - t.entry_price
            } else {
                t.entry_price - p
            };
            oracle_check(t, o, max_deviation_bps) == (if d * 10_000 >= (max_deviation_bps + 1)
                * t.entry_price {
                Err::<(), ErrorCode>(ErrorCode::PriceDeviationTooHigh)
            } else {
                Ok(())
            })
        }),
{
    let p = whole_price(o)->Ok_0;
    let e = t.entry_price as int;
    let d = abs_diff(p as int, t.entry_price as int);
    let q = (d * 10_000) / e;
    let mx = max_deviation_bps as int;
    assert(q > mx <==> d * 10_000 >= (mx + 1) * e) by (nonlinear_arith)
        requires
            e > 0,
            d >= 0,
            q == (d * 10_000) / e,
    ;
}

/// The risk-reward ratio is the profit at the take profit over the loss at
/// the stop loss, in basis points rounded down: when both are computed and
/// the loss is not zero, the ratio `r` satisfies
/// `r * |loss| <= |profit| * 10_000 < (r + 1) * |loss|`.
pub proof fn lemma_risk_reward_is_profit_over_loss(t: Trade)
    requires
        risk_reward_of(t) is Ok,
    ensures
        ({
            let profit = pnl_at(t, t.take_profit)->Ok_0;
            let loss = pnl_at(t, t.stop_loss)->Ok_0;
            let gain: int = if profit >= 0 {
                profit as int
            } else {
                -(profit as int)
            };
            let risk: int = if loss >= 0 {
                loss as int
            } else {
                -(loss as int)
            };
            let r = risk_reward_of(t)->Ok_0;
            &&& pnl_at(t, t.take_profit) is Ok
            &&& pnl_at(t, t.stop_loss) is Ok
            &&& risk > 0
            &&& r * risk <= gain * 10_000 < (r + 1) * risk
        }),
{
    let profit = pnl_at(t, t.take_profit)->Ok_0;
    let loss = pnl_at(t, t.stop_loss)->Ok_0;
    let g = unsigned_abs(profit) as int;
    let k = unsigned_abs(loss) as int;
    let q = (g * 10_000) / k;
    assert(q * k <= g * 10_000 < (q + 1) * k) by (nonlinear_arith)
        requires
            k > 0,
            g >= 0,
            q == (g * 10_000) / k,
    ;
}
} // verus!
