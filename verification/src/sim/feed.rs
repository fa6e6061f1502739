use vstd::prelude::*;

verus! {

/// A replayable source of simulated market events, fixed by its seed.
#[derive(Debug, Clone)]
pub struct HistoricalFeed {
    seed: u64,
}

impl View for HistoricalFeed {
    type V = u64;

    /// The seed the feed replays from.
    closed spec fn view(&self) -> u64 {
        self.seed
    }
}

impl HistoricalFeed {
    /// A feed that replays the events of `seed`.
    pub fn new(seed: u64) -> (res: HistoricalFeed)
        ensures
            res@ == seed,
    {
        HistoricalFeed { seed }
    }

    /// The seed the feed replays from.
    pub fn seed(&self) -> (res: u64)
        ensures
            res == self@,
    {
        self.seed
    }
}

/// Remainder of `a` divided by `d` with the sign of `a`, as `%` on machine
/// integers computes it.
pub open spec fn rem_toward_zero(a: int, d: int) -> int {
    if a >= 0 {
        a % d
    } else {
        -((-a) % d)
    }
}

/// The mid price of the simulated book at step `idx`: 50 cents, plus twice the
/// step (read as an `i32`) modulo 10, plus the random jitter of the step.
pub open spec fn spec_tick_mid(idx: usize, jitter: i32) -> int {
    50 + rem_toward_zero((idx as i32) * 2, 10) + jitter
}

/// Prices of one simulated step: the book two cents either side of the mid,
/// and a trade, when one happens, at the mid.
#[derive(Debug, Clone, Copy, PartialEq, Eq, Structural)]
pub struct TickPrices {
    pub best_bid_cents: i32,
    pub best_ask_cents: i32,
    pub trade_price_cents: i32,
}

/// The step number doubled still fits in an `i32`, and so do the book's
/// prices around the mid.
pub open spec fn tick_in_range(idx: usize, jitter: i32) -> bool {
    &&& -0x4000_0000 <= (idx as i32) < 0x4000_0000
    &&& i32::MIN + 2 <= spec_tick_mid(idx, jitter) <= i32::MAX - 2
}

/// The prices of simulated step `idx` given the step's random jitter in cents.
pub fn tick_prices(idx: usize, jitter: i32) -> (res: TickPrices)
    requires
        tick_in_range(idx, jitter),
    ensures
        res.trade_price_cents == spec_tick_mid(idx, jitter),
        res.best_bid_cents == spec_tick_mid(idx, jitter) - 2,
        res.best_ask_cents == spec_tick_mid(idx, jitter) + 2,
        idx < 0x4000_0000 ==> res.trade_price_cents == 50 + 2 * (idx % 5) + jitter,
{
    proof {
        if idx < 0x4000_0000 {
            lemma_tick_mid_cycle(idx, jitter);
        }
    }
    let step: i32 = idx as i32;
    let mid = 50 + (step * 2) % 10 + jitter;
    TickPrices { best_bid_cents: mid - 2, best_ask_cents: mid + 2, trade_price_cents: mid }
}

/// Step by step the mid climbs two cents, in a cycle of five steps: at step
/// `idx` it is 50 + 2·(idx mod 5) plus the jitter.
pub proof fn lemma_tick_mid_cycle(idx: usize, jitter: i32)
    requires
        idx < 0x4000_0000,
    ensures
        spec_tick_mid(idx, jitter) == 50 + 2 * (idx % 5) + jitter,
{
    assert((idx as i32) == idx) by (bit_vector)
        requires
            idx < 0x4000_0000,
    ;
    assert((2 * idx) % 10 == 2 * (idx % 5)) by (nonlinear_arith)
        requires
            idx >= 0,
    ;
}

/// Over the steps of a simulated run and the jitter it draws (-2 to 2 cents),
/// the mid stays between 48 and 60 cents.
pub proof fn lemma_tick_mid_bounds(idx: usize, jitter: i32)
    requires
        idx < 0x4000_0000,
        -2 <= jitter < 3,
    ensures
        48 <= spec_tick_mid(idx, jitter) <= 60,
{
    assert((idx as i32) == idx) by (bit_vector)
        requires
            idx < 0x4000_0000,
    ;
}

} // verus!
