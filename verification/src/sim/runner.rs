use vstd::prelude::*;
use crate::exchange::types::Side;
use crate::strategy::mispricing::MispricingAction;

verus! {

/// Seed of the feed that every simulation replays.
pub const SIM_SEED: u64 = 1234;

/// Simulated feed steps per market.
pub const EVENTS_PER_MARKET: usize = 60;

/// How many markets a simulation runs: the requested count, and at least one.
pub fn markets_to_simulate(market_count: usize) -> (res: usize)
    ensures
        res == if market_count == 0 { 1 } else { market_count },
{
    if market_count == 0 {
        1
    } else {
        market_count
    }
}

/// The side on which a simulated signal sweeps the book: buy a cheap YES,
/// sell a rich one, stay out when flat.
pub fn sweep_side(action: MispricingAction) -> (res: Option<Side>)
    ensures
        res == match action {
            MispricingAction::BuyYes => Some(Side::Buy),
            MispricingAction::SellYes => Some(Side::Sell),
            MispricingAction::Flat => None::<Side>,
        },
{
    match action {
        MispricingAction::BuyYes => Some(Side::Buy),
        MispricingAction::SellYes => Some(Side::Sell),
        MispricingAction::Flat => None,
    }
}

} // verus!
