use vstd::prelude::*;

verus! {

/// What a detected mispricing asks for.
#[derive(Debug, Clone, Copy, PartialEq, Eq, Structural)]
pub enum MispricingAction {
    BuyYes,
    SellYes,
    Flat,
}

} // verus!
