use vstd::prelude::*;

verus! {

/// A stored outcome token.
#[derive(Debug, Clone)]
pub struct TokenRow {
    pub id: String,
    pub market_id: String,
    pub outcome: String,
}

} // verus!
