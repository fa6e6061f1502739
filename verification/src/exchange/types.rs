use vstd::prelude::*;
use crate::util::time::UnixTime;

verus! {

/// The side of an order or a fill.
#[derive(Debug, Clone, Copy, PartialEq, Eq, Structural)]
pub enum Side {
    Buy,
    Sell,
}

impl Side {
    /// The opposite side.
    pub open spec fn spec_invert(self) -> Side {
        match self {
            Side::Buy => Side::Sell,
            Side::Sell => Side::Buy,
        }
    }

    /// Returns the opposite side: a buy becomes a sell and a sell a buy.
    pub fn invert(self) -> (res: Side)
        ensures
            res == self.spec_invert(),
            res != self,
    {
        match self {
            Side::Buy => Side::Sell,
            Side::Sell => Side::Buy,
        }
    }
}

/// Inverting a side twice gives the side back.
pub proof fn lemma_invert_involution(side: Side)
    ensures
        side.spec_invert().spec_invert() == side,
{
}

} // verus!

verus! {

/// Lifecycle state of a market.
#[derive(Debug, Clone, Copy, PartialEq, Eq, Structural)]
pub enum MarketStatus {
    Open,
    Closed,
    Resolved,
}

/// Whether a fill took or made liquidity.
#[derive(Debug, Clone, Copy, PartialEq, Eq, Structural)]
pub enum TakerMaker {
    Taker,
    Maker,
}

/// A prediction market as the data source lists it.
#[derive(Debug, Clone)]
pub struct Market {
    pub id: String,
    pub question: String,
    pub category: Option<String>,
    pub created_ts: UnixTime,
    pub resolution_ts: Option<UnixTime>,
    pub status: MarketStatus,
}

/// One outcome token of a market.
#[derive(Debug, Clone)]
pub struct Token {
    pub id: String,
    pub market_id: String,
    pub outcome: String,
}

/// Half of `sum` rounded toward zero, as integer division by two rounds.
pub open spec fn half_toward_zero(sum: int) -> int {
    if sum >= 0 {
        sum / 2
    } else {
        -((-sum) / 2)
    }
}

/// Both sides of the book are quoted and their sum fits in an `i32`.
pub open spec fn mid_computable(best_bid_cents: Option<i32>, best_ask_cents: Option<i32>) -> bool {
    match (best_bid_cents, best_ask_cents) {
        (Some(bid), Some(ask)) => i32::MIN <= bid + ask <= i32::MAX,
        _ => true,
    }
}

/// The mid price of a book in cents: the average of both sides (rounded
/// toward zero), the one quoted side alone, or nothing for an empty book.
pub open spec fn spec_mid_cents(best_bid_cents: Option<i32>, best_ask_cents: Option<i32>) -> Option<int> {
    match (best_bid_cents, best_ask_cents) {
        (Some(bid), Some(ask)) => Some(half_toward_zero(bid + ask)),
        (Some(bid), None) => Some(bid as int),
        (None, Some(ask)) => Some(ask as int),
        (None, None) => None,
    }
}

/// The mid price of an order book from its best bid and best ask in cents;
/// `None` for a book with neither side quoted.
pub fn mid_cents(best_bid_cents: Option<i32>, best_ask_cents: Option<i32>) -> (res: Option<i32>)
    requires
        mid_computable(best_bid_cents, best_ask_cents),
    ensures
        match res {
            Some(m) => spec_mid_cents(best_bid_cents, best_ask_cents) == Some(m as int),
            None => spec_mid_cents(best_bid_cents, best_ask_cents) is None,
        },
        best_bid_cents is Some && best_ask_cents is Some ==> (res matches Some(q) && halves_toward_zero(
            best_bid_cents->0 + best_ask_cents->0,
            q as int,
        )),
        best_bid_cents is Some && best_ask_cents is None ==> res == best_bid_cents,
        best_bid_cents is None && best_ask_cents is Some ==> res == best_ask_cents,
        best_bid_cents is None && best_ask_cents is None ==> res is None,
{
    match (best_bid_cents, best_ask_cents) {
        (Some(bid), Some(ask)) => Some((bid + ask) / 2),
        (Some(bid), None) => Some(bid),
        (None, Some(ask)) => Some(ask),
        (None, None) => None,
    }
}

/// `q` is `sum` halved and rounded toward zero: twice `q` is `sum` for an
/// even sum, and one less (positive sum) or one more (negative sum) for an
/// odd one.
pub open spec fn halves_toward_zero(sum: int, q: int) -> bool {
    &&& sum % 2 == 0 ==> 2 * q == sum
    &&& (sum % 2 != 0 && sum > 0) ==> 2 * q == sum - 1
    &&& (sum % 2 != 0 && sum < 0) ==> 2 * q == sum + 1
}

/// The mid of a two-sided book is the sum of its sides halved toward zero,
/// however wide the spread.
pub proof fn lemma_mid_halves_the_sum(bid: i32, ask: i32)
    ensures
        spec_mid_cents(Some(bid), Some(ask)) matches Some(q) && halves_toward_zero(bid + ask, q),
{
}

/// A one-sided book's mid is its quoted side; an empty book has none.
pub proof fn lemma_mid_of_one_side(price: i32)
    ensures
        spec_mid_cents(Some(price), None) == Some(price as int),
        spec_mid_cents(None, Some(price)) == Some(price as int),
        spec_mid_cents(None, None) is None,
{
}

/// For an uncrossed book the mid lies between the best bid and the best ask.
pub proof fn lemma_mid_between_sides(bid: i32, ask: i32)
    requires
        bid <= ask,
    ensures
        spec_mid_cents(Some(bid), Some(ask)) matches Some(m) && bid <= m <= ask,
{
}

/// The mid does not depend on which side is which.
pub proof fn lemma_mid_symmetric(bid: i32, ask: i32)
    ensures
        spec_mid_cents(Some(bid), Some(ask)) == spec_mid_cents(Some(ask), Some(bid)),
{
}

} // verus!
