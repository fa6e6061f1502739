use vstd::prelude::*;

verus! {

/// The exchange's answer to a placed order.
#[derive(Debug, Clone)]
pub struct OrderResponse {
    pub order_id: String,
}

/// Order execution against the live exchange, which is not wired up yet:
/// every request it gets is refused.
#[derive(Debug, Clone, Copy)]
pub struct LiveClobExec;

} // verus!
