use vstd::prelude::*;
use vstd::hash_map::StringHashMap;
use vstd::string::*;

verus! {

/// The watermark of a token that has delivered no trade yet.
pub open spec fn effective_watermark(watermark: Option<i64>) -> i64 {
    match watermark {
        Some(w) => w,
        None => 0,
    }
}

/// Trade `i` of a batch is newer than the watermark and must be delivered.
pub open spec fn is_fresh(ts_millis: Seq<i64>, watermark: i64, i: int) -> bool {
    0 <= i < ts_millis.len() && ts_millis[i] > watermark
}

/// Delivery order of a batch: by timestamp, ties kept in batch order.
pub open spec fn delivered_before(ts_millis: Seq<i64>, a: int, b: int) -> bool {
    ts_millis[a] < ts_millis[b] || (ts_millis[a] == ts_millis[b] && a < b)
}

/// `order` lists the positions of the fresh trades of the batch, each once,
/// in delivery order.
pub open spec fn is_delivery_order(ts_millis: Seq<i64>, watermark: i64, order: Seq<usize>) -> bool {
    &&& forall|k: int| 0 <= k < order.len() ==> is_fresh(ts_millis, watermark, #[trigger] order[k] as int)
    &&& forall|i: int| is_fresh(ts_millis, watermark, i) ==> exists|k: int| 0 <= k < order.len() && #[trigger] order[k] == i
    &&& forall|a: int, b: int| 0 <= a < b < order.len() ==> delivered_before(ts_millis, #[trigger] order[a] as int, #[trigger] order[b] as int)
}

/// The watermark after a batch: the newest delivered timestamp, or no change
/// when nothing was delivered.
pub open spec fn is_next_watermark(ts_millis: Seq<i64>, watermark: i64, next: Option<i64>) -> bool {
    match next {
        None => forall|i: int| !is_fresh(ts_millis, watermark, i),
        Some(m) => {
            &&& exists|i: int| is_fresh(ts_millis, watermark, i) && ts_millis[i] == m
            &&& forall|i: int| is_fresh(ts_millis, watermark, i) ==> ts_millis[i] <= m
        },
    }
}

/// Picks, out of a polled batch of trades given by their timestamps in
/// milliseconds, the trades newer than the token's watermark (`None`: no trade
/// seen yet, read as 0), in the order they are delivered: sorted by timestamp,
/// equal timestamps in batch order. Also returns the token's new watermark,
/// the newest delivered timestamp, or `None` when nothing is delivered (the
/// stored watermark then stays as it was).
pub fn fresh_trades(ts_millis: &Vec<i64>, watermark: Option<i64>) -> (res: (Vec<usize>, Option<i64>))
    ensures
        is_delivery_order(ts_millis@, effective_watermark(watermark), res.0@),
        is_next_watermark(ts_millis@, effective_watermark(watermark), res.1),
{
    let w: i64 = match watermark {
        Some(w) => w,
        None => 0,
    };
    let ghost ts = ts_millis@;
    let n = ts_millis.len();
    let mut order: Vec<usize> = Vec::new();
    for i in 0..n
        invariant
            n == ts.len(),
            ts == ts_millis@,
            w == effective_watermark(watermark),
            forall|k: int| 0 <= k < order.len() ==> #[trigger] order[k] < i && is_fresh(ts, w, order[k] as int),
            forall|j: int| 0 <= j < i && is_fresh(ts, w, j) ==> exists|k: int| 0 <= k < order.len() && #[trigger] order[k] == j,
            forall|a: int, b: int| 0 <= a < b < order.len() ==> delivered_before(ts, #[trigger] order[a] as int, #[trigger] order[b] as int),
    {
        let t = ts_millis[i];
        if t > w {
            let mut p: usize = 0;
            while p < order.len() && ts_millis[order[p]] <= t
                invariant
                    p <= order.len(),
                    forall|k: int| 0 <= k < order.len() ==> #[trigger] order[k] < i && is_fresh(ts, w, order[k] as int),
                    forall|q: int| 0 <= q < p ==> ts[#[trigger] order[q] as int] <= t,
                    n == ts.len(),
                    ts == ts_millis@,
                    t == ts[i as int],
                decreases order.len() - p,
            {
                p = p + 1;
            }
            let ghost old_order = order@;
            assert forall|q: int| p <= q < old_order.len() implies ts[#[trigger] old_order[q] as int] > t by {
                if q > p {
                    assert(delivered_before(ts, old_order[p as int] as int, old_order[q] as int));
                }
            }
            order.insert(p, i);
            proof {
                old_order.insert_ensures(p as int, i);
                assert forall|k: int| 0 <= k < order.len() implies #[trigger] order[k] < i + 1 && is_fresh(ts, w, order[k] as int) by {
                    if k < p {
                        assert(order[k] == old_order[k]);
                    } else if k > p {
                        assert(order[k] == old_order[k - 1]);
                    }
                }
                assert forall|j: int| 0 <= j < i + 1 && is_fresh(ts, w, j) implies exists|k: int| 0 <= k < order.len() && #[trigger] order[k] == j by {
                    if j == i {
                        assert(order[p as int] == j);
                    } else {
                        let k0 = choose|k: int| 0 <= k < old_order.len() && #[trigger] old_order[k] == j;
                        if k0 < p {
                            assert(order[k0] == j);
                        } else {
                            assert(order[k0 + 1] == j);
                        }
                    }
                }
                assert forall|a: int, b: int| 0 <= a < b < order.len() implies delivered_before(ts, #[trigger] order[a] as int, #[trigger] order[b] as int) by {
                    if b < p {
                        assert(order[a] == old_order[a] && order[b] == old_order[b]);
                    } else if b == p {
                        assert(order[a] == old_order[a]);
                    } else if a < p {
                        assert(order[a] == old_order[a] && order[b] == old_order[b - 1]);
                    } else if a == p {
                        assert(order[b] == old_order[b - 1]);
                    } else {
                        assert(order[a] == old_order[a - 1] && order[b] == old_order[b - 1]);
                    }
                }
            }
        }
    }
    let len = order.len();
    let next = if len == 0 {
        None
    } else {
        Some(ts_millis[order[len - 1]])
    };
    proof {
        if len == 0 {
            assert forall|i: int| !is_fresh(ts, w, i) by {
                if is_fresh(ts, w, i) {
                    let k = choose|k: int| 0 <= k < order.len() && #[trigger] order[k] == i;
                }
            }
        } else {
            let last = order[len - 1] as int;
            assert(is_fresh(ts, w, last));
            assert forall|i: int| is_fresh(ts, w, i) implies ts[i] <= ts[last] by {
                let k = choose|k: int| 0 <= k < order.len() && #[trigger] order[k] == i;
                if k < len - 1 {
                    assert(delivered_before(ts, order[k] as int, order[len - 1] as int));
                }
            }
        }
    }
    (order, next)
}

/// The watermark stored for a token after a batch: the new one, or the old
/// one where the batch delivered nothing.
pub open spec fn stored_watermark(old_watermark: Option<i64>, next: Option<i64>) -> Option<i64> {
    match next {
        Some(m) => Some(m),
        None => old_watermark,
    }
}

/// A batch is delivered once: polled again against the watermark stored
/// after it, the same batch delivers nothing.
pub proof fn lemma_batch_delivered_once(ts_millis: Seq<i64>, watermark: Option<i64>, next: Option<i64>)
    requires
        is_next_watermark(ts_millis, effective_watermark(watermark), next),
    ensures
        forall|i: int| !is_fresh(ts_millis, effective_watermark(stored_watermark(watermark, next)), i),
{
    match next {
        Some(m) => {
            assert forall|i: int| !is_fresh(ts_millis, m, i) by {
                if is_fresh(ts_millis, m, i) {
                    assert(is_fresh(ts_millis, effective_watermark(watermark), i));
                }
            }
        },
        None => {},
    }
}

/// The watermark of a token only moves forward.
pub proof fn lemma_watermark_advances(ts_millis: Seq<i64>, watermark: Option<i64>, next: Option<i64>)
    requires
        is_next_watermark(ts_millis, effective_watermark(watermark), next),
    ensures
        next matches Some(m) ==> m > effective_watermark(watermark),
{
}

/// A batch has one delivery order: any two orders that list its fresh trades
/// sorted by timestamp, ties in batch order, are the same.
pub proof fn lemma_delivery_order_unique(ts_millis: Seq<i64>, watermark: i64, first: Seq<usize>, second: Seq<usize>)
    requires
        is_delivery_order(ts_millis, watermark, first),
        is_delivery_order(ts_millis, watermark, second),
    ensures
        first == second,
{
    let n = if first.len() < second.len() { first.len() } else { second.len() };
    assert forall|k: int| 0 <= k < n implies first[k] == second[k] by {
        lemma_delivery_prefix_agrees(ts_millis, watermark, first, second, k);
    }
    if first.len() < second.len() {
        let x = second[n as int];
        assert(is_fresh(ts_millis, watermark, x as int));
        let q = choose|q: int| 0 <= q < first.len() && #[trigger] first[q] == x;
        assert(first[q] == second[q]);
        assert(delivered_before(ts_millis, second[q] as int, second[n as int] as int));
    } else if second.len() < first.len() {
        let x = first[n as int];
        assert(is_fresh(ts_millis, watermark, x as int));
        let q = choose|q: int| 0 <= q < second.len() && #[trigger] second[q] == x;
        assert(first[q] == second[q]);
        assert(delivered_before(ts_millis, first[q] as int, first[n as int] as int));
    }
    assert(first =~= second);
}

/// Two delivery orders of one batch agree up to any position both reach.
proof fn lemma_delivery_prefix_agrees(ts_millis: Seq<i64>, watermark: i64, first: Seq<usize>, second: Seq<usize>, k: int)
    requires
        is_delivery_order(ts_millis, watermark, first),
        is_delivery_order(ts_millis, watermark, second),
        0 <= k < first.len(),
        k < second.len(),
    ensures
        first[k] == second[k],
    decreases k,
{
    assert forall|j: int| 0 <= j < k implies first[j] == second[j] by {
        lemma_delivery_prefix_agrees(ts_millis, watermark, first, second, j);
    }
    let a = first[k];
    let b = second[k];
    assert(is_fresh(ts_millis, watermark, a as int));
    assert(is_fresh(ts_millis, watermark, b as int));
    let p = choose|p: int| 0 <= p < second.len() && #[trigger] second[p] == a;
    let q = choose|q: int| 0 <= q < first.len() && #[trigger] first[q] == b;
    if p < k {
        assert(first[p] == second[p]);
        assert(delivered_before(ts_millis, first[p] as int, first[k] as int));
    }
    if q < k {
        assert(first[q] == second[q]);
        assert(delivered_before(ts_millis, second[q] as int, second[k] as int));
    }
    if p > k && q > k {
        assert(delivered_before(ts_millis, second[k] as int, second[p] as int));
        assert(delivered_before(ts_millis, first[k] as int, first[q] as int));
    }
}

/// The watermark a token has stored, if any.
pub open spec fn stored_for(marks: Map<Seq<char>, i64>, token: Seq<char>) -> Option<i64> {
    if marks.contains_key(token) {
        Some(marks[token])
    } else {
        None
    }
}

/// One poll of a token: `order` delivers the batch's trades newer than the
/// token's stored watermark, and the token's watermark moves to the newest
/// delivered timestamp; nothing else changes.
pub open spec fn is_poll_step(
    before: Map<Seq<char>, i64>,
    token: Seq<char>,
    ts_millis: Seq<i64>,
    order: Seq<usize>,
    after: Map<Seq<char>, i64>,
) -> bool {
    let w = effective_watermark(stored_for(before, token));
    &&& is_delivery_order(ts_millis, w, order)
    &&& (forall|i: int| !is_fresh(ts_millis, w, i)) ==> after == before
    &&& (exists|i: int| is_fresh(ts_millis, w, i)) ==> exists|m: i64|
        is_next_watermark(ts_millis, w, Some(m)) && after == before.insert(token, m)
}

/// Per-token watermarks of a polling market stream: the newest trade
/// timestamp in milliseconds delivered so far for each token.
pub struct TradeWatermarks {
    marks: StringHashMap<i64>,
}

impl View for TradeWatermarks {
    type V = Map<Seq<char>, i64>;

    closed spec fn view(&self) -> Map<Seq<char>, i64> {
        self.marks@
    }
}

impl TradeWatermarks {
    /// No token has delivered a trade yet.
    pub fn new() -> (res: TradeWatermarks)
        ensures
            res@ == Map::<Seq<char>, i64>::empty(),
    {
        TradeWatermarks { marks: StringHashMap::new() }
    }

    /// The watermark stored for `token`, if it has delivered a trade.
    pub fn watermark(&self, token: &str) -> (res: Option<i64>)
        ensures
            res == stored_for(self@, token@),
    {
        match self.marks.get(token) {
            Some(m) => Some(*m),
            None => None,
        }
    }

    /// Takes a polled batch of `token`'s trades, given by their timestamps in
    /// milliseconds, and returns the positions of the trades to deliver, in
    /// delivery order; records the newest delivered timestamp as the token's
    /// watermark.
    pub fn poll(&mut self, token: &str, ts_millis: &Vec<i64>) -> (order: Vec<usize>)
        ensures
            is_poll_step(old(self)@, token@, ts_millis@, order@, final(self)@),
    {
        let stored = self.watermark(token);
        let (order, next) = fresh_trades(ts_millis, stored);
        let ghost w = effective_watermark(stored);
        match next {
            Some(m) => {
                self.marks.insert(String::from_str(token), m);
                proof {
                    let i = choose|i: int| is_fresh(ts_millis@, w, i) && ts_millis@[i] == m;
                    assert(is_fresh(ts_millis@, w, i));
                }
            },
            None => {},
        }
        order
    }
}

/// Once polled, a batch is not delivered again: polled a second time for the
/// same token, the same trades give nothing.
pub proof fn lemma_poll_delivers_batch_once(
    before: Map<Seq<char>, i64>,
    token: Seq<char>,
    ts_millis: Seq<i64>,
    order: Seq<usize>,
    after: Map<Seq<char>, i64>,
    again: Seq<usize>,
    last: Map<Seq<char>, i64>,
)
    requires
        is_poll_step(before, token, ts_millis, order, after),
        is_poll_step(after, token, ts_millis, again, last),
    ensures
        again.len() == 0,
        last == after,
{
    let w = effective_watermark(stored_for(before, token));
    let w2 = effective_watermark(stored_for(after, token));
    assert forall|i: int| !is_fresh(ts_millis, w2, i) by {
        if exists|j: int| is_fresh(ts_millis, w, j) {
            let m = choose|m: i64| is_next_watermark(ts_millis, w, Some(m)) && after == before.insert(token, m);
            assert(stored_for(after, token) == Some(m));
            if is_fresh(ts_millis, m, i) {
                assert(is_fresh(ts_millis, w, i));
            }
        } else {
            assert(after == before);
        }
    }
    if again.len() > 0 {
        assert(is_fresh(ts_millis, w2, again[0] as int));
    }
}

/// A poll touches only the polled token's watermark.
pub proof fn lemma_poll_keeps_other_tokens(
    before: Map<Seq<char>, i64>,
    token: Seq<char>,
    ts_millis: Seq<i64>,
    order: Seq<usize>,
    after: Map<Seq<char>, i64>,
    other: Seq<char>,
)
    requires
        is_poll_step(before, token, ts_millis, order, after),
        other != token,
    ensures
        stored_for(after, other) == stored_for(before, other),
{
    let w = effective_watermark(stored_for(before, token));
    if exists|j: int| is_fresh(ts_millis, w, j) {
        let m = choose|m: i64| is_next_watermark(ts_millis, w, Some(m)) && after == before.insert(token, m);
    }
}

} // verus!
