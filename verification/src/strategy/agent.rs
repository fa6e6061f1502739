use vstd::prelude::*;
use crate::util::time::{elapsed_nanos, elapsed_nanos_between, utc_now, UnixTime};

verus! {

/// Events an agent run handles before it stops: the run stops once more than
/// this many have arrived.
pub const MAX_EVENTS_PER_RUN: u32 = 200;

/// The window length in minutes as a signed count: the configured `u64` read
/// as an `i64`, so that values past `i64::MAX` wrap to negative minutes.
pub open spec fn signed_minutes(window_minutes: u64) -> int {
    if window_minutes <= i64::MAX {
        window_minutes as int
    } else {
        window_minutes - 0x1_0000_0000_0000_0000int
    }
}

/// A window whose length in seconds is a duration chrono can hold
/// (at most `i64::MAX` milliseconds either way).
pub open spec fn window_in_range(window_minutes: u64) -> bool {
    let secs = signed_minutes(window_minutes) * 60;
    -(i64::MAX / 1000) <= secs <= i64::MAX / 1000
}

/// A market created at `created` is still in its discovery window at `now`:
/// its age is at most the window.
pub open spec fn spec_within_window(created: UnixTime, now: UnixTime, window_minutes: u64) -> bool {
    elapsed_nanos(now, created) <= signed_minutes(window_minutes) * 60 * 1_000_000_000
}

/// Whether a market created at `created` is, at `now`, no older than
/// `window_minutes` minutes.
pub fn within_window_at(created: UnixTime, now: UnixTime, window_minutes: u64) -> (res: bool)
    requires
        window_in_range(window_minutes),
    ensures
        res == spec_within_window(created, now, window_minutes),
        res == (elapsed_nanos(now, created) <= signed_minutes(window_minutes) * 60_000_000_000),
        window_minutes <= i64::MAX ==> (res == (elapsed_nanos(now, created) <= window_minutes * 60_000_000_000)),
{
    let minutes: i128 = if window_minutes <= 0x7fff_ffff_ffff_ffff {
        window_minutes as i128
    } else {
        window_minutes as i128 - 0x1_0000_0000_0000_0000
    };
    let limit: i128 = minutes * 60 * 1_000_000_000;
    let age = elapsed_nanos_between(now, created);
    age <= limit
}

/// Whether a market created at `created` is, now (by the system clock), no
/// older than `window_minutes` minutes; `None` where the clock cannot be read
/// as a UTC instant (it reads before the Unix epoch).
pub fn within_window(created: UnixTime, window_minutes: u64) -> (res: Option<bool>)
    requires
        window_in_range(window_minutes),
    ensures
        res matches Some(inside) ==> exists|now: UnixTime|
            now.secs >= 0 && now.is_regular() && inside == spec_within_window(created, now, window_minutes)
                && inside == (elapsed_nanos(now, created) <= signed_minutes(window_minutes) * 60_000_000_000),
{
    match utc_now() {
        Some(now) => Some(within_window_at(created, now, window_minutes)),
        None => None,
    }
}

/// A market is inside its window exactly when its full age, the time from its
/// creation to `now`, is at most the window; a window past `i64::MAX` minutes
/// counts as negative.
pub proof fn lemma_within_window_is_age_at_most_window(created: UnixTime, now: UnixTime, window_minutes: u64)
    ensures
        spec_within_window(created, now, window_minutes) == (elapsed_nanos(now, created) <= signed_minutes(
            window_minutes,
        ) * 60_000_000_000),
        window_minutes <= i64::MAX ==> spec_within_window(created, now, window_minutes) == (elapsed_nanos(
            now,
            created,
        ) <= window_minutes * 60_000_000_000),
        window_minutes > i64::MAX ==> spec_within_window(created, now, window_minutes) == (elapsed_nanos(
            now,
            created,
        ) <= (window_minutes - 0x1_0000_0000_0000_0000int) * 60_000_000_000),
{
}

/// A market older than its window is outside it, at any age: for instants
/// outside leap seconds, one created more than `window_minutes` minutes
/// before `now` is out, and one created at most that long before is in.
pub proof fn lemma_window_by_whole_age(created: UnixTime, now: UnixTime, window_minutes: u64)
    requires
        created.is_regular(),
        now.is_regular(),
        window_minutes <= i64::MAX,
    ensures
        spec_within_window(created, now, window_minutes) == ((now.secs - created.secs) * 1_000_000_000
            + now.nanos - created.nanos <= window_minutes * 60_000_000_000),
{
    crate::util::time::lemma_elapsed_between_regular_instants(now, created);
}

/// A market never leaves a window by widening it.
pub proof fn lemma_window_monotone(created: UnixTime, now: UnixTime, narrow: u64, wide: u64)
    requires
        narrow <= wide <= i64::MAX,
        spec_within_window(created, now, narrow),
    ensures
        spec_within_window(created, now, wide),
{
    assert(signed_minutes(narrow) * 60 * 1_000_000_000 <= signed_minutes(wide) * 60 * 1_000_000_000) by (nonlinear_arith)
        requires
            signed_minutes(narrow) <= signed_minutes(wide),
    ;
}

/// A market seen at the instant it was created is in every window of zero or
/// more minutes.
pub proof fn lemma_new_market_within(created: UnixTime, window_minutes: u64)
    requires
        window_minutes <= i64::MAX,
    ensures
        spec_within_window(created, created, window_minutes),
{
    assert(signed_minutes(window_minutes) * 60 * 1_000_000_000 >= 0) by (nonlinear_arith)
        requires
            signed_minutes(window_minutes) >= 0,
    ;
}

/// Counts the feed events of an agent run and says when the run stops.
#[derive(Debug, Clone, Copy, PartialEq, Eq, Structural)]
pub struct EventBudget {
    pub processed: u32,
}

impl EventBudget {
    /// A run that has handled no event yet.
    pub fn new() -> (res: EventBudget)
        ensures
            res.processed == 0,
    {
        EventBudget { processed: 0 }
    }

    /// Counts one more handled event; returns whether the run must stop now,
    /// which is once more than `MAX_EVENTS_PER_RUN` events were handled.
    pub fn record_event(&mut self) -> (stop: bool)
        requires
            old(self).processed < u32::MAX,
        ensures
            final(self).processed == old(self).processed + 1,
            stop == (final(self).processed > MAX_EVENTS_PER_RUN),
    {
        self.processed = self.processed + 1;
        self.processed > MAX_EVENTS_PER_RUN
    }
}

/// Rows an ingest run reports: one per market plus one per token of each.
pub open spec fn spec_ingest_rows(market_count: nat, token_counts: Seq<usize>) -> int
    decreases token_counts.len(),
{
    if token_counts.len() == 0 {
        market_count as int
    } else {
        spec_ingest_rows(market_count, token_counts.drop_last()) + token_counts.last()
    }
}

/// The result of an ingest run.
#[derive(Debug, Clone, Copy, PartialEq, Eq, Structural)]
pub struct IngestStats {
    pub rows: usize,
}

/// The statistics of an ingest run over `market_count` markets whose token
/// lists had `token_counts` entries each.
pub fn ingest_stats(market_count: usize, token_counts: &Vec<usize>) -> (res: IngestStats)
    requires
        spec_ingest_rows(market_count as nat, token_counts@) <= usize::MAX,
    ensures
        res.rows == spec_ingest_rows(market_count as nat, token_counts@),
        res.rows == market_count + total_tokens(token_counts@),
{
    proof {
        lemma_ingest_rows_total(market_count as nat, token_counts@);
    }
    let mut rows = market_count;
    let n = token_counts.len();
    for i in 0..n
        invariant
            n == token_counts@.len(),
            rows == spec_ingest_rows(market_count as nat, token_counts@.take(i as int)),
            spec_ingest_rows(market_count as nat, token_counts@) <= usize::MAX,
    {
        proof {
            assert(token_counts@.take(i + 1).drop_last() =~= token_counts@.take(i as int));
            lemma_ingest_rows_prefix(market_count as nat, token_counts@, i + 1);
        }
        rows = rows + token_counts[i];
    }
    proof {
        assert(token_counts@.take(n as int) =~= token_counts@);
    }
    IngestStats { rows }
}

/// The sum of a list of token counts.
pub open spec fn total_tokens(token_counts: Seq<usize>) -> int {
    token_counts.fold_left(0int, |acc: int, n: usize| acc + n)
}

/// Each market's token list adds its length to the rows, at any length of
/// the run.
pub proof fn lemma_ingest_rows_step(market_count: nat, token_counts: Seq<usize>, more: usize)
    ensures
        spec_ingest_rows(market_count, token_counts.push(more)) == spec_ingest_rows(market_count, token_counts)
            + more,
        spec_ingest_rows(market_count, Seq::<usize>::empty()) == market_count,
{
    assert(token_counts.push(more).drop_last() =~= token_counts);
}

/// An ingest run reports the markets plus the sum of all their token counts.
pub proof fn lemma_ingest_rows_total(market_count: nat, token_counts: Seq<usize>)
    ensures
        spec_ingest_rows(market_count, token_counts) == market_count + total_tokens(token_counts),
    decreases token_counts.len(),
{
    if token_counts.len() > 0 {
        lemma_ingest_rows_total(market_count, token_counts.drop_last());
    }
}

/// A prefix never counts more rows than the whole run.
proof fn lemma_ingest_rows_prefix(market_count: nat, token_counts: Seq<usize>, k: int)
    requires
        0 <= k <= token_counts.len(),
    ensures
        spec_ingest_rows(market_count, token_counts.take(k)) <= spec_ingest_rows(market_count, token_counts),
    decreases token_counts.len(),
{
    if k < token_counts.len() {
        assert(token_counts.drop_last().take(k) =~= token_counts.take(k));
        lemma_ingest_rows_prefix(market_count, token_counts.drop_last(), k);
    } else {
        assert(token_counts.take(k) =~= token_counts);
    }
}

} // verus!
