use polymarket_sweeper::config::{ExecutionConfig, TelemetryConfig};
use polymarket_sweeper::db::models::TokenRow;
use polymarket_sweeper::exchange::clob_rest::{LiveClobExec, OrderResponse};
use polymarket_sweeper::exchange::clob_ws::{fresh_trades, TradeWatermarks};
use polymarket_sweeper::exchange::data_api::{
    market_id_of_token, mock_markets, outcome_tokens, unique_token_ids, MockCatalogue,
};
use polymarket_sweeper::telemetry::Metrics;
use polymarket_sweeper::exchange::types::{mid_cents, MarketStatus, Side, TakerMaker, Token};
use polymarket_sweeper::sim::feed::{tick_prices, HistoricalFeed};
use polymarket_sweeper::sim::runner::{markets_to_simulate, EVENTS_PER_MARKET, SIM_SEED};
use polymarket_sweeper::strategy::agent::{
    ingest_stats, within_window, within_window_at, EventBudget, IngestStats, MAX_EVENTS_PER_RUN,
};
use polymarket_sweeper::strategy::mispricing::MispricingAction;
use polymarket_sweeper::util::time::{
    elapsed_nanos_between, seconds_of_day, unix_time_from_epoch_offset, utc_now, UnixTime,
};

#[test]
fn invert_swaps_sides() {
    assert_eq!(Side::Buy.invert(), Side::Sell);
    assert_eq!(Side::Sell.invert(), Side::Buy);
    assert_eq!(Side::Buy.invert().invert(), Side::Buy);
}

#[test]
fn mid_of_two_sided_book() {
    assert_eq!(mid_cents(Some(48), Some(52)), Some(50));
    assert_eq!(mid_cents(Some(49), Some(52)), Some(50));
    assert_eq!(mid_cents(Some(52), Some(49)), Some(50));
}

#[test]
fn mid_rounds_toward_zero_for_negative_sums() {
    assert_eq!(mid_cents(Some(-3), Some(0)), Some(-1));
    assert_eq!(mid_cents(Some(-3), Some(-2)), Some(-2));
}

#[test]
fn mid_of_one_sided_and_empty_books() {
    assert_eq!(mid_cents(Some(41), None), Some(41));
    assert_eq!(mid_cents(None, Some(77)), Some(77));
    assert_eq!(mid_cents(None, None), None);
}

#[test]
fn fresh_trades_sorted_by_time_ties_in_batch_order() {
    let ts = vec![300, 100, 200, 100, 50];
    let (order, next) = fresh_trades(&ts, Some(60));
    assert_eq!(order, vec![1, 3, 2, 0]);
    assert_eq!(next, Some(300));
}

#[test]
fn fresh_trades_without_watermark_reads_zero() {
    let ts = vec![-5, 0, 7, 3];
    let (order, next) = fresh_trades(&ts, None);
    assert_eq!(order, vec![3, 2]);
    assert_eq!(next, Some(7));
}

#[test]
fn fresh_trades_nothing_new_keeps_watermark() {
    let ts = vec![10, 20, 30];
    let (order, next) = fresh_trades(&ts, Some(30));
    assert!(order.is_empty());
    assert_eq!(next, None);
    let (order, next) = fresh_trades(&Vec::new(), Some(5));
    assert!(order.is_empty());
    assert_eq!(next, None);
}

#[test]
fn batch_delivered_once() {
    let ts = vec![5, 9, 9, 1];
    let (first, next) = fresh_trades(&ts, Some(2));
    assert_eq!(first, vec![0, 1, 2]);
    let (again, after) = fresh_trades(&ts, next);
    assert!(again.is_empty());
    assert_eq!(after, None);
}

#[test]
fn market_id_is_text_before_first_dash() {
    assert_eq!(market_id_of_token("m3-yes"), "m3");
    assert_eq!(market_id_of_token("sim-market-0-yes"), "sim");
    assert_eq!(market_id_of_token("nodash"), "nodash");
    assert_eq!(market_id_of_token("-no"), "");
    assert_eq!(market_id_of_token(""), "");
    assert_eq!(market_id_of_token("é-ü"), "é");
}

#[test]
fn seconds_of_day_wraps_negative_times() {
    assert_eq!(seconds_of_day(0), 0);
    assert_eq!(seconds_of_day(86_401), 1);
    assert_eq!(seconds_of_day(-1), 86_399);
    assert_eq!(seconds_of_day(-86_400), 0);
}

#[test]
fn elapsed_counts_whole_and_fractional_seconds() {
    let earlier = UnixTime { secs: 100, nanos: 900_000_000 };
    let later = UnixTime { secs: 102, nanos: 100_000_000 };
    assert_eq!(elapsed_nanos_between(later, earlier), 1_200_000_000);
    assert_eq!(elapsed_nanos_between(earlier, later), -1_200_000_000);
}

#[test]
fn elapsed_counts_leap_second() {
    // 23:59:60.5 of day 0 is held as second 86399 with 1.5 s of fraction.
    let leap = UnixTime { secs: 86_399, nanos: 1_500_000_000 };
    let next_day = UnixTime { secs: 86_401, nanos: 0 };
    // Time of day of the later instant (1) is below that of the leap instant.
    assert_eq!(elapsed_nanos_between(next_day, leap), 500_000_000);
    let before = UnixTime { secs: 86_398, nanos: 0 };
    assert_eq!(elapsed_nanos_between(leap, before), 2_500_000_000);
}

#[test]
fn within_window_at_boundary() {
    let created = UnixTime { secs: 1_000, nanos: 0 };
    let exactly = UnixTime { secs: 1_000 + 120 * 60, nanos: 0 };
    let just_after = UnixTime { secs: 1_000 + 120 * 60, nanos: 1 };
    assert!(within_window_at(created, exactly, 120));
    assert!(!within_window_at(created, just_after, 120));
    assert!(within_window_at(created, created, 0));
    // A market created in the future is young enough.
    assert!(within_window_at(just_after, created, 0));
}

#[test]
fn within_window_wrapped_minutes_are_negative() {
    let created = UnixTime { secs: 1_000, nanos: 0 };
    // u64::MAX read as i64 is -1 minute: only markets created a minute or
    // more in the future qualify.
    let now = UnixTime { secs: 1_000, nanos: 0 };
    assert!(!within_window_at(created, now, u64::MAX));
    let later_created = UnixTime { secs: 1_060, nanos: 0 };
    assert!(within_window_at(later_created, now, u64::MAX));
}

#[test]
fn within_window_uses_the_clock() {
    let now = chrono::Utc::now();
    let recent = UnixTime { secs: now.timestamp() - 60, nanos: 0 };
    let old = UnixTime { secs: now.timestamp() - 3 * 3600, nanos: 0 };
    assert_eq!(within_window(recent, 120), Some(true));
    assert_eq!(within_window(old, 120), Some(false));
}

#[test]
fn event_budget_stops_after_limit() {
    let mut budget = EventBudget::new();
    assert_eq!(budget.processed, 0);
    for _ in 0..MAX_EVENTS_PER_RUN {
        assert!(!budget.record_event());
    }
    assert!(budget.record_event());
    assert_eq!(budget.processed, 201);
}

#[test]
fn ingest_counts_markets_and_tokens() {
    assert_eq!(ingest_stats(5, &vec![2, 2, 2, 2, 2]), IngestStats { rows: 15 });
    assert_eq!(ingest_stats(0, &Vec::new()).rows, 0);
    assert_eq!(ingest_stats(3, &vec![0, 4, 1]).rows, 8);
}

#[test]
fn tick_prices_follow_step_and_jitter() {
    let p = tick_prices(0, 0);
    assert_eq!(p.trade_price_cents, 50);
    assert_eq!(p.best_bid_cents, 48);
    assert_eq!(p.best_ask_cents, 52);
    let p = tick_prices(3, -2);
    assert_eq!(p.trade_price_cents, 54);
    let p = tick_prices(7, 2);
    assert_eq!(p.trade_price_cents, 56);
}

#[test]
fn simulation_runs_at_least_one_market() {
    assert_eq!(markets_to_simulate(0), 1);
    assert_eq!(markets_to_simulate(2), 2);
    assert_eq!(SIM_SEED, 1234);
    assert_eq!(EVENTS_PER_MARKET, 60);
}

#[test]
fn feed_keeps_its_seed() {
    let feed = HistoricalFeed::new(42);
    assert_eq!(feed.seed(), 42);
}

#[test]
fn config_defaults() {
    let exec = ExecutionConfig::default();
    assert_eq!(exec.latency_target_ms, 50);
    assert_eq!(exec.cancel_backoff_ms, 100);
    assert_eq!(TelemetryConfig::default().prom_port, 9108);
}

#[test]
fn plain_types_carry_their_fields() {
    let token = Token { id: "m0-yes".to_string(), market_id: "m0".to_string(), outcome: "Yes".to_string() };
    assert_eq!(market_id_of_token(&token.id), token.market_id);
    let row = TokenRow { id: token.id.clone(), market_id: token.market_id.clone(), outcome: token.outcome.clone() };
    assert_eq!(row.outcome, "Yes");
    let resp = OrderResponse { order_id: "abc".to_string() };
    assert_eq!(resp.order_id, "abc");
    let _live = LiveClobExec;
    assert_ne!(MarketStatus::Open, MarketStatus::Closed);
    assert_ne!(TakerMaker::Taker, TakerMaker::Maker);
    assert_ne!(MispricingAction::BuyYes, MispricingAction::Flat);
}

#[test]
fn outcome_tokens_read_back_their_market() {
    let tokens = outcome_tokens("m4");
    assert_eq!(tokens.len(), 2);
    assert_eq!(tokens[0].id, "m4-yes");
    assert_eq!(tokens[0].outcome, "Yes");
    assert_eq!(tokens[1].id, "m4-no");
    assert_eq!(tokens[1].outcome, "No");
    for token in &tokens {
        assert_eq!(token.market_id, "m4");
        assert_eq!(market_id_of_token(&token.id), token.market_id);
    }
}

#[test]
fn tick_mid_stays_in_band() {
    for idx in 0..EVENTS_PER_MARKET {
        for jitter in -2..3 {
            let p = tick_prices(idx, jitter);
            assert!((48..=60).contains(&p.trade_price_cents));
            assert_eq!(p.best_ask_cents - p.best_bid_cents, 4);
        }
    }
}

#[test]
fn widening_window_keeps_market() {
    let created = UnixTime { secs: 0, nanos: 0 };
    let now = UnixTime { secs: 30 * 60, nanos: 5 };
    assert!(!within_window_at(created, now, 30));
    assert!(within_window_at(created, now, 31));
    assert!(within_window_at(created, now, 120));
}

#[test]
fn watermark_moves_forward() {
    let ts = vec![7, 3, 11];
    let (_, next) = fresh_trades(&ts, Some(4));
    assert_eq!(next, Some(11));
    assert!(next.unwrap() > 4);
}

#[test]
fn watermarks_deliver_each_batch_once_per_token() {
    let mut marks = TradeWatermarks::new();
    assert_eq!(marks.watermark("m0-yes"), None);
    let batch = vec![1_000, 3_000, 2_000];
    assert_eq!(marks.poll("m0-yes", &batch), vec![0, 2, 1]);
    assert_eq!(marks.watermark("m0-yes"), Some(3_000));
    assert!(marks.poll("m0-yes", &batch).is_empty());
    assert_eq!(marks.watermark("m0-yes"), Some(3_000));
    // Another token has its own watermark.
    assert_eq!(marks.poll("m0-no", &batch), vec![0, 2, 1]);
    assert_eq!(marks.watermark("m0-no"), Some(3_000));
    // A newer batch delivers only what is newer.
    let newer = vec![2_500, 4_000, 3_000, 5_000];
    assert_eq!(marks.poll("m0-yes", &newer), vec![1, 3]);
    assert_eq!(marks.watermark("m0-yes"), Some(5_000));
}

#[test]
fn watermarks_skip_trades_at_or_before_zero_for_new_tokens() {
    let mut marks = TradeWatermarks::new();
    assert_eq!(marks.poll("t", &vec![0, -1]), Vec::<usize>::new());
    assert_eq!(marks.watermark("t"), None);
}

#[test]
fn clock_reads_after_epoch() {
    let now = utc_now().expect("clock after the epoch");
    let reference = chrono::Utc::now().timestamp();
    assert!(now.secs > 1_600_000_000);
    assert!((now.secs - reference).abs() <= 5);
    assert!(now.nanos < 1_000_000_000);
}

#[test]
fn mock_markets_catalogue() {
    let now = UnixTime { secs: 1_700_000_000, nanos: 250 };
    let markets = mock_markets(now);
    assert_eq!(markets.len(), 5);
    for (i, m) in markets.iter().enumerate() {
        assert_eq!(m.id, format!("m{}", i));
        assert_eq!(m.question, format!("Will BTC close above {} by end of week?", 40_000 + i * 500));
        assert_eq!(m.category.as_deref(), Some("Crypto"));
        assert_eq!(m.created_ts, UnixTime { secs: 1_700_000_000 - (10 + i as i64) * 60, nanos: 250 });
        assert_eq!(m.resolution_ts, Some(UnixTime { secs: 1_700_000_000 + 7 * 86_400, nanos: 250 }));
        assert_eq!(m.status, MarketStatus::Open);
    }
    assert_eq!(markets[4].question, "Will BTC close above 42000 by end of week?");
}

#[test]
fn catalogue_lists_tokens_of_known_markets_only() {
    let catalogue = MockCatalogue::new(UnixTime { secs: 1_000_000, nanos: 0 });
    assert_eq!(catalogue.markets().len(), 5);
    let tokens = catalogue.tokens_for_market("m2");
    assert_eq!(tokens.len(), 2);
    assert_eq!(tokens[0].id, "m2-yes");
    assert_eq!(tokens[1].id, "m2-no");
    assert_eq!(market_id_of_token(&tokens[1].id), "m2");
    assert!(catalogue.tokens_for_market("m9").is_empty());
    assert!(catalogue.tokens_for_market("").is_empty());
}

#[test]
fn token_ids_gathered_once_each() {
    let mut per_market = vec![outcome_tokens("m0"), outcome_tokens("m1"), outcome_tokens("m0"), Vec::new()];
    per_market[3].push(Token { id: "m1-yes".to_string(), market_id: "m1".to_string(), outcome: "Yes".to_string() });
    let mut ids = unique_token_ids(&per_market);
    assert_eq!(ids.len(), 4);
    ids.sort();
    assert_eq!(ids, vec!["m0-no", "m0-yes", "m1-no", "m1-yes"]);
    assert!(unique_token_ids(&Vec::new()).is_empty());
}

#[test]
fn metrics_register_six_names() {
    let metrics = Metrics::new().expect("register");
    metrics.orders_sent.counter.0.inc();
    metrics.pnl_cents.gauge.0.set(-5);
    let mut names: Vec<String> = metrics.registry().gather().iter().map(|f| f.get_name().to_string()).collect();
    names.sort();
    assert_eq!(
        names,
        vec!["cancels", "drawdown_pct", "fills", "orders_sent", "pnl_cents", "realized_spread_bps"]
    );
    assert_eq!(metrics.orders_sent.counter.0.get(), 1);
    assert_eq!(metrics.pnl_cents.gauge.0.get(), -5);
}

#[test]
fn epoch_offsets_become_instants() {
    assert_eq!(unix_time_from_epoch_offset(Some((5, 7))), Some(UnixTime { secs: 5, nanos: 7 }));
    assert_eq!(
        unix_time_from_epoch_offset(Some((i64::MAX as u64, 0))),
        Some(UnixTime { secs: i64::MAX, nanos: 0 })
    );
    assert_eq!(unix_time_from_epoch_offset(Some((i64::MAX as u64 + 1, 0))), None);
    assert_eq!(unix_time_from_epoch_offset(None), None);
}
