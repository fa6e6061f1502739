use vstd::prelude::*;
use prometheus::Registry;

verus! {

/// `prometheus::Registry`, the collection the metrics are registered in.
#[verifier::external_type_specification]
#[verifier::external_body]
pub struct ExRegistry(prometheus::Registry);

/// `prometheus::Error`, why a metric could not be made or registered.
#[verifier::external_type_specification]
#[verifier::external_body]
pub struct ExPrometheusError(prometheus::Error);

/// A live integer counter, `prometheus::IntCounter`: a shared cell that the
/// registry reads when it gathers.
#[verifier::external_body]
pub struct IntCounterCell(pub prometheus::IntCounter);

/// A live integer gauge, `prometheus::IntGauge`: a shared cell that the
/// registry reads when it gathers.
#[verifier::external_body]
pub struct IntGaugeCell(pub prometheus::IntGauge);

/// A counter together with the name it is registered under.
pub struct CounterHandle {
    pub name: String,
    pub counter: IntCounterCell,
}

/// A gauge together with the name it is registered under.
pub struct GaugeHandle {
    pub name: String,
    pub gauge: IntGaugeCell,
}

/// The fully qualified names of the metrics of the collectors a registry
/// holds (its collectors by id; not its table of names by dimensions, which
/// may keep a name after a refused registration). A `Registry` is a shared
/// handle that any clone can register through; the library never clones one
/// and registers only through `&mut` in the wrappers below.
pub uninterp spec fn registered_names(registry: Registry) -> Set<Seq<char>>;

/// The descriptor id prometheus gives a metric of this fully qualified name
/// with no labels (a 64-bit FNV-1a hash of its bytes); the registry refuses a
/// second collector with an id it already holds.
pub uninterp spec fn metric_key(name: Seq<char>) -> u64;

/// Every collector registered in the registry is a single metric without
/// labels, and the registry's table of names by label dimensions lists exactly
/// the registered names: the state of a registry that only ever took such
/// metrics through the wrappers below.
pub uninterp spec fn holds_plain_metrics(registry: Registry) -> bool;

/// A first character of a metric name: an ASCII letter, `_` or `:`.
pub open spec fn is_metric_name_start(c: char) -> bool {
    ('a' <= c <= 'z') || ('A' <= c <= 'Z') || c == '_' || c == ':'
}

/// A metric name: not empty, a letter, `_` or `:` first, then letters,
/// digits, `_` or `:`.
pub open spec fn is_valid_metric_name(name: Seq<char>) -> bool {
    &&& name.len() > 0
    &&& is_metric_name_start(name[0])
    &&& forall|i: int| 1 <= i < name.len() ==> is_metric_name_start(#[trigger] name[i]) || ('0' <= name[i] <= '9')
}

/// A new registry through `prometheus::Registry::new`, which builds the
/// default registry: nothing registered.
#[verifier::external_body]
fn registry_new() -> (res: Registry)
    ensures
        registered_names(res) == Set::<Seq<char>>::empty(),
        holds_plain_metrics(res),
{
    Registry::new()
}

/// Makes an integer counter through `prometheus::IntCounter::new(name, help)`
/// and registers a handle to it through `Registry::register`. Making fails for
/// an empty help text or an invalid metric name. On a registry holding only
/// label-free metrics, registering fails exactly when a registered metric has
/// the new metric's descriptor id (in particular when the name is taken), and
/// leaves the registry as it was; otherwise it adds the name.
#[verifier::external_body]
fn register_new_counter(registry: &mut Registry, name: &str, help: &str) -> (res: Result<CounterHandle, prometheus::Error>)
    requires
        holds_plain_metrics(*old(registry)),
    ensures
        holds_plain_metrics(*final(registry)),
        res is Ok <==> (is_valid_metric_name(name@) && help@.len() > 0 && forall|n: Seq<char>|
            #[trigger] registered_names(*old(registry)).contains(n) ==> metric_key(n) != metric_key(name@)),
        res matches Ok(h) ==> h.name@ == name@,
        res is Ok ==> registered_names(*final(registry)) == registered_names(*old(registry)).insert(name@),
        res is Err ==> registered_names(*final(registry)) == registered_names(*old(registry)),
{
    let counter = prometheus::IntCounter::new(name, help)?;
    registry.register(Box::new(counter.clone()))?;
    Ok(CounterHandle { name: name.to_string(), counter: IntCounterCell(counter) })
}

/// Makes an integer gauge through `prometheus::IntGauge::new(name, help)` and
/// registers a handle to it through `Registry::register`, with the same
/// outcomes as for a counter.
#[verifier::external_body]
fn register_new_gauge(registry: &mut Registry, name: &str, help: &str) -> (res: Result<GaugeHandle, prometheus::Error>)
    requires
        holds_plain_metrics(*old(registry)),
    ensures
        holds_plain_metrics(*final(registry)),
        res is Ok <==> (is_valid_metric_name(name@) && help@.len() > 0 && forall|n: Seq<char>|
            #[trigger] registered_names(*old(registry)).contains(n) ==> metric_key(n) != metric_key(name@)),
        res matches Ok(h) ==> h.name@ == name@,
        res is Ok ==> registered_names(*final(registry)) == registered_names(*old(registry)).insert(name@),
        res is Err ==> registered_names(*final(registry)) == registered_names(*old(registry)),
{
    let gauge = prometheus::IntGauge::new(name, help)?;
    registry.register(Box::new(gauge.clone()))?;
    Ok(GaugeHandle { name: name.to_string(), gauge: IntGaugeCell(gauge) })
}

/// The metrics the sweeper exports, registered in one registry.
pub struct Metrics {
    pub registry: std::sync::Arc<Registry>,
    pub orders_sent: CounterHandle,
    pub cancels: CounterHandle,
    pub fills: CounterHandle,
    pub pnl_cents: GaugeHandle,
    pub realized_spread_bps: GaugeHandle,
    pub drawdown_pct: GaugeHandle,
}

impl View for Metrics {
    type V = Set<Seq<char>>;

    /// The names registered in the metrics' registry.
    open spec fn view(&self) -> Set<Seq<char>> {
        registered_names(*self.registry)
    }
}

/// The names of the exported metrics, in the order they are registered.
pub open spec fn exported_metric_names() -> Seq<Seq<char>> {
    seq![
        "orders_sent"@,
        "cancels"@,
        "fills"@,
        "pnl_cents"@,
        "realized_spread_bps"@,
        "drawdown_pct"@,
    ]
}

/// The exported names have pairwise different descriptor ids.
pub open spec fn exported_keys_distinct() -> bool {
    forall|i: int, j: int|
        0 <= i < j < 6 ==> metric_key(#[trigger] exported_metric_names()[i]) != metric_key(
            #[trigger] exported_metric_names()[j],
        )
}

/// The exported names are valid metric names.
proof fn lemma_exported_names_valid()
    ensures
        forall|i: int| 0 <= i < 6 ==> is_valid_metric_name(#[trigger] exported_metric_names()[i]),
{
    reveal_strlit("orders_sent");
    reveal_strlit("cancels");
    reveal_strlit("fills");
    reveal_strlit("pnl_cents");
    reveal_strlit("realized_spread_bps");
    reveal_strlit("drawdown_pct");
}

impl Metrics {
    /// Makes the six metrics (orders sent, cancels, fills, profit in cents,
    /// realized spread, drawdown), each under its own name, and registers them
    /// in a new registry; succeeds whenever their descriptor ids differ, and
    /// otherwise hands back the registry's refusal.
    pub fn new() -> (res: Result<Metrics, prometheus::Error>)
        ensures
            exported_keys_distinct() ==> res is Ok,
            res matches Ok(m) ==> {
                &&& m@ == exported_metric_names().to_set()
                &&& m.orders_sent.name@ == "orders_sent"@
                &&& m.cancels.name@ == "cancels"@
                &&& m.fills.name@ == "fills"@
                &&& m.pnl_cents.name@ == "pnl_cents"@
                &&& m.realized_spread_bps.name@ == "realized_spread_bps"@
                &&& m.drawdown_pct.name@ == "drawdown_pct"@
            },
    {
        proof {
            lemma_exported_names_valid();
            reveal_strlit("Total orders submitted");
            reveal_strlit("Total order cancels");
            reveal_strlit("Total fills observed");
            reveal_strlit("Current PnL in cents");
            reveal_strlit("Realized spread in basis points");
            reveal_strlit("Drawdown percentage scaled by 100");
        }
        let ghost names = exported_metric_names();
        assert(names[0] == "orders_sent"@ && names[1] == "cancels"@ && names[2] == "fills"@);
        assert(names[3] == "pnl_cents"@ && names[4] == "realized_spread_bps"@ && names[5] == "drawdown_pct"@);
        let mut registry = registry_new();
        let orders_sent = match register_new_counter(&mut registry, "orders_sent", "Total orders submitted") {
            Ok(c) => c,
            Err(e) => return Err(e),
        };
        assert(registered_names(registry) =~= set!["orders_sent"@]);
        let cancels = match register_new_counter(&mut registry, "cancels", "Total order cancels") {
            Ok(c) => c,
            Err(e) => return Err(e),
        };
        assert(registered_names(registry) =~= set!["orders_sent"@, "cancels"@]);
        let fills = match register_new_counter(&mut registry, "fills", "Total fills observed") {
            Ok(c) => c,
            Err(e) => return Err(e),
        };
        assert(registered_names(registry) =~= set!["orders_sent"@, "cancels"@, "fills"@]);
        let pnl_cents = match register_new_gauge(&mut registry, "pnl_cents", "Current PnL in cents") {
            Ok(g) => g,
            Err(e) => return Err(e),
        };
        assert(registered_names(registry) =~= set!["orders_sent"@, "cancels"@, "fills"@, "pnl_cents"@]);
        let realized_spread_bps = match register_new_gauge(
            &mut registry,
            "realized_spread_bps",
            "Realized spread in basis points",
        ) {
            Ok(g) => g,
            Err(e) => return Err(e),
        };
        assert(registered_names(registry) =~= set!["orders_sent"@, "cancels"@, "fills"@, "pnl_cents"@, "realized_spread_bps"@]);
        let drawdown_pct = match register_new_gauge(&mut registry, "drawdown_pct", "Drawdown percentage scaled by 100") {
            Ok(g) => g,
            Err(e) => return Err(e),
        };
        assert(registered_names(registry) =~= set!["orders_sent"@, "cancels"@, "fills"@, "pnl_cents"@, "realized_spread_bps"@, "drawdown_pct"@]);
        Ok(Metrics {
            registry: std::sync::Arc::new(registry),
            orders_sent,
            cancels,
            fills,
            pnl_cents,
            realized_spread_bps,
            drawdown_pct,
        })
    }

    /// The registry the metrics are registered in.
    pub fn registry(&self) -> (res: &std::sync::Arc<Registry>)
        ensures
            registered_names(**res) == self@,
    {
        &self.registry
    }
}

} // verus!
