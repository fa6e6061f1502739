use vstd::prelude::*;

verus! {

/// Timing targets for order execution.
#[derive(Debug, Clone, Copy, PartialEq, Eq, Structural)]
pub struct ExecutionConfig {
    pub latency_target_ms: u64,
    pub cancel_backoff_ms: u64,
}

impl Default for ExecutionConfig {
    fn default() -> (res: Self)
        ensures
            res.latency_target_ms == 50,
            res.cancel_backoff_ms == 100,
    {
        ExecutionConfig { latency_target_ms: 50, cancel_backoff_ms: 100 }
    }
}

/// Where the metrics endpoint listens.
#[derive(Debug, Clone, Copy, PartialEq, Eq, Structural)]
pub struct TelemetryConfig {
    pub prom_port: u16,
}

impl Default for TelemetryConfig {
    fn default() -> (res: Self)
        ensures
            res.prom_port == 9108,
    {
        TelemetryConfig { prom_port: 9108 }
    }
}

} // verus!
