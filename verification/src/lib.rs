//! Verified core of a market-making sweeper for binary prediction markets.

pub mod config;
pub mod db;
pub mod exchange;
pub mod sim;
pub mod strategy;
pub mod telemetry;
pub mod util;
