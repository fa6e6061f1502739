pub mod agent;
pub mod mispricing;
