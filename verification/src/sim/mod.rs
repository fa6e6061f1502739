pub mod feed;
pub mod runner;
