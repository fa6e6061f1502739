pub mod clob_rest;
pub mod clob_ws;
pub mod data_api;
pub mod types;
