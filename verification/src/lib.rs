//! Verified core of a terminal stock-quote tracker.
pub mod cmoney;
pub mod config;
pub mod json;
pub mod layout;
pub mod number;
pub mod quote;
pub mod sources;
pub mod text;
pub mod tracker;
