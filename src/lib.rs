//! Opportunity detection for cross-venue and triangular arbitrage.
pub mod arbitrage;
pub mod breaker;
pub mod clock;
pub mod config;
pub mod decimal;
pub mod detectors;
pub mod driver;
pub mod exchanges;
pub mod history;
pub mod opportunity;
pub mod order_book;
pub mod risk;
pub mod shared_maps;
