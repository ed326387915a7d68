//! Verified core of a Prometheus exporter for Pixiv illustration metrics.
//!
//! The library holds the configuration types, the turning of one
//! illustration into gauge samples, and the decisions of the scraping loop.

pub mod config;
pub mod decimal;
pub mod export;
pub mod scraper;
pub mod upkeep;
