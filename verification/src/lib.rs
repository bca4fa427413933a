//! Verified analytics for a housing-market time series.
//!
//! The library takes a date-ordered sequence of per-day observations and
//! derives trend signals from it: simple moving averages over two metrics,
//! removal of statistical outliers, interpolation of missing prices, and an
//! aggregate market summary. All numeric work is done in exact integer
//! arithmetic, so every result is pinned down by its contract.

pub mod acquisition;
pub mod interpolate;
pub mod models;
pub mod outliers;
pub mod pipeline;
pub mod series;
pub mod sma;
pub mod summary;

pub use acquisition::{
    parse_listing_count, synthetic_history, synthetic_redfin_observation,
    synthetic_zillow_observation, ScrapedData, ScraperConfig, ZillowConfig,
};
pub use interpolate::interpolate_missing_data;
pub use models::{AppConfig, DataSource, HousingData, MarketSummary, Ratio, SmaConfig, SummaryError};
pub use outliers::remove_outliers;
pub use pipeline::{run_pipeline, PipelineCounts};
pub use sma::{calculate_listings_sma, calculate_sma, SmaPoint};
pub use summary::generate_market_summary;
