use re_tracker::{
    parse_listing_count, synthetic_history, synthetic_redfin_observation,
    synthetic_zillow_observation, DataSource, ScraperConfig, ZillowConfig,
};

#[test]
fn test_scraper_config_default() {
    let config = ScraperConfig::default();
    assert_eq!(config.zip_code, "90720");
    assert!(config.rate_limit_secs >= 60); // At least 1 minute
}

#[test]
fn zillow_config_default_names_the_feeds() {
    let config = ZillowConfig::default();
    assert_eq!(config.zip_code, "90720");
    assert!(config.listing_price_url.contains("zhvi"));
    assert!(config.inventory_url.contains("invt_fs"));
}

#[test]
fn test_fetch_zillow_data() {
    let data = synthetic_history(20_000, 1_700_000_000);
    assert!(!data.is_empty());
    assert_eq!(data[0].data_source, DataSource::Historical);
    assert_eq!(data.len(), 6);
}

#[test]
fn synthetic_history_trends_toward_the_present() {
    let data = synthetic_history(20_000, 0);
    // Oldest first: five months back, 30 days apart, ending at now_day.
    assert_eq!(data[0].date, 20_000 - 150);
    assert_eq!(data[5].date, 20_000);
    assert_eq!(data[0].avg_price_per_sqft, Some(445));
    assert_eq!(data[5].avg_price_per_sqft, Some(420));
    assert_eq!(data[0].active_listings, 50);
    assert_eq!(data[5].active_listings, 40);
}

#[test]
fn test_scrape_zillow() {
    let observation = synthetic_zillow_observation(1_700_000_000, String::from("url"));
    assert!(observation.listings_count > 0);
    assert!(observation.avg_price_per_sqft.is_some());
    assert_eq!(observation.timestamp, 1_700_000_000);
}

#[test]
fn redfin_observation_differs_from_zillow() {
    let zillow = synthetic_zillow_observation(0, String::from("a"));
    let redfin = synthetic_redfin_observation(0, String::from("b"));
    assert_eq!(zillow.listings_count, 42);
    assert_eq!(redfin.listings_count, 45);
    assert_eq!(zillow.avg_price_per_sqft, Some(455));
    assert_eq!(redfin.avg_price_per_sqft, Some(458));
}

#[test]
fn parse_listing_count_reads_the_first_token() {
    assert_eq!(parse_listing_count("42 homes"), Some(42));
    assert_eq!(parse_listing_count("  7 results found"), Some(7));
    assert_eq!(parse_listing_count("901"), Some(901));
}

#[test]
fn parse_listing_count_rejects_non_numbers() {
    assert_eq!(parse_listing_count("no results"), None);
    assert_eq!(parse_listing_count(""), None);
    assert_eq!(parse_listing_count("   "), None);
    assert_eq!(parse_listing_count("42a homes"), None);
    assert_eq!(parse_listing_count("-42 homes"), None);
}

#[test]
fn parse_listing_count_rejects_overflow() {
    assert_eq!(parse_listing_count("4294967295"), Some(4_294_967_295));
    assert_eq!(parse_listing_count("4294967296"), None);
    assert_eq!(parse_listing_count("99999999999999999999"), None);
}
