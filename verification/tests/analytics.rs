use re_tracker::{
    calculate_listings_sma, calculate_sma, generate_market_summary, interpolate_missing_data,
    remove_outliers, run_pipeline, DataSource, HousingData, PipelineCounts, SmaConfig, SmaPoint,
    SummaryError,
};

fn record(date: i64, listings: u32, price: Option<u32>) -> HousingData {
    HousingData {
        date,
        active_listings: listings,
        avg_price_per_sqft: price,
        data_source: DataSource::Historical,
        last_updated: 0,
    }
}

fn create_test_data(count: usize) -> Vec<HousingData> {
    (0..count)
        .map(|i| record(i as i64, 40 + i as u32, Some(400 + i as u32 * 10)))
        .collect()
}

fn prices(data: &[HousingData]) -> Vec<Option<u32>> {
    data.iter().map(|d| d.avg_price_per_sqft).collect()
}

#[test]
fn test_calculate_sma() {
    let data = create_test_data(30);
    let config = SmaConfig::new(7);
    let sma_values = calculate_sma(&data, &config);

    // Should have SMA values for all but the first 6 data points
    assert_eq!(sma_values.len(), 24);
}

#[test]
fn test_calculate_sma_insufficient_data() {
    let data = create_test_data(5);
    let config = SmaConfig::new(7);
    let sma_values = calculate_sma(&data, &config);

    // Should return empty vector
    assert_eq!(sma_values.len(), 0);
}

#[test]
fn sma_window_sums_are_exact() {
    let data = vec![
        record(0, 1, Some(10)),
        record(1, 2, Some(20)),
        record(2, 3, Some(30)),
    ];
    let points = calculate_sma(&data, &SmaConfig::new(2));
    assert_eq!(
        points,
        vec![
            SmaPoint { index: 1, sum: 30, count: 2 },
            SmaPoint { index: 2, sum: 50, count: 2 },
        ]
    );
}

#[test]
fn sma_divides_by_known_prices_only() {
    let data = vec![
        record(0, 1, None),
        record(1, 2, Some(10)),
        record(2, 3, None),
    ];
    let points = calculate_sma(&data, &SmaConfig::new(2));
    assert_eq!(
        points,
        vec![
            SmaPoint { index: 1, sum: 10, count: 1 },
            SmaPoint { index: 2, sum: 10, count: 1 },
        ]
    );
}

#[test]
fn sma_skips_windows_with_no_known_price() {
    let data = vec![
        record(0, 1, Some(10)),
        record(1, 2, None),
        record(2, 3, None),
    ];
    let points = calculate_sma(&data, &SmaConfig::new(2));
    assert_eq!(points, vec![SmaPoint { index: 1, sum: 10, count: 1 }]);
}

#[test]
fn listings_sma_emits_every_full_window() {
    let data = vec![
        record(0, 1, None),
        record(1, 2, None),
        record(2, 3, None),
        record(3, 4, None),
    ];
    let points = calculate_listings_sma(&data, &SmaConfig::new(2));
    assert_eq!(
        points,
        vec![
            SmaPoint { index: 1, sum: 3, count: 2 },
            SmaPoint { index: 2, sum: 5, count: 2 },
            SmaPoint { index: 3, sum: 7, count: 2 },
        ]
    );
}

#[test]
fn listings_sma_length_over_thirty_records() {
    let data = create_test_data(30);
    let points = calculate_listings_sma(&data, &SmaConfig::new(7));
    assert_eq!(points.len(), 24);
    assert!(points.iter().all(|p| p.count == 7));
}

#[test]
fn interpolation_fills_the_midpoint() {
    let mut data = vec![
        record(0, 1, Some(100)),
        record(1, 1, None),
        record(2, 1, Some(200)),
    ];
    let filled = interpolate_missing_data(&mut data);
    assert_eq!(filled, 1);
    assert_eq!(prices(&data), vec![Some(100), Some(150), Some(200)]);
}

#[test]
fn interpolation_midpoint_rounds_down() {
    let mut data = vec![
        record(0, 1, Some(100)),
        record(1, 1, None),
        record(2, 1, Some(101)),
    ];
    let filled = interpolate_missing_data(&mut data);
    assert_eq!(filled, 1);
    assert_eq!(prices(&data), vec![Some(100), Some(100), Some(101)]);
}

#[test]
fn interpolation_never_fills_the_boundaries() {
    let mut data = vec![
        record(0, 1, None),
        record(1, 1, Some(100)),
        record(2, 1, None),
    ];
    let filled = interpolate_missing_data(&mut data);
    assert_eq!(filled, 0);
    assert_eq!(prices(&data), vec![None, Some(100), None]);
}

#[test]
fn interpolation_backward_search_sees_earlier_fills() {
    // The backward search reads the live buffer, so the gap at index 2
    // sees the value just filled at index 1 as its previous known price.
    let mut data = vec![
        record(0, 1, Some(100)),
        record(1, 1, None),
        record(2, 1, None),
        record(3, 1, Some(200)),
    ];
    let filled = interpolate_missing_data(&mut data);
    assert_eq!(filled, 2);
    assert_eq!(
        prices(&data),
        vec![Some(100), Some(150), Some(175), Some(200)]
    );
}

#[test]
fn interpolation_is_idempotent() {
    let mut data = vec![
        record(0, 1, Some(100)),
        record(1, 1, None),
        record(2, 1, Some(200)),
        record(3, 1, None),
    ];
    let first_run = interpolate_missing_data(&mut data);
    assert_eq!(first_run, 1);
    let snapshot = prices(&data);
    let second_run = interpolate_missing_data(&mut data);
    assert_eq!(second_run, 0);
    assert_eq!(prices(&data), snapshot);
}

#[test]
fn outlier_is_nulled_beyond_three_sigma() {
    // Ten prices at 100 and one at 10000: mean 1000, population sigma
    // about 2846, so only the spike deviates by more than three sigma.
    let mut data: Vec<HousingData> = (0..10).map(|i| record(i, 1, Some(100))).collect();
    data.push(record(10, 1, Some(10000)));
    let removed = remove_outliers(&mut data);
    assert_eq!(removed, 1);
    assert_eq!(data[10].avg_price_per_sqft, None);
    assert!(data[..10].iter().all(|d| d.avg_price_per_sqft == Some(100)));
}

#[test]
fn outlier_filter_needs_three_known_prices() {
    let mut data = vec![
        record(0, 1, Some(1)),
        record(1, 1, Some(1_000_000)),
        record(2, 1, None),
    ];
    let removed = remove_outliers(&mut data);
    assert_eq!(removed, 0);
    assert_eq!(prices(&data), vec![Some(1), Some(1_000_000), None]);
}

#[test]
fn summary_of_three_prices() {
    let data = vec![
        record(0, 10, Some(100)),
        record(1, 20, Some(200)),
        record(2, 30, Some(300)),
    ];
    let summary = generate_market_summary(&data).unwrap();
    assert!(summary.avg_price_per_sqft.eq_int(200));
    assert_eq!(summary.min_price_per_sqft, 100);
    assert_eq!(summary.max_price_per_sqft, 300);
    // ((300 - 100) / 100) * 100 = 200 percent
    assert!(summary.price_change_percent.eq_int(200));
    assert!(summary.avg_listings.eq_int(20));
    assert_eq!(summary.data_points, 3);
}

#[test]
fn summary_counts_records_with_missing_prices() {
    let data = vec![
        record(0, 5, Some(100)),
        record(1, 7, None),
        record(2, 9, Some(300)),
    ];
    let summary = generate_market_summary(&data).unwrap();
    assert_eq!(summary.data_points, 3);
    assert!(summary.avg_price_per_sqft.eq_int(200));
    // First and last known prices are 100 and 300.
    assert!(summary.price_change_percent.eq_int(200));
}

#[test]
fn summary_percent_change_guards_a_zero_baseline() {
    let data = vec![
        record(0, 1, Some(0)),
        record(1, 1, Some(50)),
    ];
    let summary = generate_market_summary(&data).unwrap();
    assert!(summary.price_change_percent.eq_int(0));
}

#[test]
fn summary_fails_on_empty_input() {
    let data: Vec<HousingData> = Vec::new();
    assert_eq!(
        generate_market_summary(&data).unwrap_err(),
        SummaryError::EmptyDataset
    );
}

#[test]
fn summary_fails_when_every_price_is_missing() {
    let data = vec![record(0, 1, None), record(1, 2, None)];
    assert_eq!(
        generate_market_summary(&data).unwrap_err(),
        SummaryError::NoValidPriceData
    );
}

#[test]
fn test_generate_market_summary() {
    let data = create_test_data(10);
    let summary = generate_market_summary(&data).unwrap();

    assert!(summary.avg_listings.num > 0);
    assert!(summary.avg_price_per_sqft.num > 0);
    assert_eq!(summary.data_points, 10);
}

#[test]
fn run_pipeline_filters_before_interpolating() {
    let mut data: Vec<HousingData> = (0..5).map(|i| record(i, 1, Some(100))).collect();
    data.extend((5..10).map(|i| record(i, 1, Some(200))));
    data.insert(5, record(99, 1, Some(60000)));
    let counts = run_pipeline(&mut data);
    assert_eq!(
        counts,
        PipelineCounts { outliers_removed: 1, gaps_filled: 1 }
    );
    assert_eq!(data[5].avg_price_per_sqft, Some(150));
}

#[test]
fn pipeline_filters_then_interpolates() {
    // The outlier filter runs first and manufactures a gap, which the
    // interpolator then fills from the surviving neighbors.
    let mut data: Vec<HousingData> = (0..5).map(|i| record(i, 1, Some(100))).collect();
    data.extend((5..10).map(|i| record(i, 1, Some(200))));
    data.insert(5, record(99, 1, Some(60000)));
    let removed = remove_outliers(&mut data);
    assert_eq!(removed, 1);
    assert_eq!(data[5].avg_price_per_sqft, None);
    let filled = interpolate_missing_data(&mut data);
    assert_eq!(filled, 1);
    assert_eq!(data[5].avg_price_per_sqft, Some(150));
}
