use re_tracker::{AppConfig, DataSource, Ratio, SmaConfig};

#[test]
fn test_app_config_default() {
    let config = AppConfig::default();
    assert_eq!(config.zip_code, "90720");
    assert_eq!(config.update_interval_hours, 12);
}

#[test]
fn test_data_source_serialization() {
    let source = DataSource::Historical;
    let tag = source.tag();
    let deserialized = DataSource::from_tag(&tag);
    assert_eq!(source, deserialized);
}

#[test]
fn data_source_tags_round_trip_every_variant() {
    for source in [DataSource::Historical, DataSource::Scraped, DataSource::P2P] {
        assert_eq!(DataSource::from_tag(&source.tag()), source);
    }
}

#[test]
fn data_source_tag_spellings() {
    assert_eq!(DataSource::Historical.tag(), "historical");
    assert_eq!(DataSource::Scraped.tag(), "scraped");
    assert_eq!(DataSource::P2P.tag(), "p2p");
}

#[test]
fn data_source_unknown_tag_falls_back_to_historical() {
    let tag = String::from("carrier-pigeon");
    assert_eq!(DataSource::from_tag(&tag), DataSource::Historical);
}

#[test]
fn sma_config_new_enables_the_average() {
    let config = SmaConfig::new(30);
    assert_eq!(config.period_days, 30);
    assert!(config.enabled);
}

#[test]
fn ratio_eq_int_compares_the_quotient() {
    let r = Ratio { num: 600, den: 3 };
    assert!(r.eq_int(200));
    assert!(!r.eq_int(199));
    let negative = Ratio { num: -50, den: 25 };
    assert!(negative.eq_int(-2));
}
