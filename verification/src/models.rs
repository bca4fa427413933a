//! Data model shared by every pipeline stage.

use vstd::prelude::*;

verus! {

/// Channel that produced a record's values. Carried through every
/// transformation unchanged; the pipeline never re-tags provenance.
#[derive(Clone, Copy, PartialEq, Eq, Structural, Debug)]
pub enum DataSource {
    /// Historical research data.
    Historical,
    /// Data obtained through web scraping.
    Scraped,
    /// Data received from a peer network.
    P2P,
}

impl DataSource {
    /// The storage tag of each source, as the store writes it.
    pub open spec fn spec_tag(self) -> Seq<char> {
        match self {
            DataSource::Historical => "historical"@,
            DataSource::Scraped => "scraped"@,
            DataSource::P2P => "p2p"@,
        }
    }

    /// The tag under which this source is stored.
    pub fn tag(&self) -> (r: String)
        ensures
            r@ == self.spec_tag(),
    {
        match self {
            DataSource::Historical => "historical".to_owned(),
            DataSource::Scraped => "scraped".to_owned(),
            DataSource::P2P => "p2p".to_owned(),
        }
    }

    /// What tag decoding yields: an unknown tag falls back to
    /// `Historical`.
    pub open spec fn spec_from_tag(t: Seq<char>) -> DataSource {
        if t == "scraped"@ {
            DataSource::Scraped
        } else if t == "p2p"@ {
            DataSource::P2P
        } else {
            DataSource::Historical
        }
    }

    /// Decode a storage tag; an unknown tag falls back to `Historical`,
    /// the safe default when reading data back from storage.
    pub fn from_tag(t: &String) -> (r: DataSource)
        ensures
            r == DataSource::spec_from_tag(t@),
    {
        if *t == "scraped".to_owned() {
            DataSource::Scraped
        } else if *t == "p2p".to_owned() {
            DataSource::P2P
        } else {
            DataSource::Historical
        }
    }

    /// Encoding a source as its tag and decoding the tag yields the
    /// source again.
    pub proof fn lemma_tag_round_trip(s: DataSource)
        ensures
            DataSource::spec_from_tag(s.spec_tag()) == s,
    {
        reveal_strlit("historical");
        reveal_strlit("scraped");
        reveal_strlit("p2p");
        assert("historical"@.len() == 10);
        assert("scraped"@.len() == 7);
        assert("p2p"@.len() == 3);
    }
}

/// One observation of the tracked market, at most one per calendar date.
///
/// Dates and timestamps are plain integers (a day number and an epoch
/// timestamp): the analytics only carry them along, and the binary layer
/// converts calendar dates at the boundary. `avg_price_per_sqft` is in
/// fixed integer price units; `None` means the price is unknown for that
/// date, which is distinct from a price of zero.
#[derive(Clone, Copy, PartialEq, Eq, Structural, Debug)]
pub struct HousingData {
    /// Day number of the date this observation belongs to.
    pub date: i64,
    /// Number of active listings on that date; never missing.
    pub active_listings: u32,
    /// Average price per square foot, in integer price units, if known.
    pub avg_price_per_sqft: Option<u32>,
    /// Where the observation came from.
    pub data_source: DataSource,
    /// When the record was last written, as an epoch timestamp.
    pub last_updated: i64,
}

/// Application-wide configuration, passed explicitly into each run.
pub struct AppConfig {
    /// ZIP code to track.
    pub zip_code: String,
    /// Update interval in hours.
    pub update_interval_hours: u32,
    /// Maximum age of cached data in days before a refresh.
    pub cache_max_age_days: u32,
    /// Enable peer-to-peer data synchronization.
    pub enable_p2p: bool,
    /// Enable detailed logging for debugging.
    pub enable_debug_logging: bool,
}

impl Default for AppConfig {
    fn default() -> (c: Self)
        ensures
            c.zip_code@ == "90720"@,
            c.update_interval_hours == 12,
            c.cache_max_age_days == 30,
            !c.enable_p2p,
            !c.enable_debug_logging,
    {
        AppConfig {
            zip_code: "90720".to_owned(),
            update_interval_hours: 12,
            cache_max_age_days: 30,
            enable_p2p: false,
            enable_debug_logging: false,
        }
    }
}

/// Simple-moving-average configuration.
#[derive(Clone, Copy, PartialEq, Eq, Structural, Debug)]
pub struct SmaConfig {
    /// Window length in days.
    pub period_days: u32,
    /// Whether this average should be displayed.
    pub enabled: bool,
}

impl SmaConfig {
    pub fn new(period_days: u32) -> (c: Self)
        ensures
            c.period_days == period_days,
            c.enabled,
    {
        SmaConfig { period_days, enabled: true }
    }
}

/// An exact quotient `num / den`. The denominator is always positive, so
/// the value is well defined; nothing is reduced or rounded.
#[derive(Clone, Copy, PartialEq, Eq, Structural, Debug)]
pub struct Ratio {
    pub num: i128,
    pub den: u128,
}

impl Ratio {
    /// Whether the quotient equals the integer `k` exactly.
    pub fn eq_int(&self, k: i128) -> (r: bool)
        requires
            0 < self.den <= 0x1_0000_0000_0000_0000,
            -0x1_0000_0000 <= k <= 0x1_0000_0000,
        ensures
            r == (self.num == k * self.den),
    {
        proof {
            assert(-0x1_0000_0000_0000_0000_0000_0000 <= k * self.den
                <= 0x1_0000_0000_0000_0000_0000_0000) by (nonlinear_arith)
                requires
                    0 < self.den <= 0x1_0000_0000_0000_0000,
                    -0x1_0000_0000 <= k <= 0x1_0000_0000,
            ;
        }
        let prod: i128 = k * (self.den as i128);
        self.num == prod
    }
}

/// Statistical summary of a record sequence. Averages and the percent
/// change are exact quotients; see each field for its meaning.
#[derive(Clone, Copy, PartialEq, Eq, Structural, Debug)]
pub struct MarketSummary {
    /// Mean listing count over all records.
    pub avg_listings: Ratio,
    /// Mean of the known prices.
    pub avg_price_per_sqft: Ratio,
    /// Smallest known price.
    pub min_price_per_sqft: u32,
    /// Largest known price.
    pub max_price_per_sqft: u32,
    /// Change from the first known price to the last known price, in
    /// percent; zero when the first known price is zero.
    pub price_change_percent: Ratio,
    /// Total record count, including records with an unknown price.
    pub data_points: usize,
}

/// Why no summary could be produced.
#[derive(Clone, Copy, PartialEq, Eq, Structural, Debug)]
pub enum SummaryError {
    /// The input held no records at all.
    EmptyDataset,
    /// Every record's price was unknown.
    NoValidPriceData,
}

} // verus!
