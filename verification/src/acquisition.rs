//! The compute side of data acquisition.
//!
//! Downloading and scraping themselves live outside the library; both
//! feeds are currently stubbed with synthetic values, and the functions
//! here produce those values and parse what a scrape hands back, from
//! plain inputs to plain outputs.

use vstd::prelude::*;
use vstd::string::StringSliceAdditionalSpecFns;
use crate::models::{DataSource, HousingData};

verus! {

/// Where the historical research feed lives.
pub struct ZillowConfig {
    /// ZIP code to filter data for.
    pub zip_code: String,
    /// URL of the research CSV file for median listing prices.
    pub listing_price_url: String,
    /// URL of the research CSV file for inventory counts.
    pub inventory_url: String,
}

impl Default for ZillowConfig {
    fn default() -> (c: Self)
        ensures
            c.zip_code@ == "90720"@,
            c.listing_price_url@
                == "https://files.zillowstatic.com/research/public_csvs/zhvi/Zip_zhvi_uc_sfrcondo_tier_0.33_0.67_sm_sa_month.csv"@,
            c.inventory_url@
                == "https://files.zillowstatic.com/research/public_csvs/invt_fs/Metro_invt_fs_uc_sfrcondo_sm_month.csv"@,
    {
        ZillowConfig {
            zip_code: "90720".to_owned(),
            listing_price_url:
                "https://files.zillowstatic.com/research/public_csvs/zhvi/Zip_zhvi_uc_sfrcondo_tier_0.33_0.67_sm_sa_month.csv".to_owned(),
            inventory_url:
                "https://files.zillowstatic.com/research/public_csvs/invt_fs/Metro_invt_fs_uc_sfrcondo_sm_month.csv".to_owned(),
        }
    }
}

/// How the scraper behaves.
pub struct ScraperConfig {
    /// ZIP code to search for.
    pub zip_code: String,
    /// User agent string for the HTTP requests.
    pub user_agent: String,
    /// Request timeout in seconds.
    pub timeout_secs: u64,
    /// Minimum seconds between requests.
    pub rate_limit_secs: u64,
}

impl Default for ScraperConfig {
    fn default() -> (c: Self)
        ensures
            c.zip_code@ == "90720"@,
            c.user_agent@
                == "RE_TRACKER/0.1.0 (Rossmoor Housing Tracker; Educational; +https://github.com/urmt/RE_TRACKER_by_ZIP)"@,
            c.timeout_secs == 30,
            c.rate_limit_secs == 60,
    {
        ScraperConfig {
            zip_code: "90720".to_owned(),
            user_agent:
                "RE_TRACKER/0.1.0 (Rossmoor Housing Tracker; Educational; +https://github.com/urmt/RE_TRACKER_by_ZIP)".to_owned(),
            timeout_secs: 30,
            rate_limit_secs: 60,
        }
    }
}

/// What one scraping pass reports.
pub struct ScrapedData {
    /// Number of active listings found.
    pub listings_count: u32,
    /// Average price per square foot over the listings, if any was found.
    pub avg_price_per_sqft: Option<u32>,
    /// When the scrape ran, as an epoch timestamp.
    pub timestamp: i64,
    /// The URL that was scraped.
    pub source_url: String,
}

/// Six months of synthetic historical observations ending at `now_day`,
/// spaced 30 days apart, with listings and prices trending gently down
/// into the past. This stands in for parsing the real research feed.
pub fn synthetic_history(now_day: i64, now_ts: i64) -> (r: Vec<HousingData>)
    requires
        now_day >= i64::MIN + 150,
    ensures
        r@.len() == 6,
        forall|k: int| 0 <= k < 6 ==> {
            &&& (#[trigger] r@[k]).date == now_day - (5 - k) * 30
            &&& r@[k].active_listings == 40 + (5 - k) * 2
            &&& r@[k].avg_price_per_sqft == Option::Some((420 + (5 - k) * 5) as u32)
            &&& r@[k].data_source == DataSource::Historical
            &&& r@[k].last_updated == now_ts
        },
{
    let mut r: Vec<HousingData> = Vec::new();
    let mut k: usize = 0;
    while k < 6
        invariant
            now_day >= i64::MIN + 150,
            0 <= k <= 6,
            r@.len() == k,
            forall|m: int| 0 <= m < k ==> {
                &&& (#[trigger] r@[m]).date == now_day - (5 - m) * 30
                &&& r@[m].active_listings == 40 + (5 - m) * 2
                &&& r@[m].avg_price_per_sqft == Option::Some((420 + (5 - m) * 5) as u32)
                &&& r@[m].data_source == DataSource::Historical
                &&& r@[m].last_updated == now_ts
            },
        decreases 6 - k,
    {
        let months_ago: u32 = 5 - k as u32;
        r.push(
            HousingData {
                date: now_day - (months_ago as i64) * 30,
                active_listings: 40 + months_ago * 2,
                avg_price_per_sqft: Option::Some(420 + months_ago * 5),
                data_source: DataSource::Historical,
                last_updated: now_ts,
            },
        );
        k = k + 1;
    }
    r
}

/// The observation reported while real scraping of the primary source is
/// stubbed out: a fixed listing count and price, stamped with the
/// caller's clock and the URL the caller built.
pub fn synthetic_zillow_observation(timestamp: i64, source_url: String) -> (r: ScrapedData)
    ensures
        r.listings_count == 42,
        r.avg_price_per_sqft == Option::Some(455u32),
        r.timestamp == timestamp,
        r.source_url == source_url,
{
    ScrapedData { listings_count: 42, avg_price_per_sqft: Option::Some(455), timestamp, source_url }
}

/// The observation reported while real scraping of the alternative
/// source is stubbed out; its values differ slightly from the primary
/// source's.
pub fn synthetic_redfin_observation(timestamp: i64, source_url: String) -> (r: ScrapedData)
    ensures
        r.listings_count == 45,
        r.avg_price_per_sqft == Option::Some(458u32),
        r.timestamp == timestamp,
        r.source_url == source_url,
{
    ScrapedData { listings_count: 45, avg_price_per_sqft: Option::Some(458), timestamp, source_url }
}

/// An ASCII whitespace byte: space, tab, line feed or carriage return.
pub open spec fn is_ws(b: u8) -> bool {
    b == 32 || b == 9 || b == 10 || b == 13
}

/// An ASCII decimal digit byte.
pub open spec fn is_digit(b: u8) -> bool {
    48 <= b <= 57
}

/// Index of the first non-whitespace byte at or after `i`.
pub open spec fn skip_ws(bs: Seq<u8>, i: int) -> int
    decreases bs.len() - i,
{
    if i < 0 || i >= bs.len() {
        bs.len() as int
    } else if is_ws(bs[i]) {
        skip_ws(bs, i + 1)
    } else {
        i
    }
}

/// Index just past the token that starts at `i`: the first whitespace
/// byte at or after `i`, or the end of the text.
pub open spec fn token_end(bs: Seq<u8>, i: int) -> int
    decreases bs.len() - i,
{
    if i < 0 || i >= bs.len() {
        bs.len() as int
    } else if is_ws(bs[i]) {
        i
    } else {
        token_end(bs, i + 1)
    }
}

/// Every byte at indices `[lo, hi)` is a decimal digit.
pub open spec fn all_digits(bs: Seq<u8>, lo: int, hi: int) -> bool {
    forall|j: int| lo <= j < hi ==> is_digit(#[trigger] bs[j])
}

/// Value of the decimal digits at indices `[lo, hi)`.
pub open spec fn digits_value(bs: Seq<u8>, lo: int, hi: int) -> int
    decreases hi - lo,
{
    if lo >= hi {
        0
    } else {
        digits_value(bs, lo, hi - 1) * 10 + (bs[hi - 1] - 48)
    }
}

/// What `parse_listing_count` extracts: the first whitespace-separated
/// token of the text, read as a decimal number, if the token consists of
/// digits only and the value fits.
pub open spec fn listing_count_of(bs: Seq<u8>) -> Option<u32> {
    let lo = skip_ws(bs, 0);
    let hi = token_end(bs, lo);
    if lo < hi && all_digits(bs, lo, hi) && digits_value(bs, lo, hi) <= 0xffff_ffff {
        Option::Some(digits_value(bs, lo, hi) as u32)
    } else {
        Option::None
    }
}

/// A run of digits is worth at least zero.
proof fn lemma_digits_value_nonneg(bs: Seq<u8>, lo: int, hi: int)
    requires
        all_digits(bs, lo, hi),
    ensures
        digits_value(bs, lo, hi) >= 0,
    decreases hi - lo,
{
    if lo < hi {
        lemma_digits_value_nonneg(bs, lo, hi - 1);
    }
}

/// Extending a run of digits to the right never shrinks its value.
proof fn lemma_digits_value_monotone(bs: Seq<u8>, lo: int, j: int, hi: int)
    requires
        lo <= j <= hi,
        all_digits(bs, lo, hi),
    ensures
        digits_value(bs, lo, j) <= digits_value(bs, lo, hi),
    decreases hi - j,
{
    if j < hi {
        lemma_digits_value_monotone(bs, lo, j, hi - 1);
        lemma_digits_value_nonneg(bs, lo, hi - 1);
    }
}

/// Extract a listing count from the text of a results-count element,
/// such as `"42 homes"`: the first whitespace-separated token, accepted
/// only if it is all decimal digits and its value fits.
pub fn parse_listing_count(text: &str) -> (r: Option<u32>)
    ensures
        r == listing_count_of(text.spec_bytes()),
{
    let bs = text.as_bytes();
    let n = bs.len();

    let mut lo: usize = 0;
    while lo < n && (bs[lo] == 32 || bs[lo] == 9 || bs[lo] == 10 || bs[lo] == 13)
        invariant
            n == bs@.len(),
            0 <= lo <= n,
            skip_ws(bs@, 0) == skip_ws(bs@, lo as int),
        decreases n - lo,
    {
        lo = lo + 1;
    }
    assert(lo as int == skip_ws(bs@, 0));

    let mut hi: usize = lo;
    while hi < n && !(bs[hi] == 32 || bs[hi] == 9 || bs[hi] == 10 || bs[hi] == 13)
        invariant
            n == bs@.len(),
            lo <= hi <= n,
            token_end(bs@, lo as int) == token_end(bs@, hi as int),
        decreases n - hi,
    {
        hi = hi + 1;
    }
    assert(hi as int == token_end(bs@, lo as int));

    if lo == hi {
        return Option::None;
    }

    let mut val: u64 = 0;
    let mut j: usize = lo;
    while j < hi
        invariant
            bs@ == text.spec_bytes(),
            n == bs@.len(),
            lo <= j <= hi <= n,
            lo < hi,
            lo as int == skip_ws(bs@, 0),
            hi as int == token_end(bs@, lo as int),
            all_digits(bs@, lo as int, j as int),
            val == digits_value(bs@, lo as int, j as int),
            val <= 0xffff_ffff,
        decreases hi - j,
    {
        let b = bs[j];
        if b < 48 || b > 57 {
            proof {
                assert(!is_digit(bs@[j as int]));
                assert(!all_digits(bs@, lo as int, hi as int));
            }
            return Option::None;
        }
        val = val * 10 + (b - 48) as u64;
        if val > 0xffff_ffff {
            proof {
                if all_digits(bs@, lo as int, hi as int) {
                    lemma_digits_value_monotone(bs@, lo as int, j as int + 1, hi as int);
                }
            }
            return Option::None;
        }
        j = j + 1;
    }
    Option::Some(val as u32)
}

} // verus!
