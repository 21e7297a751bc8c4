//! Typed representations of Marketstack responses.
//!
//! Only the response shapes whose fields are plain values live here; decoding
//! the wire JSON into these shapes is the caller's concern (the dispatch layer
//! hands back the classified body bytes).

use vstd::prelude::*;

verus! {

/// Pagination information returned by the Marketstack API.
#[derive(Debug, Clone, PartialEq, Eq)]
pub struct PaginationInfo {
    /// Page limit.
    pub limit: u64,
    /// Page offset.
    pub offset: u64,
    /// Results count on the current page.
    pub count: u64,
    /// Total count of the results available.
    pub total: u64,
}

/// A single data item from a Marketstack `currencies` response.
#[derive(Debug, Clone, PartialEq, Eq)]
pub struct CurrenciesDataItem {
    /// 3-letter code of the given currency.
    pub code: String,
    /// Name of the given currency.
    pub name: String,
    /// Text symbol of the given currency.
    pub symbol: String,
}

/// The response from the `currencies` Marketstack endpoint.
#[derive(Debug, Clone, PartialEq, Eq)]
pub struct CurrenciesData {
    /// Pagination entry of the response.
    pub pagination: PaginationInfo,
    /// Data entry of the response.
    pub data: Vec<CurrenciesDataItem>,
}

/// A single data item from a Marketstack `timezones` response.
#[derive(Debug, Clone, PartialEq, Eq)]
pub struct TimezonesDataItem {
    /// Name of the given timezone.
    pub timezone: String,
    /// Abbreviation of the given timezone.
    pub abbr: String,
    /// Summer-time abbreviation of the given timezone.
    pub abbr_dst: String,
}

/// The response from the `timezones` Marketstack endpoint.
#[derive(Debug, Clone, PartialEq, Eq)]
pub struct TimezonesData {
    /// Pagination entry of the response.
    pub pagination: PaginationInfo,
    /// Data entry of the response.
    pub data: Vec<TimezonesDataItem>,
}

/// A stock exchange.
#[derive(Debug, Clone, PartialEq, Eq)]
pub struct StockExchange {
    /// Name of the stock exchange.
    pub name: String,
    /// Acronym of the stock exchange.
    pub acronym: String,
    /// MIC identification of the stock exchange.
    pub mic: String,
    /// Country of the stock exchange.
    pub country: String,
    /// 3-letter country code of the stock exchange.
    pub country_code: String,
    /// City of the stock exchange.
    pub city: String,
    /// Website URL of the stock exchange.
    pub website: String,
}

/// A single data item from a Marketstack `tickers` response.
#[derive(Debug, Clone, PartialEq, Eq)]
pub struct TickersDataItem {
    /// Name of the given stock ticker.
    pub name: String,
    /// Symbol of the given stock ticker.
    pub symbol: String,
    /// Whether intraday data is available for the stock ticker.
    pub has_intraday: bool,
    /// Whether end-of-day data is available for the stock ticker.
    pub has_eod: bool,
    /// Country the ticker is traded in, if available.
    pub country: Option<String>,
    /// Stock exchange the ticker is traded in.
    pub stock_exchange: StockExchange,
}

/// The response from the `tickers` Marketstack endpoint.
#[derive(Debug, Clone, PartialEq, Eq)]
pub struct TickersData {
    /// Pagination entry of the response.
    pub pagination: PaginationInfo,
    /// Data entry of the response.
    pub data: Vec<TickersDataItem>,
}

/// A single data item from a Marketstack `exchanges` response.
#[derive(Debug, Clone, PartialEq, Eq)]
pub struct ExchangesDataItem {
    /// The stock exchange itself.
    pub stock_exchange: StockExchange,
    /// Timezone of the stock exchange.
    pub timezone: TimezonesDataItem,
    /// Currency of the stock exchange.
    pub currency: CurrenciesDataItem,
}

/// The response from the `exchanges` Marketstack endpoint.
#[derive(Debug, Clone, PartialEq, Eq)]
pub struct ExchangesData {
    /// Pagination entry of the response.
    pub pagination: PaginationInfo,
    /// Data entry of the response.
    pub data: Vec<ExchangesDataItem>,
}

} // verus!
