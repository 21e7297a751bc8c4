//! The protocol layer: endpoint descriptions, query dispatch, and pagination.

pub mod auth;
pub mod basic;
pub mod client;
pub mod common;
pub mod currencies;
pub mod date;
pub mod dividends;
pub mod endpoint;
pub mod eod;
pub mod eod_latest;
pub mod error;
pub mod exchanges;
pub mod ignore;
pub mod intraday;
pub mod paged;
pub mod params;
pub mod probe;
pub mod query;
pub mod raw;
pub mod splits;
pub mod tickers;
pub mod timezones;

pub use self::auth::AuthContext;
pub use self::client::Client;
pub use self::client::Request;
pub use self::client::Response;
pub use self::client::RestClient;
pub use self::common::Interval;
pub use self::common::Method;
pub use self::common::SortOrder;
pub use self::common::SymbolSet;
pub use self::date::Date;
pub use self::endpoint::Endpoint;
pub use self::endpoint::Pageable;
pub use self::error::ApiError;
pub use self::error::BodyError;
pub use self::ignore::Ignore;
pub use self::ignore::ignore;
pub use self::paged::PageLimit;
pub use self::paged::Paged;
pub use self::paged::Pagination;
pub use self::paged::PaginationError;
pub use self::paged::paged;
pub use self::params::QueryParams;
pub use self::query::FromBody;
pub use self::query::query;
pub use self::raw::Raw;
pub use self::raw::raw;
