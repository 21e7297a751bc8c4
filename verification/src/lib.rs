//! A typed client library for the Marketstack REST API.
//!
//! The crate is organised around a small protocol layer: an [`api::Endpoint`]
//! describes one remote operation (method, path, query parameters, body), the
//! dispatch functions in [`api`] turn an endpoint plus a transport into a
//! classified result, and the pagination drivers in [`api::paged`] repeat that
//! dispatch across pages with a verified termination rule.
//!
//! The paged drivers hand out each item as its raw JSON text bytes; decoding
//! into typed values is the caller's capability (see [`api::FromBody`]), so
//! response shapes carrying floating-point fields can live with the caller
//! while every decision this layer makes stays verified.

pub mod api;
pub mod auth;
pub mod marketstack;
pub mod types;

pub use crate::auth::Auth;
pub use crate::auth::AuthError;
pub use crate::marketstack::MarketstackBuilder;
pub use crate::types::CurrenciesData;
pub use crate::types::CurrenciesDataItem;
pub use crate::types::ExchangesData;
pub use crate::types::ExchangesDataItem;
pub use crate::types::PaginationInfo;
pub use crate::types::StockExchange;
pub use crate::types::TickersData;
pub use crate::types::TickersDataItem;
pub use crate::types::TimezonesData;
pub use crate::types::TimezonesDataItem;
