//! Typed models and lenient wire-format adapters for the Sure financial-data API.
//!
//! The verified core is the amount normalizer in [`serde::flexible_decimal`],
//! which turns loosely formatted monetary text into an exact [`Decimal`], and
//! the calendar, instant and duration adapters beside it.
pub mod decimal;
pub mod error;
pub mod models;
pub mod serde;
pub mod text;
pub mod types;

pub use decimal::Decimal;
pub use error::ParseFailure;
pub use types::{ApiKey, Auth, BearerToken};
