//! Adapters between wire representations and domain values.
pub mod amount_laws;
pub mod calendar_date;
pub mod duration_from_secs;
pub mod flexible_decimal;
pub mod naive_date;
