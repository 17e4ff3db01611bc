//! Merchants.
use crate::types::MerchantId;
use crate::serde::naive_date::Instant;
use vstd::prelude::*;

verus! {

/// Basic merchant information.
#[derive(Debug, Clone, PartialEq, Eq)]
pub struct Merchant {
    /// Unique identifier.
    pub id: MerchantId,
    /// Merchant name.
    pub name: String,
}

/// Detailed merchant information.
#[derive(Debug, Clone, PartialEq, Eq)]
pub struct MerchantDetail {
    /// Unique identifier.
    pub id: MerchantId,
    /// Merchant name.
    pub name: String,
    /// Color for display (hex code).
    pub color: Option<String>,
    /// Creation time.
    pub created_at: Instant,
    /// Last update time.
    pub updated_at: Instant,
}

/// A list of merchants.
#[derive(Debug, Clone)]
pub struct MerchantCollection {
    /// The merchants.
    pub merchants: Vec<MerchantDetail>,
}

} // verus!
