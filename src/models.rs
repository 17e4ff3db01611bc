//! Data models of the API's resources.
pub mod account;
pub mod auth;
pub mod category;
pub mod chat;
pub mod merchant;
pub mod sync;
pub mod transaction;
pub mod usage;

use crate::models::account::JsonValue;
use vstd::prelude::*;

verus! {

/// Pagination of a list response.
#[derive(Debug, Clone, Copy, PartialEq, Eq)]
pub struct Pagination {
    /// Current page number (1-based).
    pub page: u32,
    /// Number of items per page.
    pub per_page: u32,
    /// Total number of items across all pages.
    pub total_count: u32,
    /// Total number of pages.
    pub total_pages: u32,
}

/// One page of a list response.
#[derive(Debug, Clone)]
pub struct PaginatedResponse<T> {
    /// The items of this page.
    pub items: T,
    /// Pagination of the list.
    pub pagination: Pagination,
}

/// Error body of a failed request.
#[derive(Debug, Clone, PartialEq, Eq)]
pub struct ErrorResponse {
    /// Error type or code.
    pub error: String,
    /// Error message.
    pub message: Option<String>,
    /// Error details (an array or an object).
    pub details: Option<JsonValue>,
}

/// Response to a deletion.
#[derive(Debug, Clone, PartialEq, Eq)]
pub struct DeleteResponse {
    /// Confirmation message.
    pub message: String,
}

} // verus!
