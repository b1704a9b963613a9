//! Store-related models.
use vstd::prelude::*;
use super::timestamp::Timestamp;

verus! {

// ────────────────────────────────────────────────────────────────────────────
// Store
// ────────────────────────────────────────────────────────────────────────────

/// An OpenFGA store.
#[derive(Debug, Clone, PartialEq)]
pub struct Store {
    /// Store ID (ULID).
    pub id: String,
    /// Store name.
    pub name: String,
    /// Creation timestamp.
    pub created_at: Option<Timestamp>,
    /// Last update timestamp.
    pub updated_at: Option<Timestamp>,
    /// Soft-delete timestamp.
    pub deleted_at: Option<Timestamp>,
}

// ────────────────────────────────────────────────────────────────────────────
// CreateStore
// ────────────────────────────────────────────────────────────────────────────

/// Request body for `CreateStore`.
#[derive(Debug, Clone, PartialEq)]
pub struct CreateStoreRequest {
    /// The name for the new store.
    pub name: String,
}

/// Response from `CreateStore`.
#[derive(Debug, Clone, PartialEq)]
pub struct CreateStoreResponse {
    /// The created store ID.
    pub id: String,
    /// The store name.
    pub name: String,
    /// Creation timestamp.
    pub created_at: Option<Timestamp>,
    /// Last update timestamp.
    pub updated_at: Option<Timestamp>,
}

// ────────────────────────────────────────────────────────────────────────────
// GetStore
// ────────────────────────────────────────────────────────────────────────────

/// Response from `GetStore`.
#[derive(Debug, Clone, PartialEq)]
pub struct GetStoreResponse {
    /// The store ID.
    pub id: String,
    /// The store name.
    pub name: String,
    /// Creation timestamp.
    pub created_at: Option<Timestamp>,
    /// Last update timestamp.
    pub updated_at: Option<Timestamp>,
}

// ────────────────────────────────────────────────────────────────────────────
// ListStores
// ────────────────────────────────────────────────────────────────────────────

/// Response from `ListStores`.
#[derive(Debug, Clone, PartialEq)]
pub struct ListStoresResponse {
    /// The list of stores.
    pub stores: Vec<Store>,
    /// Pagination token for the next page.
    pub continuation_token: Option<String>,
}

} // verus!
