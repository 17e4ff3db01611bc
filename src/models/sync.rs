//! Synchronisation of accounts.
use crate::text::str_eq;
use crate::serde::calendar_date::CalendarDate;
use crate::serde::naive_date::Instant;
use uuid::Uuid;
use vstd::prelude::*;

verus! {

/// Status of a sync.
#[derive(Debug, Clone, Copy, PartialEq, Eq, Hash)]
pub enum SyncStatus {
    /// Pending.
    Pending,
    /// Syncing.
    Syncing,
    /// Completed.
    Completed,
    /// Failed.
    Failed,
}

impl SyncStatus {
    /// The wire name of the value.
    pub open spec fn spec_name(self) -> Seq<char> {
        match self {
            SyncStatus::Pending => "pending"@,
            SyncStatus::Syncing => "syncing"@,
            SyncStatus::Completed => "completed"@,
            SyncStatus::Failed => "failed"@,
        }
    }

    /// Whether `s` names this value.
    pub open spec fn named_by(self, s: Seq<char>) -> bool {
        s == self.spec_name()
    }

    /// The wire name, as the value displays.
    pub fn to_string(&self) -> (r: String)
        ensures
            r@ == self.spec_name(),
    {
        match self {
            SyncStatus::Pending => "pending".to_owned(),
            SyncStatus::Syncing => "syncing".to_owned(),
            SyncStatus::Completed => "completed".to_owned(),
            SyncStatus::Failed => "failed".to_owned(),
        }
    }

    /// Reads a value from its wire name.
    pub fn from_name(s: &str) -> (r: Result<SyncStatus, ParseSyncStatusError>)
        ensures
            match r {
                Ok(v) => v.named_by(s@),
                Err(e) => (forall|v: SyncStatus| !#[trigger] v.named_by(s@)) && e.spec_text() == s@,
            },
    {
        if str_eq(s, "pending") {
            Ok(SyncStatus::Pending)
        } else if str_eq(s, "syncing") {
            Ok(SyncStatus::Syncing)
        } else if str_eq(s, "completed") {
            Ok(SyncStatus::Completed)
        } else if str_eq(s, "failed") {
            Ok(SyncStatus::Failed)
        } else {
            Err(ParseSyncStatusError(s.to_owned()))
        }
    }
}

impl std::str::FromStr for SyncStatus {
    type Err = ParseSyncStatusError;

    fn from_str(s: &str) -> Result<SyncStatus, ParseSyncStatusError> {
        SyncStatus::from_name(s)
    }
}

/// Error returned when parsing a `SyncStatus` from a string fails.
#[derive(Debug, Clone, PartialEq, Eq)]
pub struct ParseSyncStatusError(String);

impl ParseSyncStatusError {
    /// The text that was refused.
    pub closed spec fn spec_text(&self) -> Seq<char> {
        self.0@
    }

    /// The text that was refused.
    pub fn text(&self) -> (r: &str)
        ensures
            r@ == self.spec_text(),
    {
        self.0.as_str()
    }

    /// The error's message: `Invalid sync status: ` and the refused text.
    pub fn to_string(&self) -> (r: String)
        ensures
            r@ == "Invalid sync status: "@ + self.spec_text(),
    {
        "Invalid sync status: ".to_owned().concat(self.0.as_str())
    }
}

/// Response to a sync request.
#[derive(Debug, Clone, PartialEq, Eq)]
pub struct SyncResponse {
    /// Sync identifier.
    pub id: Uuid,
    /// Sync status.
    pub status: SyncStatus,
    /// Type of the synced record.
    pub syncable_type: String,
    /// Identifier of the synced record.
    pub syncable_id: Uuid,
    /// When syncing started.
    pub syncing_at: Option<Instant>,
    /// When syncing completed.
    pub completed_at: Option<Instant>,
    /// First date of the sync window.
    pub window_start_date: Option<CalendarDate>,
    /// Last date of the sync window.
    pub window_end_date: Option<CalendarDate>,
    /// Response message.
    pub message: String,
}

} // verus!
