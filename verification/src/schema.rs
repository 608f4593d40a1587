//! Request and response value types of the three endpoints, and the
//! per-request policy errors they surface.

use vstd::prelude::*;

verus! {

/// Per-request validation failures of the reservation policy. These never
/// stop the service; they are reported to the one client as a client error.
#[derive(Debug, PartialEq, Eq, Clone, Copy)]
pub enum PolicyError {
    /// More reserved draws were requested than the batch holds.
    ReservedCountExceedsBatch,
    /// The requested minimum rarity index names no tier of the catalog.
    RarityIndexOutOfRange,
}

/// Machine-readable client-error body: a stable numeric code and a reason.
#[derive(Debug, PartialEq, Eq, Clone)]
pub struct ErrorResponse {
    pub reason: String,
    pub code: usize,
}

/// The query parameters of `GET /api`.
#[derive(Debug, PartialEq, Eq, Clone)]
pub struct SimpleApiQuery {
    pub count: Option<usize>,
}

/// The response body of `GET /api`: the catalog title and the drawn URLs.
#[derive(Debug, PartialEq, Eq, Clone)]
pub struct SimpleApiResponse {
    pub title: String,
    pub result: Vec<String>,
}

/// The query parameters of `GET /fancy`.
#[derive(Debug, PartialEq, Eq, Clone)]
pub struct FancyApiQuery {
    pub count: Option<usize>,
    pub reserved_count: Option<usize>,
    pub reserved_rarity: Option<usize>,
}

/// The response body of `GET /fancy`: the catalog title and the drawn frames.
#[derive(Debug, PartialEq, Eq, Clone)]
pub struct FancyApiResponse {
    pub title: String,
    pub result: Vec<FancyApiResponseFrame>,
}

/// One draw of a reserved batch: the tier label, the drawn item, and whether
/// this position was a reserved one.
#[derive(Debug, PartialEq, Eq, Clone)]
pub struct FancyApiResponseFrame {
    /// The label of the tier this frame was drawn from.
    pub rarity: String,

    /// Whether this frame sits in the reserved trailing part of the batch.
    pub reserved: bool,

    /// The drawn item's title.
    pub title: String,

    /// The drawn item's URL.
    pub url: String,
}

impl ErrorResponse {
    /// The stable client-error body for a policy failure: code 100 and a
    /// human-readable reason naming the failed check.
    pub fn from_policy_error(e: &PolicyError) -> (r: ErrorResponse)
        ensures
            r.code == 100,
            r.reason@ == match *e {
                PolicyError::ReservedCountExceedsBatch => "Too many reserved frames"@,
                PolicyError::RarityIndexOutOfRange => "Out of rarity range"@,
            },
    {
        let reason = match e {
            PolicyError::ReservedCountExceedsBatch => "Too many reserved frames".to_string(),
            PolicyError::RarityIndexOutOfRange => "Out of rarity range".to_string(),
        };
        ErrorResponse { reason, code: 100 }
    }
}

} // verus!
