//! Comments: the shapes of a new comment, of a comment listing query and of the data
//! that a comment event carries.

use vstd::prelude::*;

verus! {

/// A new comment, optionally replying to another one.
#[derive(Debug)]
pub struct CreateCommentRequest {
    pub content: String,
    pub parent_id: Option<String>,
}

/// The paging of a listing.
#[derive(Debug)]
pub struct PaginationQuery {
    pub page: Option<u64>,
    pub page_size: Option<u64>,
}

/// A comment listing: paging and an optional status filter.
#[derive(Debug)]
pub struct CommentQuery {
    pub pagination: PaginationQuery,
    pub status: Option<String>,
}

/// What a comment event tells listeners: the comment, its post, its author's shown
/// name (display name, else username), its text, status and time.
#[derive(Debug, Clone)]
pub struct CommentEventData {
    pub id: String,
    pub post_id: String,
    pub author_name: String,
    pub content: String,
    pub status: String,
    pub created_at: String,
}

} // verus!
