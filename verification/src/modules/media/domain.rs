//! The stored shapes of media: files, their thumbnails and thumbnail tasks.

use vstd::prelude::*;

verus! {

/// An uploaded file.
#[derive(Debug, Clone)]
pub struct MediaItem {
    pub id: String,
    pub uploader_id: String,
    pub kind: String,
    pub mime_type: String,
    pub original_name: String,
    pub stored_name: String,
    pub storage_path: String,
    pub public_url: String,
    pub size_bytes: i64,
    pub width: Option<i64>,
    pub height: Option<i64>,
    pub duration_seconds: Option<i64>,
    pub alt_text: Option<String>,
    /// The file's category, if any.
    pub category: Option<String>,
    pub created_at: String,
    pub updated_at: String,
    pub deleted_at: Option<String>,
    /// The thumbnails, filled in by the service after the query.
    pub thumbnails: Option<Vec<MediaThumbnail>>,
}

/// A thumbnail record (a row of `media_thumbnails`).
#[derive(Debug, Clone)]
pub struct MediaThumbnail {
    pub id: String,
    pub media_id: String,
    pub size_label: String,
    pub width: i64,
    pub height: i64,
    pub storage_path: String,
    pub public_url: String,
    pub size_bytes: i64,
    pub created_at: String,
}

/// A queued thumbnail task (a row of `thumbnail_tasks`).
#[derive(Debug, Clone)]
pub struct ThumbnailTask {
    pub id: String,
    pub media_id: String,
    pub status: String,
    pub retry_count: i64,
    pub max_retries: i64,
    pub last_error: Option<String>,
    pub width: Option<i64>,
    pub height: Option<i64>,
    pub created_at: String,
    pub updated_at: String,
}

} // verus!
