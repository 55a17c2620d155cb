//! WebP conversion of uploaded images: which files are converted, where the WebP copy
//! goes, how a written file is recognised as WebP, and what each outcome records.
//!
//! Decoding, resizing and encoding are the image crates' work and stay outside; here
//! stand the decisions around them. A worker takes a job, asks [`should_skip_conversion`],
//! runs the conversion, writes the result through a temporary file checked with
//! [`is_webp_file`], and records [`status_update`] of the outcome.

use vstd::prelude::*;

use crate::infra::file_watcher::file_name_spec;
use crate::infra::storage::{join_path, join_path_spec};
use crate::modules::media::domain::MediaItem;
use crate::text::{push_str, str_eq};

verus! {

/// Whether the converter leaves a file as it is: GIF, SVG and WebP files, files over
/// 20 MiB, and anything that is not JPEG or PNG.
pub open spec fn skips_conversion(mime_type: Seq<char>, file_size: u64) -> bool {
    ||| mime_type == "image/gif"@
    ||| mime_type == "image/svg+xml"@
    ||| mime_type == "image/webp"@
    ||| file_size > 20 * 1024 * 1024
    ||| (mime_type != "image/jpeg"@ && mime_type != "image/png"@)
}

/// Whether a file is left as it is rather than converted to WebP.
pub fn should_skip_conversion(mime_type: &str, file_size: u64) -> (r: bool)
    ensures
        r == skips_conversion(mime_type@, file_size),
{
    if str_eq(mime_type, "image/gif") {
        return true;
    }
    if str_eq(mime_type, "image/svg+xml") {
        return true;
    }
    if str_eq(mime_type, "image/webp") {
        return true;
    }
    if file_size > 20 * 1024 * 1024 {
        return true;
    }
    if !str_eq(mime_type, "image/jpeg") && !str_eq(mime_type, "image/png") {
        return true;
    }
    false
}

/// The converter only ever converts small JPEG and PNG files.
pub proof fn law_only_small_jpeg_and_png_are_converted(mime_type: Seq<char>, file_size: u64)
    requires
        !skips_conversion(mime_type, file_size),
    ensures
        mime_type == "image/jpeg"@ || mime_type == "image/png"@,
        file_size <= 20 * 1024 * 1024,
{
}

/// A conversion job: the media record, its file, its type and its size.
#[derive(Debug, Clone)]
pub struct ConversionJob {
    pub media_id: String,
    pub source_path: String,
    pub mime_type: String,
    pub file_size: u64,
}

/// The job that re-queues a pending media record: its file under the upload directory,
/// its type, and its size read as unsigned.
pub fn job_for_pending(upload_dir: &str, item: &MediaItem) -> (j: ConversionJob)
    ensures
        j.media_id@ == item.id@,
        j.source_path@ == join_path_spec(upload_dir@, item.storage_path@),
        j.mime_type@ == item.mime_type@,
        j.file_size == item.size_bytes as u64,
{
    ConversionJob {
        media_id: item.id.clone(),
        source_path: join_path(upload_dir, item.storage_path.as_str()),
        mime_type: item.mime_type.clone(),
        file_size: item.size_bytes as u64,
    }
}

/// Whether bytes are a WebP file: at least twelve bytes, `RIFF` at the start and `WEBP`
/// at offset eight.
pub open spec fn is_webp_spec(b: Seq<u8>) -> bool {
    &&& b.len() >= 12
    &&& b[0] == 0x52u8 && b[1] == 0x49u8 && b[2] == 0x46u8 && b[3] == 0x46u8
    &&& b[8] == 0x57u8 && b[9] == 0x45u8 && b[10] == 0x42u8 && b[11] == 0x50u8
}

/// Checks the magic bytes of a written WebP file before it replaces the final file.
pub fn is_webp_file(b: &[u8]) -> (r: bool)
    ensures
        r == is_webp_spec(b@),
{
    b.len() >= 12 && b[0] == 0x52u8 && b[1] == 0x49u8 && b[2] == 0x46u8 && b[3] == 0x46u8 && b[8] == 0x57u8
        && b[9] == 0x45u8 && b[10] == 0x42u8 && b[11] == 0x50u8
}

/// The name under which the WebP copy of a source file is stored: the source's file
/// name (`unknown` without one) and `.webp`.
pub open spec fn webp_name_spec(source_path: Seq<char>) -> Seq<char> {
    let original = match file_name_spec(source_path) {
        Some(n) => n,
        None => "unknown"@,
    };
    original + ".webp"@
}

/// Where the WebP copy of a source file goes: the final path and the temporary path it
/// is first written to, both in the `media` directory of the upload directory.
pub struct WebpTargets {
    pub final_path: String,
    pub temp_path: String,
}

/// The WebP targets of a source file.
pub fn webp_targets(upload_dir: &str, source_path: &str) -> (r: WebpTargets)
    ensures
        r.final_path@ == join_path_spec(join_path_spec(upload_dir@, "media"@), webp_name_spec(source_path@)),
        r.temp_path@ == join_path_spec(
            join_path_spec(upload_dir@, "media"@),
            webp_name_spec(source_path@) + ".tmp"@,
        ),
{
    let media_dir = join_path(upload_dir, "media");
    let mut webp_name = match crate::infra::file_watcher::file_name(source_path) {
        Some(n) => n,
        None => "unknown".to_owned(),
    };
    push_str(&mut webp_name, ".webp");
    let final_path = join_path(media_dir.as_str(), webp_name.as_str());
    let mut temp_name = webp_name;
    push_str(&mut temp_name, ".tmp");
    let temp_path = join_path(media_dir.as_str(), temp_name.as_str());
    WebpTargets { final_path, temp_path }
}

/// How a conversion ended.
pub enum ConversionOutcome {
    /// The file is one that is not converted.
    Skipped,
    /// Reading or converting the source failed, with the message.
    ConvertFailed(String),
    /// Writing the WebP file failed, with the message.
    WriteFailed(String),
    /// The WebP copy was written.
    Written,
}

/// What happens to a media record's retry counter.
#[derive(Debug, Clone, Copy, PartialEq, Eq, Structural)]
pub enum RetryChange {
    Reset,
    Increment,
}

/// The update of a media record's conversion columns after an outcome.
pub struct StatusUpdate {
    /// The new `conversion_status`: empty, `failed` or `converted`.
    pub status: String,
    pub retries: RetryChange,
    /// The new `conversion_error`; `None` clears it.
    pub error: Option<String>,
    /// Whether `updated_at` is set to now.
    pub touches_updated_at: bool,
}

/// The update that an outcome records: a skipped file clears its pending state, a
/// failure is recorded with its message and one more retry, a written file is marked
/// converted.
pub fn status_update(outcome: &ConversionOutcome) -> (u: StatusUpdate)
    ensures
        match outcome {
            ConversionOutcome::Skipped => {
                &&& u.status@ == Seq::<char>::empty()
                &&& u.retries == RetryChange::Reset
                &&& u.error is None
                &&& !u.touches_updated_at
            },
            ConversionOutcome::ConvertFailed(m) | ConversionOutcome::WriteFailed(m) => {
                &&& u.status@ == "failed"@
                &&& u.retries == RetryChange::Increment
                &&& (u.error matches Some(e) && e@ == m@)
                &&& u.touches_updated_at
            },
            ConversionOutcome::Written => {
                &&& u.status@ == "converted"@
                &&& u.retries == RetryChange::Reset
                &&& u.error is None
                &&& u.touches_updated_at
            },
        },
{
    match outcome {
        ConversionOutcome::Skipped => StatusUpdate {
            status: String::new(),
            retries: RetryChange::Reset,
            error: None,
            touches_updated_at: false,
        },
        ConversionOutcome::ConvertFailed(m) => StatusUpdate {
            status: "failed".to_owned(),
            retries: RetryChange::Increment,
            error: Some(m.clone()),
            touches_updated_at: true,
        },
        ConversionOutcome::WriteFailed(m) => StatusUpdate {
            status: "failed".to_owned(),
            retries: RetryChange::Increment,
            error: Some(m.clone()),
            touches_updated_at: true,
        },
        ConversionOutcome::Written => StatusUpdate {
            status: "converted".to_owned(),
            retries: RetryChange::Reset,
            error: None,
            touches_updated_at: true,
        },
    }
}

/// The worker's limits for a configured concurrency: at least one conversion at a time,
/// and a queue of twenty jobs per concurrent conversion.
pub fn worker_limits(webp_max_concurrent: usize) -> (r: (usize, usize))
    requires
        webp_max_concurrent <= usize::MAX / 20,
    ensures
        r.0 == (if webp_max_concurrent < 1 { 1 } else { webp_max_concurrent }),
        r.1 == r.0 * 20,
{
    let max_concurrent = if webp_max_concurrent < 1 { 1 } else { webp_max_concurrent };
    (max_concurrent, max_concurrent * 20)
}

} // verus!
