//! Thumbnails: which widths are made for an image, what they are called and where they
//! are stored, when an image is too large to decode for them, and what a finished or
//! failed task records.
//!
//! Decoding, resizing (the height follows the width's ratio, computed in floating
//! point) and WebP encoding are the image crate's work and stay outside.

use vstd::prelude::*;

use crate::modules::media::domain::{MediaThumbnail, ThumbnailTask};
use crate::text::{decimal_spec, decimal_string, push_str};

verus! {

/// The memory (in bytes) that a source image may take once decoded to RGBA for
/// thumbnails to be made of it.
pub const MAX_SOURCE_IMAGE_MEMORY_BYTES_FOR_THUMBNAIL_GENERATION: u64 = 30_000_000;

/// Whether an image of these dimensions is too large to decode for thumbnails: four
/// bytes per pixel over the limit.
pub fn exceeds_thumbnail_memory_limit(width: u32, height: u32) -> (r: bool)
    requires
        width * height * 4 <= u64::MAX,
    ensures
        r == (width * height * 4 > MAX_SOURCE_IMAGE_MEMORY_BYTES_FOR_THUMBNAIL_GENERATION),
{
    let w = width as u64;
    let h = height as u64;
    assert(w * h <= u64::MAX) by (nonlinear_arith)
        requires
            w * h * 4 <= u64::MAX,
    ;
    let estimated = w * h * 4;
    estimated > MAX_SOURCE_IMAGE_MEMORY_BYTES_FOR_THUMBNAIL_GENERATION
}

/// How thumbnails are made.
pub struct ThumbnailGenerationConfig {
    /// The target widths; an image is only ever made smaller.
    pub widths: Vec<u32>,
    /// Whether the source image is kept (it always is).
    pub keep_original: bool,
}

/// A generated thumbnail.
pub struct ThumbnailInfo {
    /// The size label, such as `400w`.
    pub size_label: String,
    pub width: u32,
    pub height: u32,
    /// The path relative to the upload directory.
    pub storage_path: String,
    pub public_url: String,
    pub size_bytes: i64,
}

/// The widths that thumbnails are made at.
pub fn thumbnail_target_widths() -> (r: Vec<u32>)
    ensures
        r@ == seq![400u32, 800u32, 1200u32],
{
    let mut v: Vec<u32> = Vec::new();
    v.push(400);
    v.push(800);
    v.push(1200);
    v
}

/// The target widths smaller than the image's width, in their order.
pub open spec fn widths_below(widths: Seq<u32>, image_width: u32) -> Seq<u32>
    decreases widths.len(),
{
    if widths.len() == 0 {
        Seq::empty()
    } else {
        let rest = widths_below(widths.drop_last(), image_width);
        if widths.last() < image_width {
            rest.push(widths.last())
        } else {
            rest
        }
    }
}

/// The widths that thumbnails are made at for an image: the targets smaller than the
/// image, since an image is never made larger.
pub fn widths_to_generate(image_width: u32, widths: &Vec<u32>) -> (r: Vec<u32>)
    ensures
        r@ == widths_below(widths@, image_width),
{
    let mut out: Vec<u32> = Vec::new();
    let n = widths.len();
    let mut i: usize = 0;
    while i < n
        invariant
            n == widths@.len(),
            i <= n,
            out@ == widths_below(widths@.take(i as int), image_width),
        decreases n - i,
    {
        assert(widths@.take(i + 1).drop_last() =~= widths@.take(i as int));
        if widths[i] < image_width {
            out.push(widths[i]);
        }
        i = i + 1;
    }
    assert(widths@.take(n as int) =~= widths@);
    out
}

/// Every width made is smaller than the image and is one of the targets.
pub proof fn law_thumbnails_never_upscale(widths: Seq<u32>, image_width: u32)
    ensures
        forall|i: int|
            0 <= i < widths_below(widths, image_width).len() ==> #[trigger] widths_below(widths, image_width)[i]
                < image_width && widths.contains(widths_below(widths, image_width)[i]),
    decreases widths.len(),
{
    if widths.len() > 0 {
        law_thumbnails_never_upscale(widths.drop_last(), image_width);
        let rest = widths_below(widths.drop_last(), image_width);
        assert forall|i: int| 0 <= i < rest.len() implies widths.contains(#[trigger] rest[i]) by {
            let j = choose|j: int| 0 <= j < widths.drop_last().len() && widths.drop_last()[j] == rest[i];
            assert(widths[j] == rest[i]);
        }
        assert(widths[widths.len() - 1] == widths.last());
    }
}

/// The names of a thumbnail of a media file at a width.
pub struct ThumbnailNames {
    pub size_label: String,
    pub filename: String,
    pub storage_path: String,
    pub public_url: String,
}

/// The size label of a width.
pub open spec fn size_label_spec(width: u32) -> Seq<char> {
    decimal_spec(width as nat) + "w"@
}

/// The file name of a thumbnail.
pub open spec fn thumbnail_filename_spec(media_id: Seq<char>, width: u32) -> Seq<char> {
    media_id + "_thumb_"@ + size_label_spec(width) + ".webp"@
}

/// The label, file name, storage path (under `thumb/`) and public URL (under
/// `/uploads/thumb/`) of a thumbnail.
pub fn thumbnail_names(media_id: &str, width: u32) -> (r: ThumbnailNames)
    ensures
        r.size_label@ == size_label_spec(width),
        r.filename@ == thumbnail_filename_spec(media_id@, width),
        r.storage_path@ == "thumb/"@ + thumbnail_filename_spec(media_id@, width),
        r.public_url@ == "/uploads/thumb/"@ + thumbnail_filename_spec(media_id@, width),
{
    let mut label = decimal_string(width as u64);
    push_str(&mut label, "w");
    let mut filename = media_id.to_owned();
    push_str(&mut filename, "_thumb_");
    push_str(&mut filename, label.as_str());
    push_str(&mut filename, ".webp");
    let mut storage_path = "thumb/".to_owned();
    push_str(&mut storage_path, filename.as_str());
    let mut public_url = "/uploads/thumb/".to_owned();
    push_str(&mut public_url, filename.as_str());
    ThumbnailNames { size_label: label, filename, storage_path, public_url }
}

/// The record of a generated thumbnail of a media file.
pub fn thumbnail_record(id: String, media_id: &str, created_at: String, info: &ThumbnailInfo) -> (r: MediaThumbnail)
    ensures
        r.id@ == id@,
        r.media_id@ == media_id@,
        r.size_label@ == info.size_label@,
        r.width == info.width,
        r.height == info.height,
        r.storage_path@ == info.storage_path@,
        r.public_url@ == info.public_url@,
        r.size_bytes == info.size_bytes,
        r.created_at@ == created_at@,
{
    MediaThumbnail {
        id,
        media_id: media_id.to_owned(),
        size_label: info.size_label.clone(),
        width: info.width as i64,
        height: info.height as i64,
        storage_path: info.storage_path.clone(),
        public_url: info.public_url.clone(),
        size_bytes: info.size_bytes,
        created_at,
    }
}

/// What a finished thumbnail task records.
pub enum ThumbnailTaskUpdate {
    /// The task is done; the source image's dimensions are recorded.
    Done { width: u32, height: u32 },
    /// The task failed with the message; it is retried while retries are left.
    Failed { error: String, retry: bool },
}

/// The update of a task after processing: done with the image's dimensions, or failed,
/// to be retried while its retry count is below its maximum.
pub fn thumbnail_task_update(task: &ThumbnailTask, result: Result<(u32, u32), String>) -> (u: ThumbnailTaskUpdate)
    ensures
        match result {
            Ok((w, h)) => u matches ThumbnailTaskUpdate::Done { width, height } && width == w && height == h,
            Err(e) => u matches ThumbnailTaskUpdate::Failed { error, retry } && error@ == e@ && retry == (
            task.retry_count < task.max_retries),
        },
{
    match result {
        Ok((w, h)) => ThumbnailTaskUpdate::Done { width: w, height: h },
        Err(e) => ThumbnailTaskUpdate::Failed { error: e, retry: task.retry_count < task.max_retries },
    }
}

} // verus!
