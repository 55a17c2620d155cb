use colophon::modules::media::thumbnail::{thumbnail_record, ThumbnailInfo};
use colophon::modules::media::upload::{checked_media_name, media_not_found_message};
use colophon::modules::media::conversion::{
    is_webp_file, job_for_pending, should_skip_conversion, status_update, webp_targets, worker_limits,
    ConversionOutcome, RetryChange,
};
use colophon::modules::media::domain::{MediaItem, ThumbnailTask};
use colophon::modules::media::form::{extract_multipart_boundary, upload_boundary, UploadForm};
use colophon::modules::media::thumbnail::{
    exceeds_thumbnail_memory_limit, thumbnail_names, thumbnail_target_widths, thumbnail_task_update,
    widths_to_generate, ThumbnailTaskUpdate, MAX_SOURCE_IMAGE_MEMORY_BYTES_FOR_THUMBNAIL_GENERATION,
};
use colophon::modules::media::upload::{
    check_upload, classify_file, file_extension, is_allowed_mime_type, should_queue_conversion, upload_paths,
    validate_upload, MediaError,
};

#[test]
fn should_skip_gif() {
    assert!(should_skip_conversion("image/gif", 1024));
}

#[test]
fn should_skip_svg() {
    assert!(should_skip_conversion("image/svg+xml", 1024));
}

#[test]
fn should_skip_webp() {
    assert!(should_skip_conversion("image/webp", 1024));
}

#[test]
fn should_skip_large_file() {
    assert!(should_skip_conversion("image/jpeg", 21 * 1024 * 1024));
}

#[test]
fn should_not_skip_small_jpeg() {
    assert!(!should_skip_conversion("image/jpeg", 1024));
}

#[test]
fn should_not_skip_small_png() {
    assert!(!should_skip_conversion("image/png", 5 * 1024 * 1024));
}

#[test]
fn should_skip_unsupported_mime() {
    assert!(should_skip_conversion("video/mp4", 1024));
}

#[test]
fn conversion_size_limit_is_inclusive() {
    assert!(!should_skip_conversion("image/png", 20 * 1024 * 1024));
    assert!(should_skip_conversion("image/png", 20 * 1024 * 1024 + 1));
}

#[test]
fn classify_jpg() {
    let (kind, mime) = classify_file("jpg").unwrap();
    assert_eq!(kind, "image");
    assert_eq!(mime, "image/jpeg");
}

#[test]
fn classify_jpeg_alias() {
    let (kind, mime) = classify_file("jpeg").unwrap();
    assert_eq!(kind, "image");
    assert_eq!(mime, "image/jpeg");
}

#[test]
fn classify_png() {
    let (kind, mime) = classify_file("png").unwrap();
    assert_eq!(kind, "image");
    assert_eq!(mime, "image/png");
}

#[test]
fn classify_webp() {
    let (kind, mime) = classify_file("webp").unwrap();
    assert_eq!(kind, "image");
    assert_eq!(mime, "image/webp");
}

#[test]
fn classify_gif() {
    let (kind, mime) = classify_file("gif").unwrap();
    assert_eq!(kind, "image");
    assert_eq!(mime, "image/gif");
}

#[test]
fn classify_mp3() {
    let (kind, mime) = classify_file("mp3").unwrap();
    assert_eq!(kind, "audio");
    assert_eq!(mime, "audio/mpeg");
}

#[test]
fn classify_m4a() {
    let (kind, mime) = classify_file("m4a").unwrap();
    assert_eq!(kind, "audio");
    assert_eq!(mime, "audio/mp4");
}

#[test]
fn classify_unsupported_returns_none() {
    assert!(classify_file("exe").is_none());
    assert!(classify_file("pdf").is_none());
    assert!(classify_file("").is_none());
}

#[test]
fn allowed_mime_types_contains_expected() {
    assert!(is_allowed_mime_type("image/jpeg"));
    assert!(is_allowed_mime_type("image/png"));
    assert!(is_allowed_mime_type("audio/mpeg"));
    assert!(!is_allowed_mime_type("application/pdf"));
}

#[test]
fn test_image_above_memory_threshold_estimation() {
    let estimated = 4000u64 * 3000 * 4;
    assert!(estimated > MAX_SOURCE_IMAGE_MEMORY_BYTES_FOR_THUMBNAIL_GENERATION);
    let medium_estimated = 2000u64 * 1500 * 4;
    assert!(medium_estimated < MAX_SOURCE_IMAGE_MEMORY_BYTES_FOR_THUMBNAIL_GENERATION);
    assert!(exceeds_thumbnail_memory_limit(4000, 3000));
    assert!(!exceeds_thumbnail_memory_limit(2000, 1500));
}

#[test]
fn file_extension_follows_path_rules() {
    assert_eq!(file_extension("photo.JPG"), Some("JPG".to_string()));
    assert_eq!(file_extension("dir/archive.tar.gz"), Some("gz".to_string()));
    assert_eq!(file_extension("noext"), None);
    assert_eq!(file_extension(".bashrc"), None);
    assert_eq!(file_extension("trailing."), Some(String::new()));
    assert_eq!(file_extension("a/b.png/"), Some("png".to_string()));
    assert_eq!(file_extension(".."), None);
}

#[test]
fn upload_without_extension_is_refused() {
    let e = validate_upload("README", &None, 10, 10).err().unwrap();
    assert_eq!(e, MediaError::ExtensionRequired);
    assert_eq!(e.to_string(), "file extension is required");
}

#[test]
fn upload_of_unknown_extension_is_refused() {
    let e = validate_upload("doc.pdf", &None, 10, 10).err().unwrap();
    assert_eq!(e, MediaError::UnsupportedMediaType);
    assert_eq!(e.to_string(), "unsupported media type");
}

#[test]
fn upload_extension_is_lower_cased_and_type_guessed() {
    let c = validate_upload("Photo.JPG", &None, 100, 10).unwrap();
    assert_eq!(c.kind, "image");
    assert_eq!(c.mime_type, "image/jpeg");
    assert_eq!(c.ext, "jpg");
    let c = validate_upload("song.mp3", &Some(String::new()), 100, 10).unwrap();
    assert_eq!(c.mime_type, "audio/mpeg");
}

#[test]
fn upload_mime_must_be_allowed_and_match() {
    let e = validate_upload("a.png", &Some("application/pdf".to_string()), 1, 10).err().unwrap();
    assert_eq!(e, MediaError::MimeNotAllowed);
    assert_eq!(e.to_string(), "mime type is not allowed");
    let e = validate_upload("a.png", &Some("image/jpeg".to_string()), 1, 10).err().unwrap();
    assert_eq!(e, MediaError::MimeMismatch);
    assert_eq!(e.to_string(), "mime type does not match file extension");
}

#[test]
fn upload_size_limit() {
    assert!(check_upload("png", &None, &None, 10 * 1024 * 1024, 10).is_ok());
    let e = check_upload("png", &None, &None, 10 * 1024 * 1024 + 1, 10).err().unwrap();
    assert_eq!(e, MediaError::TooLarge { max_mb: 10 });
    assert_eq!(e.to_string(), "file exceeds max size of 10 MB");
}

#[test]
fn check_upload_prefers_sent_then_guessed_type() {
    let c = check_upload("wav", &None, &Some("audio/wav".to_string()), 1, 1).unwrap();
    assert_eq!(c.mime_type, "audio/wav");
    let e = check_upload("wav", &None, &Some("audio/x-wav".to_string()), 1, 1).err().unwrap();
    assert_eq!(e, MediaError::MimeNotAllowed);
    let c = check_upload("ogg", &None, &None, 1, 1).unwrap();
    assert_eq!(c.mime_type, "audio/ogg");
}

#[test]
fn upload_paths_are_under_media() {
    let p = upload_paths("123e4567", "png");
    assert_eq!(p.stored_name, "123e4567.png");
    assert_eq!(p.storage_path, "media/123e4567.png");
    assert_eq!(p.public_url, "/uploads/media/123e4567.png");
    let p = upload_paths("a\\b", "jpg");
    assert_eq!(p.storage_path, "media/a/b.jpg");
}

#[test]
fn conversion_is_queued_only_when_enabled_and_not_skipped() {
    assert!(should_queue_conversion(true, "image/jpeg", 1024));
    assert!(!should_queue_conversion(false, "image/jpeg", 1024));
    assert!(!should_queue_conversion(true, "image/gif", 1024));
}

#[test]
fn webp_magic_bytes() {
    let ok = b"RIFF\x1a\x00\x00\x00WEBPVP8 ";
    assert!(is_webp_file(ok));
    assert!(!is_webp_file(b"not a webp file"));
    assert!(!is_webp_file(b"RIFF"));
}

#[test]
fn webp_targets_sit_in_media_dir() {
    let t = webp_targets("/srv/uploads", "/srv/uploads/media/abc.jpg");
    assert_eq!(t.final_path, "/srv/uploads/media/abc.jpg.webp");
    assert_eq!(t.temp_path, "/srv/uploads/media/abc.jpg.webp.tmp");
    let t = webp_targets("up/", "/");
    assert_eq!(t.final_path, "up/media/unknown.webp");
}

#[test]
fn conversion_outcomes_record_status() {
    let u = status_update(&ConversionOutcome::Skipped);
    assert_eq!(u.status, "");
    assert_eq!(u.retries, RetryChange::Reset);
    assert!(u.error.is_none());
    assert!(!u.touches_updated_at);
    let u = status_update(&ConversionOutcome::ConvertFailed("decode".to_string()));
    assert_eq!(u.status, "failed");
    assert_eq!(u.retries, RetryChange::Increment);
    assert_eq!(u.error.as_deref(), Some("decode"));
    let u = status_update(&ConversionOutcome::Written);
    assert_eq!(u.status, "converted");
    assert!(u.touches_updated_at);
}

#[test]
fn worker_limits_have_a_floor_of_one() {
    assert_eq!(worker_limits(0), (1, 20));
    assert_eq!(worker_limits(3), (3, 60));
}

fn item(storage_path: &str, size: i64) -> MediaItem {
    MediaItem {
        id: "m1".to_string(),
        uploader_id: "u1".to_string(),
        kind: "image".to_string(),
        mime_type: "image/png".to_string(),
        original_name: "a.png".to_string(),
        stored_name: "x.png".to_string(),
        storage_path: storage_path.to_string(),
        public_url: "/uploads/media/x.png".to_string(),
        size_bytes: size,
        width: None,
        height: None,
        duration_seconds: None,
        alt_text: None,
        category: None,
        created_at: String::new(),
        updated_at: String::new(),
        deleted_at: None,
        thumbnails: None,
    }
}

#[test]
fn pending_item_becomes_job() {
    let j = job_for_pending("/data", &item("media/x.png", 2048));
    assert_eq!(j.media_id, "m1");
    assert_eq!(j.source_path, "/data/media/x.png");
    assert_eq!(j.mime_type, "image/png");
    assert_eq!(j.file_size, 2048);
}

#[test]
fn thumbnail_widths_never_upscale() {
    let targets = thumbnail_target_widths();
    assert_eq!(targets, vec![400, 800, 1200]);
    assert_eq!(widths_to_generate(1000, &targets), vec![400, 800]);
    assert_eq!(widths_to_generate(400, &targets), Vec::<u32>::new());
    assert_eq!(widths_to_generate(5000, &targets), vec![400, 800, 1200]);
}

#[test]
fn thumbnail_names_follow_pattern() {
    let n = thumbnail_names("test-media-id", 50);
    assert_eq!(n.size_label, "50w");
    assert_eq!(n.filename, "test-media-id_thumb_50w.webp");
    assert_eq!(n.storage_path, "thumb/test-media-id_thumb_50w.webp");
    assert_eq!(n.public_url, "/uploads/thumb/test-media-id_thumb_50w.webp");
}

#[test]
fn thumbnail_task_failure_retries_while_left() {
    let task = ThumbnailTask {
        id: "t1".to_string(),
        media_id: "m1".to_string(),
        status: "processing".to_string(),
        retry_count: 1,
        max_retries: 3,
        last_error: None,
        width: None,
        height: None,
        created_at: String::new(),
        updated_at: String::new(),
    };
    match thumbnail_task_update(&task, Err("boom".to_string())) {
        ThumbnailTaskUpdate::Failed { error, retry } => {
            assert_eq!(error, "boom");
            assert!(retry);
        }
        _ => panic!("expected a failure"),
    }
    let spent = ThumbnailTask { retry_count: 3, ..task.clone() };
    match thumbnail_task_update(&spent, Err("boom".to_string())) {
        ThumbnailTaskUpdate::Failed { retry, .. } => assert!(!retry),
        _ => panic!("expected a failure"),
    }
    match thumbnail_task_update(&task, Ok((640, 480))) {
        ThumbnailTaskUpdate::Done { width, height } => assert_eq!((width, height), (640, 480)),
        _ => panic!("expected done"),
    }
}

#[test]
fn multipart_boundary_is_extracted() {
    assert_eq!(
        extract_multipart_boundary("multipart/form-data; boundary=----abc"),
        Some("----abc".to_string())
    );
    assert_eq!(
        extract_multipart_boundary("multipart/form-data;  boundary=\"q\"\"  ; x=1"),
        Some("q".to_string())
    );
    assert_eq!(extract_multipart_boundary("multipart/form-data"), None);
    assert_eq!(upload_boundary(None), Err(MediaError::MissingContentType));
    assert_eq!(upload_boundary(Some("text/plain")), Err(MediaError::MissingBoundary));
    assert_eq!(upload_boundary(Some("multipart/form-data; boundary=b")), Ok("b".to_string()));
}

#[test]
fn upload_form_keeps_first_file_and_checks_size() {
    let mut form = UploadForm::new(1);
    let mut f = form.begin_file(None, Some("image/png".to_string())).unwrap();
    assert!(form.push_chunk(&mut f, &[1, 2, 3]).is_ok());
    form.end_file(f);
    assert!(form.begin_file(Some("second.png"), None).is_none());
    form.set_category(b"photos".to_vec());
    let fields = form.finish().unwrap();
    assert_eq!(fields.data, vec![1, 2, 3]);
    assert_eq!(fields.filename, "untitled");
    assert_eq!(fields.content_type.as_deref(), Some("image/png"));
    assert_eq!(fields.category.as_deref(), Some("photos"));

    let form = UploadForm::new(1);
    let mut big = UploadForm::new(1).begin_file(Some("a.png"), None).unwrap();
    let chunk = vec![0u8; 1024 * 1024];
    assert!(form.push_chunk(&mut big, &chunk).is_ok());
    assert_eq!(form.push_chunk(&mut big, &[0]), Err(MediaError::TooLarge { max_mb: 1 }));
    assert_eq!(form.finish().err(), Some(MediaError::FileFieldRequired));

    let mut form = UploadForm::new(1);
    form.set_category(vec![0xff, 0xfe]);
    assert!(form.category.is_none());
}

#[test]
fn rename_needs_a_name() {
    assert_eq!(checked_media_name("  photo.png "), Ok("photo.png".to_string()));
    let e = checked_media_name("   ").err().unwrap();
    assert_eq!(e, MediaError::EmptyFileName);
    assert_eq!(e.to_string(), "文件名不能为空");
    assert_eq!(media_not_found_message("m1"), "媒体文件 'm1' 未找到");
}

#[test]
fn thumbnail_record_copies_info() {
    let info = ThumbnailInfo {
        size_label: "400w".to_string(),
        width: 400,
        height: 300,
        storage_path: "thumb/m1_thumb_400w.webp".to_string(),
        public_url: "/uploads/thumb/m1_thumb_400w.webp".to_string(),
        size_bytes: 1234,
    };
    let r = thumbnail_record("t1".to_string(), "m1", "2025-01-01T00:00:00Z".to_string(), &info);
    assert_eq!(r.id, "t1");
    assert_eq!(r.media_id, "m1");
    assert_eq!((r.width, r.height), (400, 300));
    assert_eq!(r.size_label, "400w");
    assert_eq!(r.storage_path, "thumb/m1_thumb_400w.webp");
    assert_eq!(r.size_bytes, 1234);
}

#[test]
fn classify_svg_as_image() {
    let (kind, mime) = classify_file("svg").unwrap();
    assert_eq!(kind, "image");
    assert_eq!(mime, "image/svg+xml");
    assert!(is_allowed_mime_type("image/svg+xml"));
}

#[test]
fn svg_upload_is_accepted_and_not_converted() {
    let c = validate_upload("logo.svg", &Some("image/svg+xml".to_string()), 2048, 10).unwrap();
    assert_eq!(c.kind, "image");
    assert_eq!(c.mime_type, "image/svg+xml");
    assert_eq!(c.ext, "svg");
    let c = validate_upload("Logo.SVG", &None, 2048, 10).unwrap();
    assert_eq!(c.mime_type, "image/svg+xml");
    assert_eq!(c.ext, "svg");
    assert!(!should_queue_conversion(true, "image/svg+xml", 2048));
}

#[test]
fn upload_extension_case_variants_are_checked_alike() {
    for name in ["test.JPG", "test.jPeG", "test.jpg"] {
        let c = validate_upload(name, &Some("image/jpeg".to_string()), 100, 10).unwrap();
        assert_eq!(c.kind, "image");
        assert_eq!(c.mime_type, "image/jpeg");
    }
    assert_eq!(validate_upload("test.JPG", &None, 100, 10).unwrap().ext, "jpg");
}
