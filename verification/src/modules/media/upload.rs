//! The checks an upload passes before it is stored, and where it is stored.
//!
//! A file is classified by its extension (lower-cased); its MIME type is the one the
//! client sent, else the one `mime_guess` knows for the extension, else the expected
//! one; that type must be allowed and must match the extension, and the file must fit
//! the size limit.

use vstd::prelude::*;

use crate::infra::file_watcher::file_name_spec;
use crate::modules::media::conversion::{should_skip_conversion, skips_conversion};
use crate::text::{
    ascii_lower_seq, chars_of, decimal_spec, decimal_string, is_ascii_seq, opt_string_view, push_str, spec_str_to_lowercase, str_eq, str_to_lowercase,
    string_of, string_push, sub_chars, trim_spec,
};

verus! {

/// Why an upload was refused.
#[derive(Debug, Clone, Copy, PartialEq, Eq, Structural)]
pub enum MediaError {
    /// The file name has no extension.
    ExtensionRequired,
    /// The extension is not one of the supported ones.
    UnsupportedMediaType,
    /// The MIME type is not one of the allowed ones.
    MimeNotAllowed,
    /// The MIME type is allowed but is not the one of the extension.
    MimeMismatch,
    /// The file is larger than the limit, given in MB.
    TooLarge { max_mb: u64 },
    /// The request carries no `Content-Type` header.
    MissingContentType,
    /// The `Content-Type` header names no multipart boundary.
    MissingBoundary,
    /// The form has no `file` field.
    FileFieldRequired,
    /// A rename gives a blank file name.
    EmptyFileName,
}

/// The message of a refusal.
pub open spec fn media_error_message(e: MediaError) -> Seq<char> {
    match e {
        MediaError::ExtensionRequired => "file extension is required"@,
        MediaError::UnsupportedMediaType => "unsupported media type"@,
        MediaError::MimeNotAllowed => "mime type is not allowed"@,
        MediaError::MimeMismatch => "mime type does not match file extension"@,
        MediaError::TooLarge { max_mb } => "file exceeds max size of "@ + decimal_spec(max_mb as nat) + " MB"@,
        MediaError::MissingContentType => "Missing Content-Type header"@,
        MediaError::MissingBoundary => "Invalid multipart Content-Type, missing boundary"@,
        MediaError::FileFieldRequired => "file field is required"@,
        MediaError::EmptyFileName => "文件名不能为空"@,
    }
}

impl MediaError {
    /// The message sent with the refusal.
    pub fn to_string(&self) -> (r: String)
        ensures
            r@ == media_error_message(*self),
    {
        match self {
            MediaError::ExtensionRequired => "file extension is required".to_owned(),
            MediaError::UnsupportedMediaType => "unsupported media type".to_owned(),
            MediaError::MimeNotAllowed => "mime type is not allowed".to_owned(),
            MediaError::MimeMismatch => "mime type does not match file extension".to_owned(),
            MediaError::TooLarge { max_mb } => {
                let mut s = "file exceeds max size of ".to_owned();
                let n = decimal_string(*max_mb);
                push_str(&mut s, n.as_str());
                push_str(&mut s, " MB");
                s
            },
            MediaError::MissingContentType => "Missing Content-Type header".to_owned(),
            MediaError::MissingBoundary => "Invalid multipart Content-Type, missing boundary".to_owned(),
            MediaError::FileFieldRequired => "file field is required".to_owned(),
            MediaError::EmptyFileName => "文件名不能为空".to_owned(),
        }
    }
}

/// The MIME types that uploads may have.
pub open spec fn allowed_mime_spec(m: Seq<char>) -> bool {
    ||| m == "image/jpeg"@
    ||| m == "image/png"@
    ||| m == "image/webp"@
    ||| m == "image/gif"@
    ||| m == "image/svg+xml"@
    ||| m == "audio/mpeg"@
    ||| m == "audio/ogg"@
    ||| m == "audio/wav"@
    ||| m == "audio/mp4"@
}

/// Whether uploads may have this MIME type.
pub fn is_allowed_mime_type(m: &str) -> (r: bool)
    ensures
        r == allowed_mime_spec(m@),
{
    str_eq(m, "image/jpeg") || str_eq(m, "image/png") || str_eq(m, "image/webp") || str_eq(m, "image/gif")
        || str_eq(m, "image/svg+xml") || str_eq(m, "audio/mpeg") || str_eq(m, "audio/ogg") || str_eq(m, "audio/wav") || str_eq(
        m,
        "audio/mp4",
    )
}

/// The kind and expected MIME type of a (lower-case) extension.
pub open spec fn classify_spec(ext: Seq<char>) -> Option<(Seq<char>, Seq<char>)> {
    if ext == "jpg"@ || ext == "jpeg"@ {
        Some(("image"@, "image/jpeg"@))
    } else if ext == "png"@ {
        Some(("image"@, "image/png"@))
    } else if ext == "webp"@ {
        Some(("image"@, "image/webp"@))
    } else if ext == "gif"@ {
        Some(("image"@, "image/gif"@))
    } else if ext == "svg"@ {
        Some(("image"@, "image/svg+xml"@))
    } else if ext == "mp3"@ {
        Some(("audio"@, "audio/mpeg"@))
    } else if ext == "ogg"@ {
        Some(("audio"@, "audio/ogg"@))
    } else if ext == "wav"@ {
        Some(("audio"@, "audio/wav"@))
    } else if ext == "m4a"@ {
        Some(("audio"@, "audio/mp4"@))
    } else {
        None
    }
}

/// The view of a classification.
pub open spec fn classified_view(c: Option<(&str, &str)>) -> Option<(Seq<char>, Seq<char>)> {
    match c {
        Some((k, m)) => Some((k@, m@)),
        None => None,
    }
}

/// The kind (`image` or `audio`) and the expected MIME type of a file extension.
pub fn classify_file(ext: &str) -> (r: Option<(&'static str, &'static str)>)
    ensures
        classified_view(r) == classify_spec(ext@),
{
    if str_eq(ext, "jpg") || str_eq(ext, "jpeg") {
        Some(("image", "image/jpeg"))
    } else if str_eq(ext, "png") {
        Some(("image", "image/png"))
    } else if str_eq(ext, "webp") {
        Some(("image", "image/webp"))
    } else if str_eq(ext, "gif") {
        Some(("image", "image/gif"))
    } else if str_eq(ext, "svg") {
        Some(("image", "image/svg+xml"))
    } else if str_eq(ext, "mp3") {
        Some(("audio", "audio/mpeg"))
    } else if str_eq(ext, "ogg") {
        Some(("audio", "audio/ogg"))
    } else if str_eq(ext, "wav") {
        Some(("audio", "audio/wav"))
    } else if str_eq(ext, "m4a") {
        Some(("audio", "audio/mp4"))
    } else {
        None
    }
}

/// The position of the last `.` in `s`, if any.
pub open spec fn last_dot(s: Seq<char>) -> Option<int>
    decreases s.len(),
{
    if s.len() == 0 {
        None
    } else if s.last() == '.' {
        Some(s.len() - 1)
    } else {
        last_dot(s.drop_last())
    }
}

/// The extension of a file name: what follows its last `.`, unless there is none or
/// the only `.` starts the name (a hidden file such as `.bashrc` has no extension).
pub open spec fn name_extension_spec(name: Seq<char>) -> Option<Seq<char>> {
    match last_dot(name) {
        Some(i) => if i == 0 { None } else { Some(name.skip(i + 1)) },
        None => None,
    }
}

/// The extension of a path, as `Path::extension` gives it: that of its file name.
pub open spec fn extension_spec(path: Seq<char>) -> Option<Seq<char>> {
    match file_name_spec(path) {
        Some(name) => name_extension_spec(name),
        None => None,
    }
}

/// The extension of a file name (or path), if it has one.
pub fn file_extension(name: &str) -> (r: Option<String>)
    ensures
        opt_string_view(r) == extension_spec(name@),
{
    let file = match crate::infra::file_watcher::file_name(name) {
        Some(f) => f,
        None => return None,
    };
    let v = chars_of(file.as_str());
    let n = v.len();
    let mut i: usize = n;
    assert(v@.take(n as int) =~= v@);
    while i > 0 && v[i - 1] != '.'
        invariant
            i <= n,
            n == v@.len(),
            last_dot(v@) == last_dot(v@.take(i as int)),
        decreases i,
    {
        assert(v@.take(i as int).drop_last() =~= v@.take(i - 1));
        i = i - 1;
    }
    if i == 0 {
        assert(v@.take(0) =~= Seq::<char>::empty());
        return None;
    }
    assert(v@.take(i as int).last() == '.');
    if i == 1 {
        return None;
    }
    let ext = sub_chars(&v, i, n);
    assert(ext@ =~= v@.skip(i as int));
    Some(string_of(&ext))
}

/// The MIME type of an upload: the client's when it sent a non-empty one, else the one
/// guessed from the extension, else the one the extension expects.
pub open spec fn upload_mime_spec(
    content_type: Option<Seq<char>>,
    guessed: Option<Seq<char>>,
    expected: Seq<char>,
) -> Seq<char> {
    match content_type {
        Some(ct) if ct.len() > 0 => ct,
        _ => match guessed {
            Some(g) => g,
            None => expected,
        },
    }
}

/// What an accepted upload is: its kind, its MIME type and its (lower-case) extension.
pub struct UploadCheck {
    pub kind: String,
    pub mime_type: String,
    pub ext: String,
}

/// The outcome of the checks, as values.
pub open spec fn check_view(r: Result<UploadCheck, MediaError>) -> Result<(Seq<char>, Seq<char>, Seq<char>), MediaError> {
    match r {
        Ok(c) => Ok((c.kind@, c.mime_type@, c.ext@)),
        Err(e) => Err(e),
    }
}

/// The outcome of the checks on a lower-cased extension, the client's content type,
/// the guessed type, the size and the limit in MB.
pub open spec fn check_upload_spec(
    ext: Seq<char>,
    content_type: Option<Seq<char>>,
    guessed: Option<Seq<char>>,
    size: u64,
    max_mb: u64,
) -> Result<(Seq<char>, Seq<char>, Seq<char>), MediaError> {
    match classify_spec(ext) {
        None => Err(MediaError::UnsupportedMediaType),
        Some((kind, expected)) => {
            let mime = upload_mime_spec(content_type, guessed, expected);
            if !allowed_mime_spec(mime) {
                Err(MediaError::MimeNotAllowed)
            } else if mime != expected {
                Err(MediaError::MimeMismatch)
            } else if size > max_mb * 1048576 {
                Err(MediaError::TooLarge { max_mb })
            } else {
                Ok((kind, mime, ext))
            }
        },
    }
}

/// The checks on an upload whose extension is already lower-cased and whose guessed
/// MIME type is known.
pub fn check_upload(
    ext: &str,
    content_type: &Option<String>,
    guessed: &Option<String>,
    size: u64,
    max_upload_size_mb: u64,
) -> (r: Result<UploadCheck, MediaError>)
    requires
        max_upload_size_mb * 1048576 <= u64::MAX,
    ensures
        check_view(r) == check_upload_spec(
            ext@,
            opt_string_view(*content_type),
            opt_string_view(*guessed),
            size,
            max_upload_size_mb,
        ),
{
    let (kind, expected) = match classify_file(ext) {
        Some(c) => c,
        None => return Err(MediaError::UnsupportedMediaType),
    };
    let sent = match content_type {
        Some(ct) => chars_of(ct.as_str()).len() > 0,
        None => false,
    };
    let mime: String = if sent {
        match content_type {
            Some(ct) => ct.clone(),
            None => expected.to_owned(),
        }
    } else {
        match guessed {
            Some(g) => g.clone(),
            None => expected.to_owned(),
        }
    };
    if !is_allowed_mime_type(mime.as_str()) {
        return Err(MediaError::MimeNotAllowed);
    }
    if !str_eq(mime.as_str(), expected) {
        return Err(MediaError::MimeMismatch);
    }
    if size > max_upload_size_mb * 1048576 {
        return Err(MediaError::TooLarge { max_mb: max_upload_size_mb });
    }
    Ok(UploadCheck { kind: kind.to_owned(), mime_type: mime, ext: ext.to_owned() })
}

/// Names the first MIME type that `mime_guess` lists for an extension.
pub uninterp spec fn spec_guess_mime(ext: Seq<char>) -> Option<Seq<char>>;

/// Calls `mime_guess::from_ext(ext).first()` and writes the guessed type as text. The
/// result is named; `mime_guess`'s source returns an empty guess for an empty
/// extension, which is stated.
#[verifier::external_body]
fn guess_mime_from_ext(ext: &str) -> (r: Option<String>)
    ensures
        opt_string_view(r) == spec_guess_mime(ext@),
        ext@.len() == 0 ==> r is None,
{
    mime_guess::from_ext(ext).first().map(|m| m.to_string())
}

/// The outcome of all the checks on an upload of `original_name`.
pub open spec fn validate_upload_spec(
    original_name: Seq<char>,
    content_type: Option<Seq<char>>,
    size: u64,
    max_mb: u64,
) -> Result<(Seq<char>, Seq<char>, Seq<char>), MediaError> {
    match extension_spec(original_name) {
        None => Err(MediaError::ExtensionRequired),
        Some(ext) => {
            let lower = spec_str_to_lowercase(ext);
            check_upload_spec(lower, content_type, spec_guess_mime(lower), size, max_mb)
        },
    }
}

/// Checks an upload: its name must have an extension, which is lower-cased and
/// classified; then the MIME type and size checks of [`check_upload`] apply. An ASCII
/// extension is lower-cased letter by letter, so `JPG`, `jPeG` and `jpg` are checked
/// alike.
pub fn validate_upload(
    original_name: &str,
    content_type: &Option<String>,
    size: u64,
    max_upload_size_mb: u64,
) -> (r: Result<UploadCheck, MediaError>)
    requires
        max_upload_size_mb * 1048576 <= u64::MAX,
    ensures
        check_view(r) == validate_upload_spec(
            original_name@,
            opt_string_view(*content_type),
            size,
            max_upload_size_mb,
        ),
        extension_spec(original_name@) matches Some(e) ==> (is_ascii_seq(e) ==> check_view(r) == check_upload_spec(
            ascii_lower_seq(e),
            opt_string_view(*content_type),
            spec_guess_mime(ascii_lower_seq(e)),
            size,
            max_upload_size_mb,
        )),
{
    let ext = match file_extension(original_name) {
        Some(e) => e,
        None => return Err(MediaError::ExtensionRequired),
    };
    let lower = str_to_lowercase(ext.as_str());
    let guessed = guess_mime_from_ext(lower.as_str());
    check_upload(lower.as_str(), content_type, &guessed, size, max_upload_size_mb)
}

/// `s` with every `from` replaced by `to`.
pub open spec fn replace_char_spec(s: Seq<char>, from: char, to: char) -> Seq<char> {
    s.map_values(|c: char| if c == from { to } else { c })
}

/// Where an accepted upload is stored: the stored name is the id and the extension,
/// the storage path is under `media/` (with `/` separators), and the public URL is the
/// storage path under `/uploads/`.
pub struct UploadPaths {
    pub stored_name: String,
    pub storage_path: String,
    pub public_url: String,
}

/// The stored name of an upload.
pub open spec fn stored_name_spec(id: Seq<char>, ext: Seq<char>) -> Seq<char> {
    id + "."@ + ext
}

/// The storage path of an upload.
pub open spec fn storage_path_spec(id: Seq<char>, ext: Seq<char>) -> Seq<char> {
    replace_char_spec("media/"@ + stored_name_spec(id, ext), '\\', '/')
}

/// The paths of an upload stored under the id `id` with extension `ext`.
pub fn upload_paths(id: &str, ext: &str) -> (r: UploadPaths)
    ensures
        r.stored_name@ == stored_name_spec(id@, ext@),
        r.storage_path@ == storage_path_spec(id@, ext@),
        r.public_url@ == "/uploads/"@ + storage_path_spec(id@, ext@),
{
    let mut stored = id.to_owned();
    push_str(&mut stored, ".");
    push_str(&mut stored, ext);
    let mut joined = "media/".to_owned();
    push_str(&mut joined, stored.as_str());
    let v = chars_of(joined.as_str());
    let mut storage = String::new();
    let n = v.len();
    let mut i: usize = 0;
    while i < n
        invariant
            n == v@.len(),
            i <= n,
            storage@ == replace_char_spec(v@.take(i as int), '\\', '/'),
        decreases n - i,
    {
        let c = if v[i] == '\\' { '/' } else { v[i] };
        string_push(&mut storage, c);
        assert(replace_char_spec(v@.take(i + 1), '\\', '/') =~= replace_char_spec(v@.take(i as int), '\\', '/').push(c));
        i = i + 1;
    }
    assert(v@.take(n as int) =~= v@);
    let mut url = "/uploads/".to_owned();
    push_str(&mut url, storage.as_str());
    UploadPaths { stored_name: stored, storage_path: storage, public_url: url }
}

/// Whether an accepted upload is handed to the WebP converter: conversion is on and
/// the file is not one that the converter skips.
pub fn should_queue_conversion(webp_enabled: bool, mime_type: &str, size: u64) -> (r: bool)
    ensures
        r == (webp_enabled && !skips_conversion(mime_type@, size)),
{
    webp_enabled && !should_skip_conversion(mime_type, size)
}

/// The name a media file is renamed to: the new name trimmed, which must not be blank.
pub fn checked_media_name(new_name: &str) -> (r: Result<String, MediaError>)
    ensures
        match r {
            Ok(n) => trim_spec(new_name@).len() > 0 && n@ == trim_spec(new_name@),
            Err(e) => trim_spec(new_name@).len() == 0 && e == MediaError::EmptyFileName,
        },
{
    let t = crate::text::trim_str(new_name);
    if t.len() == 0 {
        Err(MediaError::EmptyFileName)
    } else {
        Ok(string_of(&t))
    }
}

/// The message of a media lookup that found nothing.
pub fn media_not_found_message(id: &str) -> (r: String)
    ensures
        r@ == "媒体文件 '"@ + id@ + "' 未找到"@,
{
    let mut s = "媒体文件 '".to_owned();
    push_str(&mut s, id);
    push_str(&mut s, "' 未找到");
    s
}

/// An accepted upload has the kind and MIME type that its extension expects, and that
/// type is an allowed one, whatever type the client sent or the guess gave.
pub proof fn law_accepted_upload_matches_its_extension(
    ext: Seq<char>,
    content_type: Option<Seq<char>>,
    guessed: Option<Seq<char>>,
    size: u64,
    max_mb: u64,
)
    requires
        check_upload_spec(ext, content_type, guessed, size, max_mb) is Ok,
    ensures
        ({
            let (kind, mime, e) = check_upload_spec(ext, content_type, guessed, size, max_mb)->Ok_0;
            &&& classify_spec(ext) == Some((kind, mime))
            &&& allowed_mime_spec(mime)
            &&& e == ext
            &&& size <= max_mb * 1048576
        }),
{
}

} // verus!
