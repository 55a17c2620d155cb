//! The embedded admin app's static files: which paths are refused, and the content type
//! and headers that a served file gets.

use vstd::prelude::*;

use crate::modules::media::upload::last_dot;
use crate::text::{chars_of, contains_char, contains_chars, contains_spec, starts_with, starts_with_spec, str_eq, string_of, sub_chars};

verus! {

/// Whether an admin asset path is refused: it holds `..` or `\`, or starts with `/`.
pub open spec fn asset_forbidden_spec(path: Seq<char>) -> bool {
    ||| contains_spec(path, ".."@)
    ||| path.contains('\\')
    ||| (path.len() > 0 && path[0] == '/')
}

/// Whether an admin asset path is refused (answered with 403).
pub fn admin_asset_forbidden(path: &str) -> (r: bool)
    ensures
        r == asset_forbidden_spec(path@),
{
    let v = chars_of(path);
    contains_chars(&v, &chars_of("..")) || contains_char(&v, '\\') || (v.len() > 0 && v[0] == '/')
}

/// What follows the last `.` of a path, or the whole path without one.
pub open spec fn asset_extension_spec(path: Seq<char>) -> Seq<char> {
    match last_dot(path) {
        Some(i) => path.skip(i + 1),
        None => path,
    }
}

/// The extension of an admin asset path.
pub fn admin_asset_extension(path: &str) -> (r: String)
    ensures
        r@ == asset_extension_spec(path@),
{
    let v = chars_of(path);
    let n = v.len();
    let mut i: usize = n;
    assert(v@.take(n as int) =~= v@);
    while i > 0 && v[i - 1] != '.'
        invariant
            i <= n,
            n == v@.len(),
            last_dot(v@) == last_dot(v@.take(i as int)),
        decreases i,
    {
        assert(v@.take(i as int).drop_last() =~= v@.take(i - 1));
        i = i - 1;
    }
    if i == 0 {
        assert(v@.take(0) =~= Seq::<char>::empty());
        return path.to_owned();
    }
    assert(v@.take(i as int).last() == '.');
    let ext = sub_chars(&v, i, n);
    assert(ext@ =~= v@.skip(i as int));
    string_of(&ext)
}

/// The content type of an admin asset by its extension.
pub open spec fn asset_mime_spec(ext: Seq<char>) -> Seq<char> {
    if ext == "html"@ {
        "text/html; charset=utf-8"@
    } else if ext == "css"@ {
        "text/css"@
    } else if ext == "js"@ {
        "application/javascript"@
    } else if ext == "png"@ {
        "image/png"@
    } else if ext == "jpg"@ || ext == "jpeg"@ {
        "image/jpeg"@
    } else if ext == "gif"@ {
        "image/gif"@
    } else if ext == "svg"@ {
        "image/svg+xml"@
    } else if ext == "webp"@ {
        "image/webp"@
    } else if ext == "woff"@ {
        "font/woff"@
    } else if ext == "woff2"@ {
        "font/woff2"@
    } else if ext == "ttf"@ {
        "font/ttf"@
    } else if ext == "eot"@ {
        "application/vnd.ms-fontobject"@
    } else if ext == "ico"@ {
        "image/x-icon"@
    } else if ext == "map"@ {
        "application/json"@
    } else {
        "application/octet-stream"@
    }
}

/// The content type of an admin asset path.
pub fn admin_asset_mime(path: &str) -> (r: &'static str)
    ensures
        r@ == asset_mime_spec(asset_extension_spec(path@)),
{
    let e = admin_asset_extension(path);
    let ext = e.as_str();
    if str_eq(ext, "html") {
        "text/html; charset=utf-8"
    } else if str_eq(ext, "css") {
        "text/css"
    } else if str_eq(ext, "js") {
        "application/javascript"
    } else if str_eq(ext, "png") {
        "image/png"
    } else if str_eq(ext, "jpg") || str_eq(ext, "jpeg") {
        "image/jpeg"
    } else if str_eq(ext, "gif") {
        "image/gif"
    } else if str_eq(ext, "svg") {
        "image/svg+xml"
    } else if str_eq(ext, "webp") {
        "image/webp"
    } else if str_eq(ext, "woff") {
        "font/woff"
    } else if str_eq(ext, "woff2") {
        "font/woff2"
    } else if str_eq(ext, "ttf") {
        "font/ttf"
    } else if str_eq(ext, "eot") {
        "application/vnd.ms-fontobject"
    } else if str_eq(ext, "ico") {
        "image/x-icon"
    } else if str_eq(ext, "map") {
        "application/json"
    } else {
        "application/octet-stream"
    }
}

/// Whether a response with this content type gets `Content-Security-Policy: sandbox`,
/// so that scripts inside an SVG do not run: it is an SVG.
pub fn needs_svg_sandbox(content_type: &str) -> (r: bool)
    ensures
        r == starts_with_spec(content_type@, "image/svg+xml"@),
{
    starts_with(&chars_of(content_type), &chars_of("image/svg+xml"))
}

/// Every `.svg` asset of the admin app is served as an SVG, so it always gets the
/// sandbox header.
pub proof fn law_svg_assets_are_sandboxed(path: Seq<char>)
    requires
        asset_extension_spec(path) == "svg"@,
    ensures
        starts_with_spec(asset_mime_spec(asset_extension_spec(path)), "image/svg+xml"@),
{
    reveal_strlit("svg");
    reveal_strlit("html");
    reveal_strlit("css");
    reveal_strlit("js");
    reveal_strlit("png");
    reveal_strlit("jpg");
    reveal_strlit("jpeg");
    reveal_strlit("gif");
    reveal_strlit("image/svg+xml");
    let e = asset_extension_spec(path);
    assert(e != "html"@ && e != "jpeg"@) by {
        assert(e.len() == 3);
    }
    assert(e != "css"@) by {
        assert(e[0] != "css"@[0]);
    }
    assert(e != "js"@) by {
        assert(e.len() != "js"@.len());
    }
    assert(e != "png"@) by {
        assert(e[0] != "png"@[0]);
    }
    assert(e != "jpg"@) by {
        assert(e[0] != "jpg"@[0]);
    }
    assert(e != "gif"@) by {
        assert(e[0] != "gif"@[0]);
    }
    assert("image/svg+xml"@.take(13) =~= "image/svg+xml"@);
}

} // verus!
