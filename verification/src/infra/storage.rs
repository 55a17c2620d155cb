//! Local file storage: where an upload path lands under the storage directory, which
//! paths are refused, and the public URL of a stored file.
//!
//! Paths are Unix path strings; joining follows `PathBuf::join` for a relative path:
//! a `/` is put between the directory and the path unless the directory is empty or
//! already ends with one.

use vstd::prelude::*;

use crate::text::{chars_of, contains_chars, contains_spec, push_str, starts_with_spec};

verus! {

/// Why a storage request was refused.
#[derive(Debug, Clone, Copy, PartialEq, Eq, Structural)]
pub enum StorageError {
    /// The path is absolute or climbs out of the storage directory.
    Forbidden,
}

/// Files stored under `base_dir`, served under `base_url`.
pub struct LocalStorage {
    pub base_dir: String,
    pub base_url: String,
}

/// A relative path joined to a directory.
pub open spec fn join_path_spec(dir: Seq<char>, path: Seq<char>) -> Seq<char> {
    if dir.len() == 0 || dir.last() == '/' {
        dir + path
    } else {
        dir + "/"@ + path
    }
}

/// A relative path joined to a directory.
pub fn join_path(dir: &str, path: &str) -> (r: String)
    ensures
        r@ == join_path_spec(dir@, path@),
{
    let mut out = dir.to_owned();
    let d = chars_of(dir);
    if d.len() > 0 && d[d.len() - 1] != '/' {
        push_str(&mut out, "/");
    }
    push_str(&mut out, path);
    out
}

/// Whether the storage refuses a path: it starts with `/` or `\`, or holds `..`.
pub open spec fn path_forbidden(path: Seq<char>) -> bool {
    ||| (path.len() > 0 && (path[0] == '/' || path[0] == '\\'))
    ||| contains_spec(path, ".."@)
}

/// `s` without its trailing `c` characters.
pub open spec fn trim_end_char_spec(s: Seq<char>, c: char) -> Seq<char>
    decreases s.len(),
{
    if s.len() > 0 && s.last() == c {
        trim_end_char_spec(s.drop_last(), c)
    } else {
        s
    }
}

/// The public URL of a stored path: the base URL without trailing slashes, a `/`, and
/// the path.
pub open spec fn public_url_spec(base_url: Seq<char>, path: Seq<char>) -> Seq<char> {
    trim_end_char_spec(base_url, '/') + "/"@ + path
}

impl LocalStorage {
    /// A storage rooted at `base_dir` whose files are served under `base_url`.
    pub fn new(base_dir: String, base_url: String) -> (r: Self)
        ensures
            r.base_dir@ == base_dir@,
            r.base_url@ == base_url@,
    {
        LocalStorage { base_dir, base_url }
    }

    /// The full path under the storage directory for a relative path; absolute paths
    /// and paths holding `..` are refused, so nothing outside the directory is reached.
    pub fn validate_path(&self, path: &str) -> (r: Result<String, StorageError>)
        ensures
            path_forbidden(path@) <==> (r is Err),
            match r {
                Ok(full) => full@ == join_path_spec(self.base_dir@, path@),
                Err(e) => e == StorageError::Forbidden,
            },
    {
        let p = chars_of(path);
        if p.len() > 0 && (p[0] == '/' || p[0] == '\\') {
            return Err(StorageError::Forbidden);
        }
        if contains_chars(&p, &chars_of("..")) {
            return Err(StorageError::Forbidden);
        }
        let full = join_path(self.base_dir.as_str(), path);
        Ok(full)
    }

    /// The public URL of a stored path.
    pub fn get_public_url(&self, path: &str) -> (r: String)
        ensures
            r@ == public_url_spec(self.base_url@, path@),
    {
        let url = chars_of(self.base_url.as_str());
        let mut end = url.len();
        assert(url@.take(end as int) =~= url@);
        while end > 0 && url[end - 1] == '/'
            invariant
                end <= url@.len(),
                trim_end_char_spec(url@, '/') == trim_end_char_spec(url@.take(end as int), '/'),
            decreases end,
        {
            assert(url@.take(end as int).drop_last() =~= url@.take(end - 1));
            end = end - 1;
        }
        assert(trim_end_char_spec(url@.take(end as int), '/') == url@.take(end as int));
        let mut out = String::new();
        let mut i: usize = 0;
        while i < end
            invariant
                end <= url@.len(),
                i <= end,
                out@ == url@.take(i as int),
            decreases end - i,
        {
            crate::text::string_push(&mut out, url[i]);
            assert(url@.take(i + 1) =~= url@.take(i as int).push(url@[i as int]));
            i = i + 1;
        }
        push_str(&mut out, "/");
        push_str(&mut out, path);
        out
    }
}

/// A path that the storage accepts lands under the storage directory: the joined
/// path starts with the directory, and the accepted path has no `..` in it.
pub proof fn law_accepted_paths_stay_under_base_dir(dir: Seq<char>, path: Seq<char>)
    requires
        !path_forbidden(path),
    ensures
        starts_with_spec(join_path_spec(dir, path), dir),
        !contains_spec(path, ".."@),
{
    let j = join_path_spec(dir, path);
    assert(j.take(dir.len() as int) =~= dir);
}

} // verus!
