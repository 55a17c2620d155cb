//! The multipart upload form, read field by field as the body streams in.
//!
//! The request's `Content-Type` names the boundary; the HTTP layer parses the stream
//! and hands each field here: the first `file` field is kept (later ones are skipped),
//! its chunks are appended while the size limit holds, and a `category` field is kept
//! when it is valid UTF-8.

use vstd::prelude::*;

use crate::modules::media::upload::MediaError;
use crate::text::{
    chars_of, split_chars, split_spec, starts_with, starts_with_spec, string_of, sub_chars, trim_chars, trim_spec,
};

verus! {

/// `s` without its leading `c` characters.
pub open spec fn trim_start_char_spec(s: Seq<char>, c: char) -> Seq<char>
    decreases s.len(),
{
    if s.len() > 0 && s[0] == c {
        trim_start_char_spec(s.drop_first(), c)
    } else {
        s
    }
}

/// `s` without its trailing `c` characters.
pub open spec fn trim_end_char_spec(s: Seq<char>, c: char) -> Seq<char>
    decreases s.len(),
{
    if s.len() > 0 && s.last() == c {
        trim_end_char_spec(s.drop_last(), c)
    } else {
        s
    }
}

/// `s` without the `c` characters at either end, as `str::trim_matches` leaves it.
pub open spec fn trim_matches_spec(s: Seq<char>, c: char) -> Seq<char> {
    trim_end_char_spec(trim_start_char_spec(s, c), c)
}

/// The boundary of the first `;`-separated parameter that (trimmed) starts with
/// `boundary=`, without surrounding quotes.
pub open spec fn first_boundary(segs: Seq<Seq<char>>) -> Option<Seq<char>>
    decreases segs.len(),
{
    if segs.len() == 0 {
        None
    } else if starts_with_spec(trim_spec(segs[0]), "boundary="@) {
        Some(trim_matches_spec(trim_spec(segs[0]).skip(9), '"'))
    } else {
        first_boundary(segs.drop_first())
    }
}

/// The multipart boundary that a `Content-Type` value names.
pub open spec fn boundary_spec(content_type: Seq<char>) -> Option<Seq<char>> {
    first_boundary(split_spec(content_type, ';'))
}

/// `v` without the `c` characters at either end.
fn trim_matches_chars(v: &Vec<char>, c: char) -> (r: Vec<char>)
    ensures
        r@ == trim_matches_spec(v@, c),
{
    let n = v.len();
    let mut a: usize = 0;
    assert(v@.skip(0) =~= v@);
    while a < n && v[a] == c
        invariant
            a <= n,
            n == v@.len(),
            trim_start_char_spec(v@, c) == trim_start_char_spec(v@.skip(a as int), c),
        decreases n - a,
    {
        assert(v@.skip(a as int).drop_first() =~= v@.skip(a + 1));
        a = a + 1;
    }
    assert(trim_start_char_spec(v@.skip(a as int), c) == v@.skip(a as int));
    let mut b: usize = n;
    while b > a && v[b - 1] == c
        invariant
            a <= b <= n,
            n == v@.len(),
            trim_end_char_spec(v@.skip(a as int), c) == trim_end_char_spec(v@.subrange(a as int, b as int), c),
        decreases b - a,
    {
        assert(v@.subrange(a as int, b as int).drop_last() =~= v@.subrange(a as int, b - 1));
        b = b - 1;
    }
    proof {
        assert(v@.skip(a as int) =~= v@.subrange(a as int, n as int));
    }
    sub_chars(v, a, b)
}

/// The multipart boundary named by a `Content-Type` value, if any.
pub fn extract_multipart_boundary(content_type: &str) -> (r: Option<String>)
    ensures
        match r {
            Some(b) => boundary_spec(content_type@) == Some(b@),
            None => boundary_spec(content_type@) is None,
        },
{
    let segs = split_chars(&chars_of(content_type), ';');
    let ghost ps = split_spec(content_type@, ';');
    let prefix = chars_of("boundary=");
    proof {
        reveal_strlit("boundary=");
    }
    assert(ps.skip(0) =~= ps);
    let n = segs.len();
    let mut i: usize = 0;
    while i < n
        invariant
            n == segs@.len(),
            i <= n,
            ps == split_spec(content_type@, ';'),
            ps == segs@.map_values(|p: Vec<char>| p@),
            prefix@ == "boundary="@,
            "boundary="@.len() == 9,
            first_boundary(ps) == first_boundary(ps.skip(i as int)),
        decreases n - i,
    {
        assert(ps.skip(i as int)[0] == segs@[i as int]@);
        assert(ps.skip(i as int).drop_first() =~= ps.skip(i + 1));
        let seg = trim_chars(&segs[i]);
        if starts_with(&seg, &prefix) {
            let rest = sub_chars(&seg, 9, seg.len());
            assert(rest@ =~= seg@.skip(9));
            return Some(string_of(&trim_matches_chars(&rest, '"')));
        }
        i = i + 1;
    }
    assert(ps.skip(n as int) =~= Seq::<Seq<char>>::empty());
    None
}

/// The boundary of an upload request: the `Content-Type` header must be there and must
/// name one.
pub fn upload_boundary(content_type: Option<&str>) -> (r: Result<String, MediaError>)
    ensures
        match content_type {
            None => r == Err::<String, MediaError>(MediaError::MissingContentType),
            Some(ct) => match boundary_spec(ct@) {
                Some(b) => r matches Ok(s) && s@ == b,
                None => r == Err::<String, MediaError>(MediaError::MissingBoundary),
            },
        },
{
    match content_type {
        None => Err(MediaError::MissingContentType),
        Some(ct) => match extract_multipart_boundary(ct) {
            Some(b) => Ok(b),
            None => Err(MediaError::MissingBoundary),
        },
    }
}

/// Calls `String::from_utf8`, documented to succeed exactly when the bytes are valid
/// UTF-8, with the string they encode.
#[verifier::external_body]
fn string_from_utf8(bytes: Vec<u8>) -> (r: Option<String>)
    ensures
        match r {
            Some(s) => vstd::utf8::encode_utf8(s@) == bytes@,
            None => forall|cs: Seq<char>| #[trigger] vstd::utf8::encode_utf8(cs) != bytes@,
        },
{
    String::from_utf8(bytes).ok()
}

/// The fields of an upload form read so far.
pub struct UploadForm {
    pub file_data: Option<Vec<u8>>,
    pub filename: Option<String>,
    pub content_type: Option<String>,
    pub category: Option<String>,
    /// The size limit in bytes.
    pub max_bytes: u64,
    /// The size limit in MB, for the message.
    pub max_mb: u64,
}

/// A file field being read.
pub struct FileField {
    pub data: Vec<u8>,
}

/// What a finished form holds: the file's bytes, name and type, and the category.
pub struct UploadFields {
    pub data: Vec<u8>,
    pub filename: String,
    pub content_type: Option<String>,
    pub category: Option<String>,
}

impl UploadForm {
    /// An empty form with a size limit of `max_upload_size_mb` MB.
    pub fn new(max_upload_size_mb: u64) -> (f: Self)
        requires
            max_upload_size_mb * 1048576 <= u64::MAX,
        ensures
            f.file_data is None,
            f.filename is None,
            f.content_type is None,
            f.category is None,
            f.max_bytes == max_upload_size_mb * 1048576,
            f.max_mb == max_upload_size_mb,
    {
        UploadForm {
            file_data: None,
            filename: None,
            content_type: None,
            category: None,
            max_bytes: max_upload_size_mb * 1048576,
            max_mb: max_upload_size_mb,
        }
    }

    /// Starts a `file` field: `None` when a file was already read (the field is
    /// skipped); otherwise its name (`untitled` when it has none) and type are kept and
    /// an empty buffer is returned.
    pub fn begin_file(&mut self, file_name: Option<&str>, content_type: Option<String>) -> (r: Option<FileField>)
        ensures
            old(self).file_data is Some ==> r is None && *final(self) == *old(self),
            old(self).file_data is None ==> {
                &&& r matches Some(f) && f.data@.len() == 0
                &&& final(self).filename matches Some(n) && n@ == (match file_name {
                    Some(s) => s@,
                    None => "untitled"@,
                })
                &&& final(self).content_type == content_type
                &&& final(self).file_data is None
                &&& final(self).category == old(self).category
                &&& final(self).max_bytes == old(self).max_bytes
                &&& final(self).max_mb == old(self).max_mb
            },
    {
        if self.file_data.is_some() {
            return None;
        }
        self.filename = Some(
            match file_name {
                Some(n) => n.to_owned(),
                None => "untitled".to_owned(),
            },
        );
        self.content_type = content_type;
        Some(FileField { data: Vec::new() })
    }

    /// Appends a chunk to a file field; the upload is refused as soon as the data
    /// exceeds the limit.
    pub fn push_chunk(&self, field: &mut FileField, chunk: &[u8]) -> (r: Result<(), MediaError>)
        requires
            old(field).data@.len() + chunk@.len() <= usize::MAX,
        ensures
            final(field).data@ == old(field).data@ + chunk@,
            (final(field).data@.len() > self.max_bytes) <==> (r is Err),
            r is Err ==> r == Err::<(), MediaError>(MediaError::TooLarge { max_mb: self.max_mb }),
    {
        field.data.extend_from_slice(chunk);
        proof {
            assert(field.data@ =~= old(field).data@ + chunk@);
        }
        if field.data.len() as u64 > self.max_bytes {
            return Err(MediaError::TooLarge { max_mb: self.max_mb });
        }
        Ok(())
    }

    /// Ends a file field: its data becomes the form's file.
    pub fn end_file(&mut self, field: FileField)
        ensures
            final(self).file_data matches Some(d) && d@ == field.data@,
            final(self).filename == old(self).filename,
            final(self).content_type == old(self).content_type,
            final(self).category == old(self).category,
            final(self).max_bytes == old(self).max_bytes,
            final(self).max_mb == old(self).max_mb,
    {
        self.file_data = Some(field.data);
    }

    /// Reads a `category` field: kept when its bytes are valid UTF-8, cleared otherwise.
    pub fn set_category(&mut self, bytes: Vec<u8>)
        ensures
            match final(self).category {
                Some(c) => vstd::utf8::encode_utf8(c@) == bytes@,
                None => forall|cs: Seq<char>| #[trigger] vstd::utf8::encode_utf8(cs) != bytes@,
            },
            final(self).file_data == old(self).file_data,
            final(self).filename == old(self).filename,
            final(self).content_type == old(self).content_type,
            final(self).max_bytes == old(self).max_bytes,
            final(self).max_mb == old(self).max_mb,
    {
        self.category = string_from_utf8(bytes);
    }

    /// The form's fields once the stream ends: a file is required; its name defaults to
    /// `untitled`.
    pub fn finish(self) -> (r: Result<UploadFields, MediaError>)
        ensures
            match self.file_data {
                None => r == Err::<UploadFields, MediaError>(MediaError::FileFieldRequired),
                Some(d) => r matches Ok(f) && {
                    &&& f.data@ == d@
                    &&& f.filename@ == (match self.filename {
                        Some(n) => n@,
                        None => "untitled"@,
                    })
                    &&& f.content_type == self.content_type
                    &&& f.category == self.category
                },
            },
    {
        let data = match self.file_data {
            Some(d) => d,
            None => return Err(MediaError::FileFieldRequired),
        };
        let filename = match self.filename {
            Some(n) => n,
            None => "untitled".to_owned(),
        };
        Ok(UploadFields { data, filename, content_type: self.content_type, category: self.category })
    }
}

} // verus!
