//! The theme watcher's path filter: which changed paths under the theme directory
//! invalidate the template caches.
//!
//! A path is taken as a Unix path string. Its segments are the pieces between `/`
//! separators; empty segments (from repeated, leading or trailing separators) and `.`
//! segments are not named components, so the file name is the last segment that is
//! neither, unless that one is `..`.

use vstd::prelude::*;

use crate::text::{
    chars_eq, chars_of, ends_with, ends_with_spec, split_chars, split_spec, starts_with, starts_with_spec,
    string_of,
};

verus! {

/// A segment keeps the path relevant: it is not `node_modules` and not hidden (a
/// leading `.`), where `.` and `..` themselves are not hidden.
pub open spec fn segment_allowed(seg: Seq<char>) -> bool {
    &&& seg != "node_modules"@
    &&& !(starts_with_spec(seg, "."@) && seg != "."@ && seg != ".."@)
}

/// Whether a segment names a component: it is neither empty nor `.`.
pub open spec fn names_component(seg: Seq<char>) -> bool {
    seg.len() > 0 && seg != "."@
}

/// The last segment that names a component.
pub open spec fn last_component(segs: Seq<Seq<char>>) -> Option<Seq<char>>
    decreases segs.len(),
{
    if segs.len() == 0 {
        None
    } else if names_component(segs.last()) {
        Some(segs.last())
    } else {
        last_component(segs.drop_last())
    }
}

/// The file name of a path: its last component, unless that is `..`.
pub open spec fn file_name_spec(path: Seq<char>) -> Option<Seq<char>> {
    match last_component(split_spec(path, '/')) {
        Some(name) => if name == ".."@ { None } else { Some(name) },
        None => None,
    }
}

/// A file name of an editor backup, swap or temporary file.
pub open spec fn is_temp_name(name: Seq<char>) -> bool {
    ends_with_spec(name, "~"@) || ends_with_spec(name, ".swp"@) || ends_with_spec(name, ".tmp"@)
}

/// Whether a change of this path invalidates the template caches: no segment is
/// hidden or `node_modules`, and the path has a file name that is not a temporary one.
pub open spec fn invalidates_cache(path: Seq<char>) -> bool {
    let segs = split_spec(path, '/');
    &&& forall|i: int| 0 <= i < segs.len() ==> #[trigger] segment_allowed(segs[i])
    &&& match file_name_spec(path) {
        Some(name) => !is_temp_name(name),
        None => false,
    }
}

/// The file name of a path, as `Path::file_name` gives it: its last component, unless
/// that is `..`; none for a path without components.
pub fn file_name(path: &str) -> (r: Option<String>)
    ensures
        match r {
            Some(n) => file_name_spec(path@) == Some(n@),
            None => file_name_spec(path@) is None,
        },
{
    let segs = split_chars(&chars_of(path), '/');
    let ghost ps = split_spec(path@, '/');
    let dot = chars_of(".");
    let n = segs.len();
    let mut last: Option<usize> = None;
    let mut i: usize = 0;
    assert(ps.take(0) =~= Seq::<Seq<char>>::empty());
    while i < n
        invariant
            n == segs@.len(),
            i <= n,
            ps == split_spec(path@, '/'),
            ps == segs@.map_values(|p: Vec<char>| p@),
            dot@ == "."@,
            match last {
                Some(k) => k < i && last_component(ps.take(i as int)) == Some(ps[k as int]),
                None => last_component(ps.take(i as int)) is None,
            },
        decreases n - i,
    {
        assert(ps[i as int] == segs@[i as int]@);
        assert(ps.take(i + 1).drop_last() =~= ps.take(i as int));
        if segs[i].len() > 0 && !chars_eq(&segs[i], &dot) {
            last = Some(i);
        }
        i = i + 1;
    }
    assert(ps.take(n as int) =~= ps);
    let k = match last {
        Some(k) => k,
        None => return None,
    };
    assert(ps[k as int] == segs@[k as int]@);
    if chars_eq(&segs[k], &chars_of("..")) {
        return None;
    }
    Some(string_of(&segs[k]))
}

/// Whether a segment is allowed, computed.
fn segment_is_allowed(seg: &Vec<char>) -> (r: bool)
    ensures
        r == segment_allowed(seg@),
{
    let dot = chars_of(".");
    let dotdot = chars_of("..");
    let nm = chars_of("node_modules");
    if chars_eq(seg, &nm) {
        return false;
    }
    let hidden = starts_with(seg, &dot);
    !(hidden && !chars_eq(seg, &dot) && !chars_eq(seg, &dotdot))
}

/// Whether a change of `path` should invalidate the template caches: paths in hidden
/// directories or `node_modules`, hidden files, paths without a file name and editor
/// temporary files (`~`, `.swp`, `.tmp`) are ignored.
pub fn should_invalidate_cache_for_path(path: &str) -> (r: bool)
    ensures
        r == invalidates_cache(path@),
{
    let segs = split_chars(&chars_of(path), '/');
    let ghost ps = split_spec(path@, '/');
    let dot = chars_of(".");
    let n = segs.len();
    let mut last: Option<usize> = None;
    let mut i: usize = 0;
    assert(ps.take(0) =~= Seq::<Seq<char>>::empty());
    while i < n
        invariant
            n == segs@.len(),
            i <= n,
            ps == split_spec(path@, '/'),
            ps == segs@.map_values(|p: Vec<char>| p@),
            dot@ == "."@,
            forall|j: int| 0 <= j < i ==> #[trigger] segment_allowed(ps[j]),
            match last {
                Some(k) => k < i && last_component(ps.take(i as int)) == Some(ps[k as int]),
                None => last_component(ps.take(i as int)) is None,
            },
        decreases n - i,
    {
        assert(ps[i as int] == segs@[i as int]@);
        if !segment_is_allowed(&segs[i]) {
            return false;
        }
        assert(ps.take(i + 1).drop_last() =~= ps.take(i as int));
        if segs[i].len() > 0 && !chars_eq(&segs[i], &dot) {
            last = Some(i);
        }
        i = i + 1;
    }
    assert(ps.take(n as int) =~= ps);
    let k = match last {
        Some(k) => k,
        None => return false,
    };
    let name = &segs[k];
    assert(ps[k as int] == name@);
    proof {
        reveal_strlit("..");
    }
    if chars_eq(name, &chars_of("..")) {
        return false;
    }
    let temp = ends_with(name, &chars_of("~")) || ends_with(name, &chars_of(".swp")) || ends_with(
        name,
        &chars_of(".tmp"),
    );
    !temp
}

/// The kind of a file-system event, as the watcher reports it.
#[derive(Debug, Clone, Copy, PartialEq, Eq, Structural)]
pub enum FsEventKind {
    Any,
    Access,
    Create,
    Modify,
    Remove,
    Other,
}

/// Whether an event can change a template: a creation, a change or a removal; reads
/// and other events are noise.
pub fn is_relevant_event_kind(kind: FsEventKind) -> (r: bool)
    ensures
        r == (kind == FsEventKind::Create || kind == FsEventKind::Modify || kind == FsEventKind::Remove),
{
    match kind {
        FsEventKind::Create | FsEventKind::Modify | FsEventKind::Remove => true,
        _ => false,
    }
}

/// The paths of an event that invalidate the caches, in their order.
pub open spec fn relevant_paths_spec(paths: Seq<Seq<char>>) -> Seq<Seq<char>>
    decreases paths.len(),
{
    if paths.len() == 0 {
        Seq::empty()
    } else {
        let rest = relevant_paths_spec(paths.drop_last());
        if invalidates_cache(paths.last()) {
            rest.push(paths.last())
        } else {
            rest
        }
    }
}

/// The paths of an event that invalidate the caches.
pub fn collect_relevant_paths(paths: &Vec<String>) -> (r: Vec<String>)
    ensures
        r@.map_values(|s: String| s@) == relevant_paths_spec(paths@.map_values(|s: String| s@)),
{
    let ghost ps = paths@.map_values(|s: String| s@);
    let mut out: Vec<String> = Vec::new();
    let n = paths.len();
    let mut i: usize = 0;
    while i < n
        invariant
            n == paths@.len(),
            i <= n,
            ps == paths@.map_values(|s: String| s@),
            out@.map_values(|s: String| s@) == relevant_paths_spec(ps.take(i as int)),
        decreases n - i,
    {
        let ghost before = out@;
        assert(ps.take(i + 1).drop_last() =~= ps.take(i as int));
        assert(ps.take(i + 1).last() == paths@[i as int]@);
        if should_invalidate_cache_for_path(paths[i].as_str()) {
            let p = paths[i].clone();
            out.push(p);
            assert(out@.map_values(|s: String| s@) =~= before.map_values(|s: String| s@).push(p@));
        }
        i = i + 1;
    }
    assert(ps.take(n as int) =~= ps);
    out
}

} // verus!
