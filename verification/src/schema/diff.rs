//! Schema diffing engine.
//!
//! Compares the current definition of a collection with its last recorded state in the
//! lock file and produces migration SQL. Only adding columns is supported: a removed
//! column or a changed column type is reported as a destructive change.

use vstd::prelude::*;
pub use vstd::hash_map::StringHashMap;

use crate::clock::now_rfc3339;
use crate::schema::types::{clone_fields, fields_view, FieldDef, FieldDefView};
use crate::text::{
    digits_value, is_digit, lemma_digits_value_monotonic, lemma_split_nonempty, strip_plus,
    chars_of, contains_chars, contains_spec, ends_with, ends_with_spec, starts_with_spec, join_spec, join_strings,
    opt_string_view, push_str, split_chars, split_spec, str_eq, string_views,
};

verus! {

// ── Errors ───────────────────────────────────────────────────────────────

/// Error of the diff engine.
#[derive(Debug)]
pub enum DiffError {
    /// A column was removed or its type changed.
    DestructiveChange { collection: String, details: String },
}

/// The message of a destructive change.
pub open spec fn destructive_message(collection: Seq<char>, details: Seq<char>) -> Seq<char> {
    "Detected destructive schema change for '"@ + collection + "':\n"@ + details
        + "\n\nSQLite ALTER TABLE does not safely support these operations.\nPlease write the migration SQL manually."@
}

impl DiffError {
    /// The human-readable message of the error.
    pub fn to_string(&self) -> (r: String)
        ensures
            match self {
                DiffError::DestructiveChange { collection, details } => r@ == destructive_message(
                    collection@,
                    details@,
                ),
            },
    {
        match self {
            DiffError::DestructiveChange { collection, details } => {
                let mut s = "Detected destructive schema change for '".to_owned();
                push_str(&mut s, collection.as_str());
                push_str(&mut s, "':\n");
                push_str(&mut s, details.as_str());
                push_str(
                    &mut s,
                    "\n\nSQLite ALTER TABLE does not safely support these operations.\nPlease write the migration SQL manually.",
                );
                s
            },
        }
    }
}

// ── Lock file model ──────────────────────────────────────────────────────

/// Snapshot of one collection in the lock file.
#[derive(Debug)]
pub struct LockCollection {
    pub table: String,
    pub fields: Vec<FieldDef>,
}

/// The lock file: a version counter, a timestamp and the collection snapshots by name.
pub struct SchemaLock {
    pub version: u32,
    pub generated_at: String,
    pub collections: StringHashMap<LockCollection>,
}

// ── Diff result ──────────────────────────────────────────────────────────

/// Kind of difference between the current schema and the lock file.
#[derive(Debug)]
pub enum SchemaDiff {
    /// The collection is not in the lock file: a new table.
    CreateTable,
    /// The collection exists and these columns are new.
    AddColumns(Vec<FieldDef>),
    /// Nothing changed.
    NoChange,
}

/// A diff together with its migration SQL and migration number.
#[derive(Debug)]
pub struct DiffResult {
    pub diff: SchemaDiff,
    pub migration_sql: String,
    pub migration_number: u32,
}

// ── Diff specification ───────────────────────────────────────────────────

/// The SQLite type that the lock records for a column name; a later entry wins.
pub open spec fn lock_type_of(lock: Seq<FieldDefView>, name: Seq<char>) -> Option<Seq<char>>
    decreases lock.len(),
{
    if lock.len() == 0 {
        None
    } else if lock.last().name == name {
        Some(lock.last().sqlite_type)
    } else {
        lock_type_of(lock.drop_last(), name)
    }
}

/// Whether some field has the given name.
pub open spec fn has_name(fs: Seq<FieldDefView>, name: Seq<char>) -> bool {
    exists|i: int| 0 <= i < fs.len() && (#[trigger] fs[i]).name == name
}

/// The message of a removed column.
pub open spec fn removed_message(name: Seq<char>) -> Seq<char> {
    "Column '"@ + name + "' was removed"@
}

/// The message of a column whose type changed.
pub open spec fn changed_message(name: Seq<char>, from: Seq<char>, to: Seq<char>) -> Seq<char> {
    "Column '"@ + name + "' type changed from '"@ + from + "' to '"@ + to + "'"@
}

/// One message per lock column that the current fields no longer have, in lock order.
pub open spec fn removed_errors(lock: Seq<FieldDefView>, current: Seq<FieldDefView>) -> Seq<Seq<char>>
    decreases lock.len(),
{
    if lock.len() == 0 {
        Seq::empty()
    } else {
        let rest = removed_errors(lock.drop_last(), current);
        if !has_name(current, lock.last().name) {
            rest.push(removed_message(lock.last().name))
        } else {
            rest
        }
    }
}

/// One message per current column whose SQLite type differs from the lock's, in order.
pub open spec fn changed_errors(current: Seq<FieldDefView>, lock: Seq<FieldDefView>) -> Seq<Seq<char>>
    decreases current.len(),
{
    if current.len() == 0 {
        Seq::empty()
    } else {
        let rest = changed_errors(current.drop_last(), lock);
        let c = current.last();
        match lock_type_of(lock, c.name) {
            Some(t) => if t != c.sqlite_type {
                rest.push(changed_message(c.name, t, c.sqlite_type))
            } else {
                rest
            },
            None => rest,
        }
    }
}

/// The current columns that the lock does not know, in order.
pub open spec fn added_fields(current: Seq<FieldDefView>, lock: Seq<FieldDefView>) -> Seq<FieldDefView>
    decreases current.len(),
{
    if current.len() == 0 {
        Seq::empty()
    } else {
        let rest = added_fields(current.drop_last(), lock);
        if lock_type_of(lock, current.last().name) is None {
            rest.push(current.last())
        } else {
            rest
        }
    }
}

/// All destructive-change messages: removals first, then type changes.
pub open spec fn diff_errors(current: Seq<FieldDefView>, lock: Seq<FieldDefView>) -> Seq<Seq<char>> {
    removed_errors(lock, current) + changed_errors(current, lock)
}

/// The details text: one `  - ` line per message.
pub open spec fn details_spec(errors: Seq<Seq<char>>) -> Seq<char> {
    join_spec(errors.map_values(|e: Seq<char>| "  - "@ + e), "\n"@)
}

/// What diffing `current` against the locked fields of collection `name` gives.
pub open spec fn existing_diff_holds(
    r: Result<SchemaDiff, DiffError>,
    name: Seq<char>,
    current: Seq<FieldDefView>,
    lock: Seq<FieldDefView>,
) -> bool {
    let errors = diff_errors(current, lock);
    let added = added_fields(current, lock);
    match r {
        Err(DiffError::DestructiveChange { collection, details }) => {
            &&& errors.len() > 0
            &&& collection@ == name
            &&& details@ == details_spec(errors)
        },
        Ok(SchemaDiff::NoChange) => errors.len() == 0 && added.len() == 0,
        Ok(SchemaDiff::AddColumns(cols)) => {
            &&& errors.len() == 0
            &&& added.len() > 0
            &&& fields_view(cols@) == added
        },
        Ok(SchemaDiff::CreateTable) => false,
    }
}


// ── Diff ─────────────────────────────────────────────────────────────────

/// The SQLite type that `lock` records for `name` (the last matching entry).
fn find_lock_type(lock: &[FieldDef], name: &str) -> (r: Option<String>)
    ensures
        opt_string_view(r) == lock_type_of(fields_view(lock@), name@),
{
    let mut i: usize = lock.len();
    assert(fields_view(lock@).take(i as int) =~= fields_view(lock@));
    while i > 0
        invariant
            i <= lock@.len(),
            lock_type_of(fields_view(lock@), name@) == lock_type_of(fields_view(lock@).take(i as int), name@),
        decreases i,
    {
        let ghost t = fields_view(lock@).take(i as int);
        assert(t.drop_last() =~= fields_view(lock@).take(i - 1));
        assert(t.last() == lock@[i - 1]@);
        if str_eq(lock[i - 1].name.as_str(), name) {
            return Some(lock[i - 1].sqlite_type.clone());
        }
        i = i - 1;
    }
    None
}

/// Whether some field is named `name`.
fn has_field_named(fs: &[FieldDef], name: &str) -> (r: bool)
    ensures
        r == has_name(fields_view(fs@), name@),
{
    let n = fs.len();
    let mut i: usize = 0;
    while i < n
        invariant
            n == fs@.len(),
            i <= n,
            forall|j: int| 0 <= j < i ==> (#[trigger] fields_view(fs@)[j]).name != name@,
        decreases n - i,
    {
        if str_eq(fs[i].name.as_str(), name) {
            assert(fields_view(fs@)[i as int].name == name@);
            return true;
        }
        i = i + 1;
    }
    false
}

fn quoted_column(name: &str) -> (r: String)
    ensures
        r@ == "Column '"@ + name@,
{
    let mut s = "Column '".to_owned();
    push_str(&mut s, name);
    s
}

/// Compares the current fields of an existing collection with its locked fields.
pub fn diff_existing_collection(
    collection_name: &str,
    _table_name: &str,
    current_fields: &[FieldDef],
    lock_collection: &LockCollection,
) -> (r: Result<SchemaDiff, DiffError>)
    ensures
        existing_diff_holds(r, collection_name@, fields_view(current_fields@), fields_view(lock_collection.fields@)),
{
    let ghost cur = fields_view(current_fields@);
    let ghost lk = fields_view(lock_collection.fields@);
    let lock_fields = &lock_collection.fields;
    let mut errors: Vec<String> = Vec::new();

    // Columns that the lock has and the current schema lost.
    let nl = lock_fields.len();
    let mut i: usize = 0;
    while i < nl
        invariant
            nl == lock_fields@.len(),
            i <= nl,
            lk == fields_view(lock_fields@),
            cur == fields_view(current_fields@),
            string_views(errors@) == removed_errors(lk.take(i as int), cur),
        decreases nl - i,
    {
        let ghost prev = errors@;
        assert(lk.take(i + 1).drop_last() =~= lk.take(i as int));
        assert(lk.take(i + 1).last() == lock_fields@[i as int]@);
        if !has_field_named(current_fields, lock_fields[i].name.as_str()) {
            let mut m = quoted_column(lock_fields[i].name.as_str());
            push_str(&mut m, "' was removed");
            errors.push(m);
            assert(errors@ =~= prev.push(m));
            assert(string_views(errors@) =~= string_views(prev).push(m@));
        }
        i = i + 1;
    }
    assert(lk.take(nl as int) =~= lk);
    let ghost removed = string_views(errors@);

    // Columns whose type changed, and new columns.
    let mut added: Vec<FieldDef> = Vec::new();
    let nc = current_fields.len();
    let mut k: usize = 0;
    while k < nc
        invariant
            nc == current_fields@.len(),
            k <= nc,
            lk == fields_view(lock_fields@),
            cur == fields_view(current_fields@),
            removed == removed_errors(lk, cur),
            string_views(errors@) == removed + changed_errors(cur.take(k as int), lk),
            fields_view(added@) == added_fields(cur.take(k as int), lk),
        decreases nc - k,
    {
        let ghost prev = errors@;
        let ghost prev_added = added@;
        assert(cur.take(k + 1).drop_last() =~= cur.take(k as int));
        assert(cur.take(k + 1).last() == current_fields@[k as int]@);
        let cf = &current_fields[k];
        match find_lock_type(lock_fields, cf.name.as_str()) {
            None => {
                let f = cf.duplicate();
                added.push(f);
                assert(fields_view(added@) =~= fields_view(prev_added).push(f@));
            },
            Some(t) => {
                if !str_eq(t.as_str(), cf.sqlite_type.as_str()) {
                    let mut m = quoted_column(cf.name.as_str());
                    push_str(&mut m, "' type changed from '");
                    push_str(&mut m, t.as_str());
                    push_str(&mut m, "' to '");
                    push_str(&mut m, cf.sqlite_type.as_str());
                    push_str(&mut m, "'");
                    errors.push(m);
                    assert(errors@ =~= prev.push(m));
                    assert(string_views(errors@) =~= string_views(prev).push(m@));
                    assert(m@ =~= changed_message(cf.name@, t@, cf.sqlite_type@));
                }
            },
        }
        k = k + 1;
    }
    assert(cur.take(nc as int) =~= cur);

    if errors.len() > 0 {
        let details = details_of(&errors);
        return Err(DiffError::DestructiveChange { collection: collection_name.to_owned(), details });
    }
    if added.len() == 0 {
        Ok(SchemaDiff::NoChange)
    } else {
        Ok(SchemaDiff::AddColumns(added))
    }
}

fn details_of(errors: &Vec<String>) -> (r: String)
    ensures
        r@ == details_spec(string_views(errors@)),
{
    let ghost want = string_views(errors@).map_values(|e: Seq<char>| "  - "@ + e);
    let mut lines: Vec<String> = Vec::new();
    let n = errors.len();
    let mut i: usize = 0;
    while i < n
        invariant
            n == errors@.len(),
            i <= n,
            want == string_views(errors@).map_values(|e: Seq<char>| "  - "@ + e),
            string_views(lines@) == want.take(i as int),
        decreases n - i,
    {
        let ghost prev = lines@;
        let mut l = "  - ".to_owned();
        push_str(&mut l, errors[i].as_str());
        lines.push(l);
        assert(lines@ =~= prev.push(l));
        assert(string_views(lines@) =~= string_views(prev).push(l@));
        assert(want.take(i + 1) =~= want.take(i as int).push(want[i as int]));
        i = i + 1;
    }
    assert(want.take(n as int) =~= want);
    join_strings(&lines, "\n")
}

/// Diffs one collection: a collection missing from the lock becomes a new table;
/// otherwise its current fields are compared with the locked ones.
pub fn diff_collection(
    collection_name: &str,
    table_name: &str,
    current_fields: &[FieldDef],
    lock: &SchemaLock,
) -> (r: Result<SchemaDiff, DiffError>)
    ensures
        !lock.collections@.contains_key(collection_name@) ==> r matches Ok(SchemaDiff::CreateTable),
        lock.collections@.contains_key(collection_name@) ==> existing_diff_holds(
            r,
            collection_name@,
            fields_view(current_fields@),
            fields_view(lock.collections@[collection_name@].fields@),
        ),
{
    match lock.collections.get(collection_name) {
        None => Ok(SchemaDiff::CreateTable),
        Some(lock_collection) => diff_existing_collection(
            collection_name,
            table_name,
            current_fields,
            lock_collection,
        ),
    }
}


// ── Laws of the diff ─────────────────────────────────────────────────────

/// No two fields share a name.
pub open spec fn distinct_names(fs: Seq<FieldDefView>) -> bool {
    forall|i: int, j: int| 0 <= i < j < fs.len() ==> (#[trigger] fs[i]).name != (#[trigger] fs[j]).name
}

proof fn lemma_lock_type_of_member(lock: Seq<FieldDefView>, i: int)
    requires
        distinct_names(lock),
        0 <= i < lock.len(),
    ensures
        lock_type_of(lock, lock[i].name) == Some(lock[i].sqlite_type),
    decreases lock.len(),
{
    if i < lock.len() - 1 {
        let t = lock.drop_last();
        assert(lock.last() == lock[lock.len() - 1]);
        assert(lock[i].name != lock[lock.len() - 1].name);
        assert(t[i] == lock[i]);
        lemma_lock_type_of_member(t, i);
    }
}

proof fn lemma_lock_type_of_absent(lock: Seq<FieldDefView>, name: Seq<char>)
    requires
        !has_name(lock, name),
    ensures
        lock_type_of(lock, name) is None,
    decreases lock.len(),
{
    if lock.len() > 0 {
        let t = lock.drop_last();
        assert(lock[lock.len() - 1] == lock.last());
        assert(!has_name(t, name)) by {
            if has_name(t, name) {
                let k = choose|k: int| 0 <= k < t.len() && (#[trigger] t[k]).name == name;
                assert(lock[k] == t[k]);
            }
        }
        lemma_lock_type_of_absent(t, name);
    }
}

proof fn lemma_no_removed(lock: Seq<FieldDefView>, cur: Seq<FieldDefView>)
    requires
        forall|i: int| 0 <= i < lock.len() ==> has_name(cur, #[trigger] lock[i].name),
    ensures
        removed_errors(lock, cur).len() == 0,
    decreases lock.len(),
{
    if lock.len() > 0 {
        let t = lock.drop_last();
        assert(lock.last() == lock[lock.len() - 1]);
        assert forall|i: int| 0 <= i < t.len() implies has_name(cur, #[trigger] t[i].name) by {
            assert(t[i] == lock[i]);
        }
        lemma_no_removed(t, cur);
    }
}

proof fn lemma_no_changes(cur: Seq<FieldDefView>, lock: Seq<FieldDefView>)
    requires
        forall|i: int| 0 <= i < cur.len() ==> lock_type_of(lock, #[trigger] cur[i].name) == Some(cur[i].sqlite_type),
    ensures
        changed_errors(cur, lock).len() == 0,
        added_fields(cur, lock).len() == 0,
    decreases cur.len(),
{
    if cur.len() > 0 {
        let t = cur.drop_last();
        assert(cur.last() == cur[cur.len() - 1]);
        assert forall|i: int| 0 <= i < t.len() implies lock_type_of(lock, #[trigger] t[i].name) == Some(
            t[i].sqlite_type,
        ) by {
            assert(t[i] == cur[i]);
        }
        lemma_no_changes(t, lock);
    }
}

/// Diffing a collection against a lock snapshot of the very same fields (with distinct
/// names) reports no change.
pub proof fn law_unchanged_fields_report_no_change(
    r: Result<SchemaDiff, DiffError>,
    collection_name: Seq<char>,
    fields: Seq<FieldDefView>,
)
    requires
        distinct_names(fields),
        existing_diff_holds(r, collection_name, fields, fields),
    ensures
        r matches Ok(SchemaDiff::NoChange),
{
    assert forall|i: int| 0 <= i < fields.len() implies has_name(fields, #[trigger] fields[i].name) by {}
    lemma_no_removed(fields, fields);
    assert forall|i: int| 0 <= i < fields.len() implies lock_type_of(fields, #[trigger] fields[i].name) == Some(
        fields[i].sqlite_type,
    ) by {
        lemma_lock_type_of_member(fields, i);
    }
    lemma_no_changes(fields, fields);
}

proof fn lemma_added_are_new(old_fields: Seq<FieldDefView>, new_fields: Seq<FieldDefView>, k: int)
    requires
        distinct_names(old_fields + new_fields),
        0 <= k <= new_fields.len(),
    ensures
        changed_errors(old_fields + new_fields.take(k), old_fields).len() == 0,
        added_fields(old_fields + new_fields.take(k), old_fields) == new_fields.take(k),
    decreases k,
{
    let all = old_fields + new_fields;
    if k == 0 {
        assert(old_fields + new_fields.take(0) =~= old_fields);
        assert forall|i: int| 0 <= i < old_fields.len() implies lock_type_of(old_fields, #[trigger] old_fields[i].name)
            == Some(old_fields[i].sqlite_type) by {
            assert forall|a: int, b: int| 0 <= a < b < old_fields.len() implies (#[trigger] old_fields[a]).name
                != (#[trigger] old_fields[b]).name by {
                assert(all[a] == old_fields[a]);
                assert(all[b] == old_fields[b]);
            }
            lemma_lock_type_of_member(old_fields, i);
        }
        lemma_no_changes(old_fields, old_fields);
        assert(new_fields.take(0) =~= Seq::<FieldDefView>::empty());
    } else {
        lemma_added_are_new(old_fields, new_fields, k - 1);
        let cur = old_fields + new_fields.take(k);
        assert(cur.drop_last() =~= old_fields + new_fields.take(k - 1));
        assert(cur.last() == new_fields[k - 1]);
        let x = new_fields[k - 1];
        assert(all[old_fields.len() + k - 1] == x);
        assert(!has_name(old_fields, x.name)) by {
            if has_name(old_fields, x.name) {
                let j = choose|j: int| 0 <= j < old_fields.len() && (#[trigger] old_fields[j]).name == x.name;
                assert(all[j] == old_fields[j]);
            }
        }
        lemma_lock_type_of_absent(old_fields, x.name);
        assert(new_fields.take(k) =~= new_fields.take(k - 1).push(x));
    }
}

/// Appending new fields (with names distinct from each other and from the locked ones)
/// to a locked collection reports exactly those fields as added columns.
pub proof fn law_appended_fields_are_added_columns(
    r: Result<SchemaDiff, DiffError>,
    collection_name: Seq<char>,
    locked: Seq<FieldDefView>,
    appended: Seq<FieldDefView>,
)
    requires
        appended.len() > 0,
        distinct_names(locked + appended),
        existing_diff_holds(r, collection_name, locked + appended, locked),
    ensures
        r matches Ok(SchemaDiff::AddColumns(cols)) && fields_view(cols@) == appended,
{
    lemma_added_are_new(locked, appended, appended.len() as int);
    assert(appended.take(appended.len() as int) =~= appended);
    assert forall|i: int| 0 <= i < locked.len() implies has_name(locked + appended, #[trigger] locked[i].name) by {
        assert((locked + appended)[i] == locked[i]);
    }
    lemma_no_removed(locked, locked + appended);
}

proof fn lemma_removed_nonempty(lock: Seq<FieldDefView>, cur: Seq<FieldDefView>)
    ensures
        removed_errors(lock, cur).len() > 0 <==> exists|i: int|
            0 <= i < lock.len() && !has_name(cur, #[trigger] lock[i].name),
    decreases lock.len(),
{
    if lock.len() > 0 {
        let t = lock.drop_last();
        lemma_removed_nonempty(t, cur);
        if exists|i: int| 0 <= i < t.len() && !has_name(cur, #[trigger] t[i].name) {
            let i = choose|i: int| 0 <= i < t.len() && !has_name(cur, #[trigger] t[i].name);
            assert(lock[i] == t[i]);
        }
        if exists|i: int| 0 <= i < lock.len() && !has_name(cur, #[trigger] lock[i].name) {
            let i = choose|i: int| 0 <= i < lock.len() && !has_name(cur, #[trigger] lock[i].name);
            if i < t.len() {
                assert(t[i] == lock[i]);
            } else {
                assert(lock[i] == lock.last());
            }
        }
    }
}

proof fn lemma_lock_type_of_found(lock: Seq<FieldDefView>, name: Seq<char>)
    requires
        lock_type_of(lock, name) is Some,
    ensures
        exists|j: int|
            0 <= j < lock.len() && (#[trigger] lock[j]).name == name && lock[j].sqlite_type == lock_type_of(
                lock,
                name,
            )->Some_0,
    decreases lock.len(),
{
    let j = lock.len() - 1;
    if lock.last().name == name {
        assert(lock[j] == lock.last());
    } else {
        let t = lock.drop_last();
        lemma_lock_type_of_found(t, name);
        let k = choose|k: int|
            0 <= k < t.len() && (#[trigger] t[k]).name == name && t[k].sqlite_type == lock_type_of(t, name)->Some_0;
        assert(lock[k] == t[k]);
    }
}

proof fn lemma_changed_nonempty(cur: Seq<FieldDefView>, lock: Seq<FieldDefView>)
    requires
        distinct_names(lock),
    ensures
        changed_errors(cur, lock).len() > 0 <==> exists|i: int, j: int|
            0 <= i < cur.len() && 0 <= j < lock.len() && (#[trigger] cur[i]).name == (#[trigger] lock[j]).name
                && cur[i].sqlite_type != lock[j].sqlite_type,
    decreases cur.len(),
{
    if cur.len() > 0 {
        let t = cur.drop_last();
        let c = cur.last();
        lemma_changed_nonempty(t, lock);
        let last = cur.len() - 1;
        assert(cur[last] == c);
        if changed_errors(cur, lock).len() > 0 {
            if changed_errors(t, lock).len() > 0 {
                let (i, j) = choose|i: int, j: int|
                    0 <= i < t.len() && 0 <= j < lock.len() && (#[trigger] t[i]).name == (#[trigger] lock[j]).name
                        && t[i].sqlite_type != lock[j].sqlite_type;
                assert(cur[i] == t[i]);
            } else {
                lemma_lock_type_of_found(lock, c.name);
                let j = choose|j: int|
                    0 <= j < lock.len() && (#[trigger] lock[j]).name == c.name && lock[j].sqlite_type == lock_type_of(
                        lock,
                        c.name,
                    )->Some_0;
                assert(cur[last].name == lock[j].name && cur[last].sqlite_type != lock[j].sqlite_type);
            }
        }
        if exists|i: int, j: int|
            0 <= i < cur.len() && 0 <= j < lock.len() && (#[trigger] cur[i]).name == (#[trigger] lock[j]).name
                && cur[i].sqlite_type != lock[j].sqlite_type {
            let (i, j) = choose|i: int, j: int|
                0 <= i < cur.len() && 0 <= j < lock.len() && (#[trigger] cur[i]).name == (#[trigger] lock[j]).name
                    && cur[i].sqlite_type != lock[j].sqlite_type;
            if i < t.len() {
                assert(t[i] == cur[i]);
                assert(changed_errors(t, lock).len() > 0);
            } else {
                lemma_lock_type_of_member(lock, j);
            }
        }
    }
}

/// The diff of an existing collection whose lock names each column once is refused
/// exactly when a locked column is gone or a column's SQLite type differs from the
/// locked one, and the refusal names the collection; adding columns alone is never
/// refused.
pub proof fn law_diff_refuses_exactly_destructive_changes(
    r: Result<SchemaDiff, DiffError>,
    collection_name: Seq<char>,
    current: Seq<FieldDefView>,
    lock: Seq<FieldDefView>,
)
    requires
        distinct_names(lock),
        existing_diff_holds(r, collection_name, current, lock),
    ensures
        r is Err <==> (exists|i: int| 0 <= i < lock.len() && !has_name(current, #[trigger] lock[i].name)) || (exists|
            i: int,
            j: int,
        |
            0 <= i < current.len() && 0 <= j < lock.len() && (#[trigger] current[i]).name == (#[trigger] lock[j]).name
                && current[i].sqlite_type != lock[j].sqlite_type),
        r matches Err(DiffError::DestructiveChange { collection, .. }) ==> collection@ == collection_name,
{
    lemma_removed_nonempty(lock, current);
    lemma_changed_nonempty(current, lock);
}

proof fn lemma_lock_type_of_present(lock: Seq<FieldDefView>, name: Seq<char>)
    requires
        has_name(lock, name),
    ensures
        lock_type_of(lock, name) is Some,
    decreases lock.len(),
{
    if lock.last().name != name {
        let t = lock.drop_last();
        let k = choose|k: int| 0 <= k < lock.len() && (#[trigger] lock[k]).name == name;
        assert(lock[lock.len() - 1] == lock.last());
        assert(t[k] == lock[k]);
        lemma_lock_type_of_present(t, name);
    }
}

proof fn lemma_added_is_filter(cur: Seq<FieldDefView>, lock: Seq<FieldDefView>)
    ensures
        added_fields(cur, lock) == cur.filter(|f: FieldDefView| !has_name(lock, f.name)),
    decreases cur.len(),
{
    reveal(Seq::filter);
    if cur.len() > 0 {
        lemma_added_is_filter(cur.drop_last(), lock);
        let n = cur.last().name;
        if has_name(lock, n) {
            lemma_lock_type_of_present(lock, n);
        } else {
            lemma_lock_type_of_absent(lock, n);
        }
    }
}

/// A diff of an existing collection that is not refused adds exactly the current
/// fields whose names the lock does not have, in their order, and reports no change when
/// there are none; only names and SQLite types take part, so a change of any other
/// attribute of a field reports no change.
pub proof fn law_accepted_diff_adds_the_new_names(
    r: Result<SchemaDiff, DiffError>,
    collection_name: Seq<char>,
    current: Seq<FieldDefView>,
    lock: Seq<FieldDefView>,
)
    requires
        existing_diff_holds(r, collection_name, current, lock),
        r is Ok,
    ensures
        ({
            let a = current.filter(|f: FieldDefView| !has_name(lock, f.name));
            &&& a.len() == 0 ==> r == Ok::<SchemaDiff, DiffError>(SchemaDiff::NoChange)
            &&& a.len() > 0 ==> (r matches Ok(SchemaDiff::AddColumns(cols)) && fields_view(cols@) == a)
        }),
{
    lemma_added_is_filter(current, lock);
}

// ── SQL generation ───────────────────────────────────────────────────────

/// The words of a column definition after its leading `head` (the column name).
pub open spec fn column_parts(f: FieldDefView, head: Seq<char>) -> Seq<Seq<char>> {
    seq![head, f.sqlite_type]
        + (if f.required && !contains_spec(f.sqlite_type, "NOT NULL"@) { seq!["NOT NULL"@] } else { Seq::empty() })
        + (if f.unique { seq!["UNIQUE"@] } else { Seq::empty() })
        + (match f.references {
            Some(r) => seq!["REFERENCES "@ + r + "(id)"@],
            None => Seq::empty(),
        })
}

/// A column definition inside CREATE TABLE: indented, with `id` as the primary key.
pub open spec fn column_def_spec(f: FieldDefView) -> Seq<char> {
    if f.name == "id"@ {
        "    id TEXT PRIMARY KEY NOT NULL"@
    } else {
        join_spec(column_parts(f, "    "@ + f.name), " "@)
    }
}

/// A column definition for ALTER TABLE ADD COLUMN.
pub open spec fn alter_column_def_spec(f: FieldDefView) -> Seq<char> {
    join_spec(column_parts(f, f.name), " "@)
}

/// The CREATE TABLE IF NOT EXISTS statement of a table.
pub open spec fn create_table_sql_spec(table: Seq<char>, fs: Seq<FieldDefView>) -> Seq<char> {
    "CREATE TABLE IF NOT EXISTS "@ + table + " (\n"@ + join_spec(
        fs.map_values(|f: FieldDefView| column_def_spec(f)),
        ",\n"@,
    ) + "\n);"@
}

/// One ALTER TABLE ADD COLUMN statement per column, one per line.
pub open spec fn add_columns_sql_spec(table: Seq<char>, cols: Seq<FieldDefView>) -> Seq<char> {
    join_spec(
        cols.map_values(|c: FieldDefView| "ALTER TABLE "@ + table + " ADD COLUMN "@ + alter_column_def_spec(c) + ";"@),
        "\n"@,
    )
}

/// The migration SQL of a diff.
pub open spec fn migration_sql_spec(diff: SchemaDiff, table: Seq<char>, current: Seq<FieldDefView>) -> Seq<char> {
    match diff {
        SchemaDiff::CreateTable => create_table_sql_spec(table, current),
        SchemaDiff::AddColumns(cols) => add_columns_sql_spec(table, fields_view(cols@)),
        SchemaDiff::NoChange => Seq::empty(),
    }
}

fn column_parts_of(f: &FieldDef, head: String) -> (r: Vec<String>)
    ensures
        string_views(r@) == column_parts(f@, head@),
{
    let mut parts: Vec<String> = Vec::new();
    parts.push(head);
    parts.push(f.sqlite_type.clone());
    let ghost p0 = string_views(parts@);
    assert(p0 =~= seq![head@, f.sqlite_type@]);
    let st = chars_of(f.sqlite_type.as_str());
    let nn = chars_of("NOT NULL");
    if f.required && !contains_chars(&st, &nn) {
        let w = "NOT NULL".to_owned();
        parts.push(w);
        assert(string_views(parts@) =~= p0.push(w@));
    }
    let ghost p1 = string_views(parts@);
    assert(p1 =~= p0 + (if f.required && !contains_spec(f.sqlite_type@, "NOT NULL"@) { seq!["NOT NULL"@] } else { Seq::empty() }));
    if f.unique {
        let w = "UNIQUE".to_owned();
        parts.push(w);
        assert(string_views(parts@) =~= p1.push(w@));
    }
    let ghost p2 = string_views(parts@);
    assert(p2 =~= p1 + (if f.unique { seq!["UNIQUE"@] } else { Seq::empty() }));
    match &f.references {
        Some(r) => {
            let mut w = "REFERENCES ".to_owned();
            push_str(&mut w, r.as_str());
            push_str(&mut w, "(id)");
            parts.push(w);
            assert(string_views(parts@) =~= p2.push(w@));
        },
        None => {},
    }
    assert(string_views(parts@) =~= column_parts(f@, head@));
    parts
}

/// Formats one column definition of a CREATE TABLE statement.
pub fn format_column_def(field: &FieldDef) -> (r: String)
    ensures
        r@ == column_def_spec(field@),
{
    if str_eq(field.name.as_str(), "id") {
        return "    id TEXT PRIMARY KEY NOT NULL".to_owned();
    }
    let mut head = "    ".to_owned();
    push_str(&mut head, field.name.as_str());
    let parts = column_parts_of(field, head);
    join_strings(&parts, " ")
}

/// Formats one column definition of an ALTER TABLE ADD COLUMN statement.
pub fn format_column_def_for_alter(field: &FieldDef) -> (r: String)
    ensures
        r@ == alter_column_def_spec(field@),
{
    let parts = column_parts_of(field, field.name.clone());
    join_strings(&parts, " ")
}

/// The CREATE TABLE IF NOT EXISTS statement for the given fields.
pub fn generate_create_table_sql(table_name: &str, fields: &[FieldDef]) -> (r: String)
    ensures
        r@ == create_table_sql_spec(table_name@, fields_view(fields@)),
{
    let ghost want = fields_view(fields@).map_values(|f: FieldDefView| column_def_spec(f));
    let mut defs: Vec<String> = Vec::new();
    let n = fields.len();
    let mut i: usize = 0;
    while i < n
        invariant
            n == fields@.len(),
            i <= n,
            want == fields_view(fields@).map_values(|f: FieldDefView| column_def_spec(f)),
            string_views(defs@) == want.take(i as int),
        decreases n - i,
    {
        let ghost prev = defs@;
        let d = format_column_def(&fields[i]);
        defs.push(d);
        assert(defs@ =~= prev.push(d));
        assert(string_views(defs@) =~= string_views(prev).push(d@));
        assert(want.take(i + 1) =~= want.take(i as int).push(want[i as int]));
        i = i + 1;
    }
    assert(want.take(n as int) =~= want);
    let body = join_strings(&defs, ",\n");
    let mut s = "CREATE TABLE IF NOT EXISTS ".to_owned();
    push_str(&mut s, table_name);
    push_str(&mut s, " (\n");
    push_str(&mut s, body.as_str());
    push_str(&mut s, "\n);");
    s
}

/// One ALTER TABLE ADD COLUMN statement per column, separated by newlines.
pub fn generate_add_columns_sql(table_name: &str, columns: &[FieldDef]) -> (r: String)
    ensures
        r@ == add_columns_sql_spec(table_name@, fields_view(columns@)),
{
    let ghost want = fields_view(columns@).map_values(
        |c: FieldDefView| "ALTER TABLE "@ + table_name@ + " ADD COLUMN "@ + alter_column_def_spec(c) + ";"@,
    );
    let mut stmts: Vec<String> = Vec::new();
    let n = columns.len();
    let mut i: usize = 0;
    while i < n
        invariant
            n == columns@.len(),
            i <= n,
            want == fields_view(columns@).map_values(
                |c: FieldDefView| "ALTER TABLE "@ + table_name@ + " ADD COLUMN "@ + alter_column_def_spec(c) + ";"@,
            ),
            string_views(stmts@) == want.take(i as int),
        decreases n - i,
    {
        let ghost prev = stmts@;
        let def = format_column_def_for_alter(&columns[i]);
        let mut st = "ALTER TABLE ".to_owned();
        push_str(&mut st, table_name);
        push_str(&mut st, " ADD COLUMN ");
        push_str(&mut st, def.as_str());
        push_str(&mut st, ";");
        stmts.push(st);
        assert(stmts@ =~= prev.push(st));
        assert(string_views(stmts@) =~= string_views(prev).push(st@));
        assert(want.take(i + 1) =~= want.take(i as int).push(want[i as int]));
        i = i + 1;
    }
    assert(want.take(n as int) =~= want);
    join_strings(&stmts, "\n")
}

/// The migration SQL of a diff: CREATE TABLE for a new table, ALTER TABLE statements
/// for new columns, nothing when nothing changed.
pub fn generate_migration_sql(
    diff: &SchemaDiff,
    _collection_name: &str,
    table_name: &str,
    current_fields: &[FieldDef],
) -> (r: String)
    ensures
        r@ == migration_sql_spec(*diff, table_name@, fields_view(current_fields@)),
{
    match diff {
        SchemaDiff::CreateTable => generate_create_table_sql(table_name, current_fields),
        SchemaDiff::AddColumns(columns) => generate_add_columns_sql(table_name, columns),
        SchemaDiff::NoChange => String::new(),
    }
}


proof fn lemma_join_starts_with_first_two(parts: Seq<Seq<char>>, sep: Seq<char>)
    requires
        parts.len() >= 2,
    ensures
        starts_with_spec(join_spec(parts, sep), parts[0] + sep + parts[1]),
    decreases parts.len(),
{
    let t = parts.drop_last();
    let j = join_spec(parts, sep);
    let want = parts[0] + sep + parts[1];
    if parts.len() == 2 {
        assert(join_spec(t, sep) == parts[0]);
        assert(j =~= want);
        assert(j.take(want.len() as int) =~= want);
    } else {
        lemma_join_starts_with_first_two(t, sep);
        let a = join_spec(t, sep);
        assert(t[0] == parts[0] && t[1] == parts[1]);
        assert(j == a + sep + parts.last());
        assert(j.take(want.len() as int) =~= a.take(want.len() as int));
    }
}

/// The start of the statement that adds a column: the table, the column's name and its
/// SQLite type.
pub open spec fn add_column_head(table: Seq<char>, c: FieldDefView) -> Seq<char> {
    "ALTER TABLE "@ + table + " ADD COLUMN "@ + c.name + " "@ + c.sqlite_type
}

/// The migration of a diff that adds columns depends on those columns alone, not on the
/// full list of current fields: it is one statement per added column, in their order,
/// each `ALTER TABLE <table> ADD COLUMN <name> <type>...;`, and the statements are
/// separated by newlines.
pub proof fn law_add_columns_migration_adds_only_the_diff_columns(
    cols: Vec<FieldDef>,
    table: Seq<char>,
    current: Seq<FieldDefView>,
    other: Seq<FieldDefView>,
)
    ensures
        migration_sql_spec(SchemaDiff::AddColumns(cols), table, current) == migration_sql_spec(
            SchemaDiff::AddColumns(cols),
            table,
            other,
        ),
        exists|stmts: Seq<Seq<char>>|
            #![trigger join_spec(stmts, "\n"@)]
            {
                &&& stmts.len() == cols@.len()
                &&& migration_sql_spec(SchemaDiff::AddColumns(cols), table, current) == join_spec(stmts, "\n"@)
                &&& forall|i: int|
                    0 <= i < stmts.len() ==> starts_with_spec(
                        #[trigger] stmts[i],
                        add_column_head(table, fields_view(cols@)[i]),
                    ) && ends_with_spec(stmts[i], ";"@)
            },
{
    let cs = fields_view(cols@);
    let stmts = cs.map_values(
        |c: FieldDefView| "ALTER TABLE "@ + table + " ADD COLUMN "@ + alter_column_def_spec(c) + ";"@,
    );
    assert forall|i: int| 0 <= i < stmts.len() implies starts_with_spec(
        #[trigger] stmts[i],
        add_column_head(table, cs[i]),
    ) && ends_with_spec(stmts[i], ";"@) by {
        let c = cs[i];
        let parts = column_parts(c, c.name);
        assert(parts[0] == c.name && parts[1] == c.sqlite_type);
        lemma_join_starts_with_first_two(parts, " "@);
        let d = alter_column_def_spec(c);
        let h = c.name + " "@ + c.sqlite_type;
        let pre = "ALTER TABLE "@ + table + " ADD COLUMN "@;
        assert(stmts[i] =~= pre + d + ";"@);
        assert(d.take(h.len() as int) =~= h);
        assert(add_column_head(table, c) =~= pre + h);
        assert(stmts[i].take((pre + h).len() as int) =~= pre + h);
        reveal_strlit(";");
        assert(stmts[i].skip(stmts[i].len() - 1) =~= ";"@);
    }
    assert(join_spec(stmts, "\n"@) == migration_sql_spec(SchemaDiff::AddColumns(cols), table, current));
}

/// A diff that changes nothing needs no migration, and a new table's migration is one
/// `CREATE TABLE IF NOT EXISTS <table> (` statement closed by `);`.
pub proof fn law_migration_of_new_and_unchanged_tables(table: Seq<char>, current: Seq<FieldDefView>)
    ensures
        migration_sql_spec(SchemaDiff::NoChange, table, current).len() == 0,
        starts_with_spec(
            migration_sql_spec(SchemaDiff::CreateTable, table, current),
            "CREATE TABLE IF NOT EXISTS "@ + table + " (\n"@,
        ),
        ends_with_spec(migration_sql_spec(SchemaDiff::CreateTable, table, current), "\n);"@),
{
    let pre = "CREATE TABLE IF NOT EXISTS "@ + table + " (\n"@;
    let body = join_spec(current.map_values(|f: FieldDefView| column_def_spec(f)), ",\n"@);
    let m = migration_sql_spec(SchemaDiff::CreateTable, table, current);
    assert(m =~= pre + body + "\n);"@);
    assert(m.take(pre.len() as int) =~= pre);
    assert(m.skip(m.len() - "\n);"@.len()) =~= "\n);"@);
}

/// A diff of an existing collection that adds columns adds none that the lock already
/// records.
pub proof fn law_added_columns_are_not_locked(
    cols: Vec<FieldDef>,
    collection_name: Seq<char>,
    current: Seq<FieldDefView>,
    lock: Seq<FieldDefView>,
)
    requires
        existing_diff_holds(Ok(SchemaDiff::AddColumns(cols)), collection_name, current, lock),
    ensures
        forall|i: int| 0 <= i < cols@.len() ==> !has_name(lock, #[trigger] fields_view(cols@)[i].name),
{
    lemma_added_is_filter(current, lock);
    let pred = |f: FieldDefView| !has_name(lock, f.name);
    assert forall|i: int| 0 <= i < cols@.len() implies !has_name(lock, #[trigger] fields_view(cols@)[i].name) by {
        current.lemma_filter_pred(pred, i);
    }
}

// ── Migration numbers ────────────────────────────────────────────────────

/// What `str::parse::<u32>` gives: an optional `+`, then at least one digit, and a
/// value that fits in a `u32`.
pub open spec fn parse_u32_spec(s: Seq<char>) -> Option<u32> {
    parse_digits_spec(strip_plus(s))
}

/// The value of a non-empty string of digits that fits in a `u32`.
pub open spec fn parse_digits_spec(d: Seq<char>) -> Option<u32> {
    if d.len() > 0 && (forall|i: int| 0 <= i < d.len() ==> is_digit(#[trigger] d[i])) && digits_value(d)
        <= u32::MAX {
        Some(digits_value(d) as u32)
    } else {
        None
    }
}

/// Parses a decimal `u32` as `str::parse::<u32>` does.
pub fn parse_u32(s: &[char]) -> (r: Option<u32>)
    ensures
        r == parse_u32_spec(s@),
{
    let n = s.len();
    let start: usize = if n > 0 && s[0] == '+' { 1 } else { 0 };
    let ghost d = strip_plus(s@);
    assert(d =~= s@.skip(start as int));
    if start == n {
        return None;
    }
    let mut acc: u64 = 0;
    let mut i: usize = start;
    while i < n
        invariant
            n == s@.len(),
            start <= i <= n,
            d == s@.skip(start as int),
            d == strip_plus(s@),
            forall|j: int| start <= j < i ==> is_digit(#[trigger] s@[j]),
            acc == digits_value(s@.subrange(start as int, i as int)),
            acc <= u32::MAX,
        decreases n - i,
    {
        let c = s[i];
        let u = c as u32;
        if u < 48 || u > 57 {
            assert(d[i - start] == c);
            assert(!is_digit(d[i - start]));
            return None;
        }
        assert(s@.subrange(start as int, i + 1).drop_last() =~= s@.subrange(start as int, i as int));
        let next: u64 = acc * 10 + ((u - 48) as u64);
        if next > 4294967295u64 {
            proof {
                let sub = s@.subrange(start as int, i + 1);
                assert(sub.last() == c);
                assert(digits_value(sub) == next);
                if forall|j: int| 0 <= j < d.len() ==> is_digit(#[trigger] d[j]) {
                    lemma_digits_value_monotonic(d, (i + 1 - start) as int);
                    assert(d.take((i + 1 - start) as int) =~= sub);
                }
            }
            return None;
        }
        acc = next;
        i = i + 1;
    }
    assert(s@.subrange(start as int, n as int) =~= d);
    Some(acc as u32)
}

/// The number of a migration file `NNN_description.sql`: only `.sql` files count, and
/// the number is the part before the first `_`.
pub open spec fn migration_number_spec(filename: Seq<char>) -> Option<u32> {
    if !ends_with_spec(filename, ".sql"@) {
        None
    } else {
        parse_u32_spec(split_spec(filename, '_')[0])
    }
}

/// Parses the number of a migration file name such as `001_init.sql`.
pub fn parse_migration_number(filename: &str) -> (r: Option<u32>)
    ensures
        r == migration_number_spec(filename@),
{
    let v = chars_of(filename);
    let ext = chars_of(".sql");
    if !ends_with(&v, &ext) {
        return None;
    }
    let parts = split_chars(&v, '_');
    proof {
        lemma_split_nonempty(filename@, '_');
    }
    assert(parts@.map_values(|p: Vec<char>| p@)[0] == parts@[0]@);
    parse_u32(&parts[0])
}

/// The largest migration number among the file names, or 0 when there is none.
pub open spec fn max_migration_number(names: Seq<Seq<char>>) -> nat
    decreases names.len(),
{
    if names.len() == 0 {
        0
    } else {
        let rest = max_migration_number(names.drop_last());
        match migration_number_spec(names.last()) {
            Some(n) => if n > rest { n as nat } else { rest },
            None => rest,
        }
    }
}

/// The next migration number: one more than the largest number among the given file
/// names of the migrations directory, or 1 when none parses.
pub fn next_migration_number_from_names(names: &Vec<String>) -> (r: u32)
    requires
        max_migration_number(string_views(names@)) < u32::MAX,
    ensures
        r == max_migration_number(string_views(names@)) + 1,
{
    let ghost views = string_views(names@);
    let mut max: u32 = 0;
    let n = names.len();
    let mut i: usize = 0;
    while i < n
        invariant
            n == names@.len(),
            i <= n,
            views == string_views(names@),
            max == max_migration_number(views.take(i as int)),
            max_migration_number(views) < u32::MAX,
        decreases n - i,
    {
        assert(views.take(i + 1).drop_last() =~= views.take(i as int));
        assert(views.take(i + 1).last() == names@[i as int]@);
        match parse_migration_number(names[i].as_str()) {
            Some(k) => {
                if k > max {
                    max = k;
                }
            },
            None => {},
        }
        i = i + 1;
    }
    assert(views.take(n as int) =~= views);
    max + 1
}

// ── Lock update ──────────────────────────────────────────────────────────

/// Records the current state of a collection in the lock, stamped `generated_at`: the
/// snapshot of the collection is replaced, the timestamp is set and the version goes up
/// by one.
pub fn update_lock_at(
    lock: &mut SchemaLock,
    collection_name: &str,
    table_name: &str,
    fields: &[FieldDef],
    generated_at: String,
)
    requires
        old(lock).version < u32::MAX,
    ensures
        final(lock).version == old(lock).version + 1,
        final(lock).generated_at@ == generated_at@,
        final(lock).collections@.dom() == old(lock).collections@.dom().insert(collection_name@),
        final(lock).collections@[collection_name@].table@ == table_name@,
        fields_view(final(lock).collections@[collection_name@].fields@) == fields_view(fields@),
        forall|k: Seq<char>|
            k != collection_name@ && #[trigger] old(lock).collections@.contains_key(k)
                ==> final(lock).collections@[k] == old(lock).collections@[k],
{
    let snapshot = LockCollection { table: table_name.to_owned(), fields: clone_fields(fields) };
    lock.collections.insert(collection_name.to_owned(), snapshot);
    lock.generated_at = generated_at;
    lock.version = lock.version + 1;
}

/// Records the current state of a collection in the lock (in memory): the snapshot of
/// the collection is replaced, the timestamp is renewed from the clock (an RFC 3339
/// UTC time, which ends in `+00:00`; the time itself is the clock's) and the version
/// goes up by one.
pub fn update_lock_in_memory(
    lock: &mut SchemaLock,
    collection_name: &str,
    table_name: &str,
    fields: &[FieldDef],
)
    requires
        old(lock).version < u32::MAX,
    ensures
        final(lock).version == old(lock).version + 1,
        ends_with_spec(final(lock).generated_at@, "+00:00"@),
        final(lock).collections@.dom() == old(lock).collections@.dom().insert(collection_name@),
        final(lock).collections@[collection_name@].table@ == table_name@,
        fields_view(final(lock).collections@[collection_name@].fields@) == fields_view(fields@),
        forall|k: Seq<char>|
            k != collection_name@ && #[trigger] old(lock).collections@.contains_key(k)
                ==> final(lock).collections@[k] == old(lock).collections@[k],
{
    let now = now_rfc3339();
    update_lock_at(lock, collection_name, table_name, fields, now);
}

} // verus!
