//! Context builder: turns a parsed schema into the template context.
//!
//! It injects the `id` field, expands the feature switches into system fields,
//! maps field types to Rust and SQLite types, and derives the field lists and SQL
//! fragments that the code templates use.

use vstd::prelude::*;

use crate::schema::types::{FeaturesDef, FieldDef, FieldDefView, ColophonSchema, TemplateContext, TemplateField, TemplateFieldView, fields_view, template_fields_view};
use crate::text::{
    ascii_lower, ascii_lower_seq, ascii_upper, chars_of, contains_char, is_ascii_seq, join_spec, join_strings, opt_string_view, push_str, spec_str_to_lowercase, split_chars, split_spec,
    lemma_split_ascii, lemma_split_nonempty, starts_with, starts_with_spec, str_eq, str_to_lowercase, string_of, string_views, sub_chars,
};

verus! {

// ── Naming ───────────────────────────────────────────────────────────────

/// Name for the result of `char::is_uppercase` (the Unicode `Uppercase` property).
pub uninterp spec fn spec_is_uppercase(c: char) -> bool;

/// Name for the characters that `char::to_uppercase` yields for `c`.
pub uninterp spec fn spec_char_to_uppercase(c: char) -> Seq<char>;

/// Calls `char::is_uppercase`; the result is the named `Uppercase` property of `c`.
/// Among ASCII characters exactly `'A'..='Z'` have that property.
#[verifier::external_body]
fn char_is_uppercase(c: char) -> (r: bool)
    ensures
        r == spec_is_uppercase(c),
        (c as u32) < 128 ==> (r <==> 65 <= (c as u32) <= 90),
{
    c.is_uppercase()
}

/// Calls `char::to_uppercase` and collects the characters it yields; the result is
/// the named upper-case mapping of `c`. The Unicode upper-case mapping of an ASCII
/// character is the one character of its ASCII upper-casing.
#[verifier::external_body]
fn char_to_uppercase(c: char) -> (r: String)
    ensures
        r@ == spec_char_to_uppercase(c),
        (c as u32) < 128 ==> r@ == seq![ascii_upper(c)],
{
    c.to_uppercase().collect()
}

/// A word with its first character upper-cased and the rest lower-cased.
pub open spec fn capitalize_spec(w: Seq<char>) -> Seq<char> {
    if w.len() == 0 {
        Seq::<char>::empty()
    } else {
        spec_char_to_uppercase(w[0]) + spec_str_to_lowercase(w.drop_first())
    }
}

/// PascalCase of a name: a name without `_` whose first character is upper case is
/// kept; otherwise every `_`-separated word is capitalized and the words are concatenated.
pub open spec fn pascal_case_spec(s: Seq<char>) -> Seq<char> {
    if !s.contains('_') && s.len() > 0 && spec_is_uppercase(s[0]) {
        s
    } else {
        join_spec(split_spec(s, '_').map_values(|w: Seq<char>| capitalize_spec(w)), Seq::<char>::empty())
    }
}

/// A word with its first letter ASCII upper-cased and the rest ASCII lower-cased.
pub open spec fn capitalize_ascii_spec(w: Seq<char>) -> Seq<char> {
    if w.len() == 0 {
        Seq::<char>::empty()
    } else {
        seq![ascii_upper(w[0])] + ascii_lower_seq(w.drop_first())
    }
}

/// PascalCase of an ASCII name: a name without `_` that starts with `'A'..='Z'` is
/// kept; otherwise every `_`-separated word is capitalized and the words are
/// concatenated.
pub open spec fn pascal_case_ascii_spec(s: Seq<char>) -> Seq<char> {
    if !s.contains('_') && s.len() > 0 && 65 <= (s[0] as u32) <= 90 {
        s
    } else {
        join_spec(split_spec(s, '_').map_values(|w: Seq<char>| capitalize_ascii_spec(w)), Seq::<char>::empty())
    }
}

proof fn lemma_concat_push(xs: Seq<Seq<char>>, x: Seq<char>)
    ensures
        join_spec(xs.push(x), Seq::<char>::empty()) == join_spec(xs, Seq::<char>::empty()) + x,
{
    if xs.len() == 0 {
        assert(xs.push(x) =~= seq![x]);
        assert(Seq::<char>::empty() + x =~= x);
    } else {
        assert(xs.push(x).drop_last() =~= xs);
        assert(join_spec(xs, Seq::<char>::empty()) + Seq::<char>::empty() =~= join_spec(xs, Seq::<char>::empty()));
    }
}

proof fn lemma_split_pieces_lack_sep(s: Seq<char>, sep: char)
    ensures
        forall|k: int| 0 <= k < split_spec(s, sep).len() ==> !(#[trigger] split_spec(s, sep)[k]).contains(sep),
    decreases s.len(),
{
    if s.len() > 0 {
        let t = s.drop_last();
        lemma_split_pieces_lack_sep(t, sep);
        lemma_split_nonempty(t, sep);
        let rest = split_spec(t, sep);
        let c = s.last();
        if c != sep {
            let l = rest.last().push(c);
            assert(!rest[rest.len() - 1].contains(sep));
            assert(!l.contains(sep)) by {
                if l.contains(sep) {
                    let i = choose|i: int| 0 <= i < l.len() && l[i] == sep;
                    assert(l[i] == rest[rest.len() - 1][i]);
                }
            }
            let u = rest.update(rest.len() - 1, l);
            assert forall|k: int| 0 <= k < u.len() implies !(#[trigger] u[k]).contains(sep) by {
                if k < rest.len() - 1 {
                    assert(u[k] == rest[k]);
                }
            }
        } else {
            let u = rest.push(Seq::<char>::empty());
            assert forall|k: int| 0 <= k < u.len() implies !(#[trigger] u[k]).contains(sep) by {
                if k < rest.len() {
                    assert(u[k] == rest[k]);
                }
            }
        }
    }
}

proof fn lemma_capitalize_ascii_keeps_no_underscore(w: Seq<char>)
    requires
        !w.contains('_'),
    ensures
        !capitalize_ascii_spec(w).contains('_'),
{
    if w.len() > 0 {
        let c = capitalize_ascii_spec(w);
        if c.contains('_') {
            let i = choose|i: int| 0 <= i < c.len() && c[i] == '_';
            if i == 0 {
                assert(w[0] != '_');
            } else {
                assert(c[i] == ascii_lower(w[i]));
                assert(w[i] != '_');
            }
        }
    }
}

proof fn lemma_concat_keeps_no_underscore(parts: Seq<Seq<char>>)
    requires
        forall|k: int| 0 <= k < parts.len() ==> !(#[trigger] parts[k]).contains('_'),
    ensures
        !join_spec(parts, Seq::<char>::empty()).contains('_'),
    decreases parts.len(),
{
    if parts.len() > 1 {
        let t = parts.drop_last();
        assert forall|k: int| 0 <= k < t.len() implies !(#[trigger] t[k]).contains('_') by {
            assert(t[k] == parts[k]);
        }
        lemma_concat_keeps_no_underscore(t);
        let a = join_spec(t, Seq::<char>::empty());
        let b = parts.last();
        assert(!b.contains('_')) by {
            assert(parts[parts.len() - 1] == b);
        }
        let j = join_spec(parts, Seq::<char>::empty());
        assert(j =~= a + b);
        if j.contains('_') {
            let i = choose|i: int| 0 <= i < j.len() && j[i] == '_';
            if i < a.len() {
                assert(j[i] == a[i]);
            } else {
                assert(j[i] == b[i - a.len()]);
            }
        }
    } else if parts.len() == 1 {
        assert(!parts[0].contains('_'));
    }
}

/// The ASCII PascalCase of a name written with `_` (what [`to_pascal_case`] gives for
/// an ASCII name) has no `_` left: every word between the underscores is capitalized
/// and the words are joined with nothing between them.
pub proof fn law_pascal_case_drops_underscores(s: Seq<char>)
    requires
        s.contains('_'),
    ensures
        !pascal_case_ascii_spec(s).contains('_'),
{
    lemma_split_pieces_lack_sep(s, '_');
    let parts = split_spec(s, '_').map_values(|w: Seq<char>| capitalize_ascii_spec(w));
    assert forall|k: int| 0 <= k < parts.len() implies !(#[trigger] parts[k]).contains('_') by {
        lemma_capitalize_ascii_keeps_no_underscore(split_spec(s, '_')[k]);
    }
    lemma_concat_keeps_no_underscore(parts);
}

/// Converts a snake_case name to PascalCase; a name that already is PascalCase is kept.
pub fn to_pascal_case(s: &str) -> (r: String)
    ensures
        r@ == pascal_case_spec(s@),
        is_ascii_seq(s@) ==> r@ == pascal_case_ascii_spec(s@),
{
    let v = chars_of(s);
    if !contains_char(&v, '_') && v.len() > 0 && char_is_uppercase(v[0]) {
        return s.to_owned();
    }
    let words = split_chars(&v, '_');
    let ghost caps = split_spec(s@, '_').map_values(|w: Seq<char>| capitalize_spec(w));
    let ghost acaps = split_spec(s@, '_').map_values(|w: Seq<char>| capitalize_ascii_spec(w));
    proof {
        if is_ascii_seq(s@) {
            lemma_split_ascii(s@, '_');
        }
    }
    let mut out = String::new();
    let n = words.len();
    let mut i: usize = 0;
    while i < n
        invariant
            n == words@.len(),
            i <= n,
            words@.map_values(|p: Vec<char>| p@) == split_spec(s@, '_'),
            caps == split_spec(s@, '_').map_values(|w: Seq<char>| capitalize_spec(w)),
            acaps == split_spec(s@, '_').map_values(|w: Seq<char>| capitalize_ascii_spec(w)),
            out@ == join_spec(caps.take(i as int), Seq::<char>::empty()),
            is_ascii_seq(s@) ==> out@ == join_spec(acaps.take(i as int), Seq::<char>::empty()),
            is_ascii_seq(s@) ==> forall|k: int|
                0 <= k < split_spec(s@, '_').len() ==> is_ascii_seq(#[trigger] split_spec(s@, '_')[k]),
        decreases n - i,
    {
        let w = &words[i];
        let ghost before = out@;
        assert(w@ == split_spec(s@, '_')[i as int]);
        if w.len() > 0 {
            let up = char_to_uppercase(w[0]);
            push_str(&mut out, up.as_str());
            let rest = string_of(&sub_chars(w, 1, w.len()));
            assert(w@.subrange(1, w@.len() as int) =~= w@.drop_first());
            let low = str_to_lowercase(rest.as_str());
            push_str(&mut out, low.as_str());
            assert(out@ =~= before + capitalize_spec(w@));
            proof {
                if is_ascii_seq(s@) {
                    assert(is_ascii_seq(w@));
                    assert((w@[0] as u32) < 128);
                    assert(is_ascii_seq(rest@)) by {
                        assert forall|j: int| 0 <= j < rest@.len() implies (#[trigger] rest@[j] as u32) < 128 by {
                            assert(rest@[j] == w@[j + 1]);
                        }
                    }
                    assert(out@ =~= before + capitalize_ascii_spec(w@));
                }
            }
        } else {
            assert(out@ =~= before + capitalize_spec(w@));
            assert(out@ =~= before + capitalize_ascii_spec(w@));
        }
        proof {
            assert(caps.take(i + 1) =~= caps.take(i as int).push(caps[i as int]));
            lemma_concat_push(caps.take(i as int), caps[i as int]);
            assert(acaps.take(i + 1) =~= acaps.take(i as int).push(acaps[i as int]));
            lemma_concat_push(acaps.take(i as int), acaps[i as int]);
        }
        i = i + 1;
    }
    assert(caps.take(n as int) =~= caps);
    assert(acaps.take(n as int) =~= acaps);
    out
}


// ── Type mapping ─────────────────────────────────────────────────────────

/// (Rust type, SQLite type) of a field type; unknown types are treated as text.
pub open spec fn map_type_spec(field_type: Seq<char>) -> (Seq<char>, Seq<char>) {
    if field_type == "text"@ {
        ("String"@, "TEXT NOT NULL"@)
    } else if field_type == "richtext"@ {
        ("String"@, "TEXT NOT NULL"@)
    } else if field_type == "boolean"@ {
        ("bool"@, "INTEGER NOT NULL DEFAULT 0"@)
    } else if field_type == "integer"@ {
        ("i64"@, "INTEGER NOT NULL DEFAULT 0"@)
    } else if field_type == "timestamp"@ {
        ("String"@, "TEXT NOT NULL DEFAULT (datetime('now'))"@)
    } else if field_type == "relation"@ {
        ("Option<String>"@, "TEXT"@)
    } else {
        ("String"@, "TEXT NOT NULL"@)
    }
}

/// Returns (Rust type, SQLite type) for a field type. A relation is always optional,
/// whatever `required` says; an unknown type is mapped to text.
pub fn map_type(field_type: &str, required: bool) -> (r: (&'static str, &'static str))
    ensures
        (r.0@, r.1@) == map_type_spec(field_type@),
{
    if str_eq(field_type, "text") {
        ("String", "TEXT NOT NULL")
    } else if str_eq(field_type, "richtext") {
        ("String", "TEXT NOT NULL")
    } else if str_eq(field_type, "boolean") {
        ("bool", "INTEGER NOT NULL DEFAULT 0")
    } else if str_eq(field_type, "integer") {
        ("i64", "INTEGER NOT NULL DEFAULT 0")
    } else if str_eq(field_type, "timestamp") {
        ("String", "TEXT NOT NULL DEFAULT (datetime('now'))")
    } else if str_eq(field_type, "relation") {
        if required {
            ("Option<String>", "TEXT")
        } else {
            ("Option<String>", "TEXT")
        }
    } else {
        ("String", "TEXT NOT NULL")
    }
}

// ── System fields ────────────────────────────────────────────────────────

/// A system field with the given attributes and no uniqueness, computation or reference.
pub open spec fn system_field_spec(
    name: Seq<char>,
    field_type: Seq<char>,
    required: bool,
    is_updatable: bool,
    is_auto_generated: bool,
    rust_type: Seq<char>,
    sqlite_type: Seq<char>,
) -> FieldDefView {
    FieldDefView {
        name,
        field_type,
        required,
        unique: false,
        computed: false,
        references: None,
        is_updatable,
        is_auto_generated,
        rust_type,
        sqlite_type,
    }
}

/// The `id` primary key.
pub open spec fn id_field_spec() -> FieldDefView {
    system_field_spec("id"@, "text"@, true, false, true, "String"@, "TEXT PRIMARY KEY NOT NULL"@)
}

/// The `created_at` timestamp.
pub open spec fn created_at_field_spec() -> FieldDefView {
    system_field_spec("created_at"@, "timestamp"@, true, false, true, "String"@, "TEXT NOT NULL DEFAULT (datetime('now'))"@)
}

/// The `updated_at` timestamp.
pub open spec fn updated_at_field_spec() -> FieldDefView {
    system_field_spec("updated_at"@, "timestamp"@, true, false, true, "String"@, "TEXT NOT NULL DEFAULT (datetime('now'))"@)
}

/// The `deleted_at` soft-delete marker.
pub open spec fn deleted_at_field_spec() -> FieldDefView {
    system_field_spec("deleted_at"@, "timestamp"@, false, false, true, "Option<String>"@, "TEXT"@)
}

/// The `sort_order` field.
pub open spec fn sort_order_field_spec() -> FieldDefView {
    system_field_spec("sort_order"@, "integer"@, true, true, false, "i64"@, "INTEGER NOT NULL DEFAULT 0"@)
}

fn make_system_field(
    name: &str,
    field_type: &str,
    required: bool,
    is_updatable: bool,
    is_auto_generated: bool,
    rust_type: &str,
    sqlite_type: &str,
) -> (r: FieldDef)
    ensures
        r@ == system_field_spec(name@, field_type@, required, is_updatable, is_auto_generated, rust_type@, sqlite_type@),
{
    FieldDef {
        name: name.to_owned(),
        field_type: field_type.to_owned(),
        required,
        unique: false,
        computed: false,
        references: None,
        is_updatable,
        is_auto_generated,
        rust_type: rust_type.to_owned(),
        sqlite_type: sqlite_type.to_owned(),
    }
}

/// The `id` primary key field.
pub fn make_id_field() -> (r: FieldDef)
    ensures
        r@ == id_field_spec(),
{
    make_system_field("id", "text", true, false, true, "String", "TEXT PRIMARY KEY NOT NULL")
}

/// The `created_at` field.
pub fn make_created_at_field() -> (r: FieldDef)
    ensures
        r@ == created_at_field_spec(),
{
    make_system_field("created_at", "timestamp", true, false, true, "String", "TEXT NOT NULL DEFAULT (datetime('now'))")
}

/// The `updated_at` field.
pub fn make_updated_at_field() -> (r: FieldDef)
    ensures
        r@ == updated_at_field_spec(),
{
    make_system_field("updated_at", "timestamp", true, false, true, "String", "TEXT NOT NULL DEFAULT (datetime('now'))")
}

/// The `deleted_at` field.
pub fn make_deleted_at_field() -> (r: FieldDef)
    ensures
        r@ == deleted_at_field_spec(),
{
    make_system_field("deleted_at", "timestamp", false, false, true, "Option<String>", "TEXT")
}

/// The `sort_order` field.
pub fn make_sort_order_field() -> (r: FieldDef)
    ensures
        r@ == sort_order_field_spec(),
{
    make_system_field("sort_order", "integer", true, true, false, "i64", "INTEGER NOT NULL DEFAULT 0")
}

// ── Enrichment ───────────────────────────────────────────────────────────

/// A user field after enrichment: mapped types, updatable, not auto-generated.
pub open spec fn enrich_spec(f: FieldDefView) -> FieldDefView {
    FieldDefView {
        rust_type: map_type_spec(f.field_type).0,
        sqlite_type: map_type_spec(f.field_type).1,
        is_auto_generated: false,
        is_updatable: true,
        ..f
    }
}

/// "relation" differs from every field type tested before it.
proof fn lemma_relation_is_not_another_type()
    ensures
        "relation"@ != "text"@,
        "relation"@ != "richtext"@,
        "relation"@ != "boolean"@,
        "relation"@ != "integer"@,
        "relation"@ != "timestamp"@,
{
    reveal_strlit("relation");
    reveal_strlit("text");
    reveal_strlit("richtext");
    reveal_strlit("boolean");
    reveal_strlit("integer");
    reveal_strlit("timestamp");
    assert("relation"@.len() == 8);
    assert("text"@.len() == 4);
    assert("boolean"@.len() == 7);
    assert("integer"@.len() == 7);
    assert("timestamp"@.len() == 9);
    assert("relation"@[1] != "richtext"@[1]);
}

/// Fills in the type mapping of a user field and marks it updatable.
pub fn enrich_field(field: &mut FieldDef)
    ensures
        final(field)@ == enrich_spec(old(field)@),
{
    let (rust_ty, sqlite_ty) = map_type(field.field_type.as_str(), field.required);
    if str_eq(field.field_type.as_str(), "relation") {
        proof {
            lemma_relation_is_not_another_type();
        }
        field.rust_type = "Option<String>".to_owned();
        field.sqlite_type = "TEXT".to_owned();
    } else {
        field.rust_type = rust_ty.to_owned();
        field.sqlite_type = sqlite_ty.to_owned();
    }
    field.is_auto_generated = false;
    field.is_updatable = true;
}

/// The system fields that the feature switches inject, in order.
pub open spec fn features_fields_spec(features: FeaturesDef) -> Seq<FieldDefView> {
    (if features.timestamps { seq![created_at_field_spec(), updated_at_field_spec()] } else { Seq::empty() })
        + (if features.soft_delete { seq![deleted_at_field_spec()] } else { Seq::empty() })
        + (if features.sort_order { seq![sort_order_field_spec()] } else { Seq::empty() })
}

/// Appends the system fields that the feature switches ask for.
pub fn expand_features(features: &FeaturesDef, fields: &mut Vec<FieldDef>)
    ensures
        fields_view(final(fields)@) == fields_view(old(fields)@) + features_fields_spec(*features),
{
    let ghost start = fields_view(fields@);
    if features.timestamps {
        fields.push(make_created_at_field());
        fields.push(make_updated_at_field());
    }
    let ghost after_ts = fields_view(fields@);
    assert(after_ts =~= start + (if features.timestamps { seq![created_at_field_spec(), updated_at_field_spec()] } else { Seq::empty() }));
    if features.soft_delete {
        fields.push(make_deleted_at_field());
    }
    let ghost after_sd = fields_view(fields@);
    assert(after_sd =~= after_ts + (if features.soft_delete { seq![deleted_at_field_spec()] } else { Seq::empty() }));
    if features.sort_order {
        fields.push(make_sort_order_field());
    }
    assert(fields_view(fields@) =~= after_sd + (if features.sort_order { seq![sort_order_field_spec()] } else { Seq::empty() }));
}


// ── Template fields ──────────────────────────────────────────────────────

/// `t` wrapped in `Option<..>`, unless it already is an `Option<..>`.
pub open spec fn wrap_option_spec(t: Seq<char>) -> Seq<char> {
    if starts_with_spec(t, "Option<"@) {
        t
    } else {
        "Option<"@ + t + ">"@
    }
}

/// Repository parameter type of a Rust type: owned strings are borrowed as `&str`.
pub open spec fn param_type_spec(t: Seq<char>) -> Seq<char> {
    if t == "String"@ {
        "&str"@
    } else if t == "Option<String>"@ {
        "Option<&str>"@
    } else {
        t
    }
}

/// The template view of a field.
pub open spec fn template_field_spec(f: FieldDefView) -> TemplateFieldView {
    TemplateFieldView {
        field: f,
        create_type: if f.required && !f.computed { f.rust_type } else { wrap_option_spec(f.rust_type) },
        update_type: wrap_option_spec(f.rust_type),
        param_type: param_type_spec(f.rust_type),
        opt_param_type: wrap_option_spec(param_type_spec(f.rust_type)),
    }
}

fn wrap_option(t: &str) -> (r: String)
    ensures
        r@ == wrap_option_spec(t@),
{
    let v = chars_of(t);
    let p = chars_of("Option<");
    if starts_with(&v, &p) {
        t.to_owned()
    } else {
        let mut s = "Option<".to_owned();
        push_str(&mut s, t);
        push_str(&mut s, ">");
        s
    }
}

fn param_type(t: &str) -> (r: String)
    ensures
        r@ == param_type_spec(t@),
{
    if str_eq(t, "String") {
        "&str".to_owned()
    } else if str_eq(t, "Option<String>") {
        "Option<&str>".to_owned()
    } else {
        t.to_owned()
    }
}

/// Converts a field to a template field, computing its DTO and parameter types.
pub fn to_template_field(field: &FieldDef) -> (r: TemplateField)
    ensures
        r@ == template_field_spec(field@),
{
    let base_type = field.rust_type.as_str();
    let create_type = if field.required && !field.computed {
        base_type.to_owned()
    } else {
        wrap_option(base_type)
    };
    let update_type = wrap_option(base_type);
    let param = param_type(base_type);
    let opt_param = wrap_option(param.as_str());
    TemplateField {
        field: field.duplicate(),
        create_type,
        update_type,
        param_type: param,
        opt_param_type: opt_param,
    }
}

/// Which field list of the template context is meant.
#[derive(Clone, Copy, Debug)]
pub enum FieldList {
    /// Create DTO: neither computed nor auto-generated.
    Create,
    /// Update DTO: updatable fields.
    Update,
    /// INSERT statement: not auto-generated.
    Insert,
}

/// Whether a field belongs to the given list.
pub open spec fn keeps(list: FieldList, f: FieldDefView) -> bool {
    match list {
        FieldList::Create => !f.computed && !f.is_auto_generated,
        FieldList::Update => f.is_updatable,
        FieldList::Insert => !f.is_auto_generated,
    }
}

/// The template fields of the given list, in field order.
pub open spec fn template_fields_spec(fs: Seq<FieldDefView>, list: FieldList) -> Seq<TemplateFieldView>
    decreases fs.len(),
{
    if fs.len() == 0 {
        Seq::empty()
    } else {
        let rest = template_fields_spec(fs.drop_last(), list);
        if keeps(list, fs.last()) {
            rest.push(template_field_spec(fs.last()))
        } else {
            rest
        }
    }
}

fn keeps_exec(list: FieldList, f: &FieldDef) -> (r: bool)
    ensures
        r == keeps(list, f@),
{
    match list {
        FieldList::Create => !f.computed && !f.is_auto_generated,
        FieldList::Update => f.is_updatable,
        FieldList::Insert => !f.is_auto_generated,
    }
}

/// The template fields of the given list.
pub fn build_template_fields(fields: &[FieldDef], list: FieldList) -> (r: Vec<TemplateField>)
    ensures
        template_fields_view(r@) == template_fields_spec(fields_view(fields@), list),
{
    let mut out: Vec<TemplateField> = Vec::new();
    let n = fields.len();
    let mut i: usize = 0;
    while i < n
        invariant
            n == fields@.len(),
            i <= n,
            template_fields_view(out@) == template_fields_spec(fields_view(fields@.take(i as int)), list),
        decreases n - i,
    {
        let ghost prev = out@;
        assert(fields_view(fields@.take(i + 1)).drop_last() =~= fields_view(fields@.take(i as int)));
        assert(fields_view(fields@.take(i + 1)).last() == fields@[i as int]@);
        if keeps_exec(list, &fields[i]) {
            let t = to_template_field(&fields[i]);
            out.push(t);
            assert(template_fields_view(out@) =~= template_fields_view(prev).push(t@));
        }
        i = i + 1;
    }
    assert(fields@.take(n as int) =~= fields@);
    out
}

/// Create DTO fields: without computed and auto-generated fields.
pub fn build_template_fields_for_create(fields: &[FieldDef]) -> (r: Vec<TemplateField>)
    ensures
        template_fields_view(r@) == template_fields_spec(fields_view(fields@), FieldList::Create),
{
    build_template_fields(fields, FieldList::Create)
}

/// Update DTO fields: the updatable fields.
pub fn build_template_fields_for_update(fields: &[FieldDef]) -> (r: Vec<TemplateField>)
    ensures
        template_fields_view(r@) == template_fields_spec(fields_view(fields@), FieldList::Update),
{
    build_template_fields(fields, FieldList::Update)
}

/// INSERT fields: without auto-generated fields.
pub fn build_template_fields_for_insert(fields: &[FieldDef]) -> (r: Vec<TemplateField>)
    ensures
        template_fields_view(r@) == template_fields_spec(fields_view(fields@), FieldList::Insert),
{
    build_template_fields(fields, FieldList::Insert)
}

// ── Column lists ─────────────────────────────────────────────────────────

/// The names of the fields.
pub open spec fn field_names(fs: Seq<FieldDefView>) -> Seq<Seq<char>> {
    fs.map_values(|f: FieldDefView| f.name)
}

/// The names of the template fields.
pub open spec fn template_field_names(fs: Seq<TemplateFieldView>) -> Seq<Seq<char>> {
    fs.map_values(|f: TemplateFieldView| f.field.name)
}

fn names_of(fields: &[FieldDef]) -> (r: Vec<String>)
    ensures
        string_views(r@) == field_names(fields_view(fields@)),
{
    let mut out: Vec<String> = Vec::new();
    let n = fields.len();
    let mut i: usize = 0;
    while i < n
        invariant
            n == fields@.len(),
            i <= n,
            string_views(out@) == field_names(fields_view(fields@.take(i as int))),
        decreases n - i,
    {
        let ghost prev = out@;
        let name = fields[i].name.clone();
        out.push(name);
        assert(string_views(out@) =~= string_views(prev).push(fields@[i as int].name@));
        assert(field_names(fields_view(fields@.take(i + 1))) =~= field_names(fields_view(fields@.take(i as int))).push(fields@[i as int].name@));
        i = i + 1;
    }
    assert(fields@.take(n as int) =~= fields@);
    out
}

/// SELECT column list: all field names separated by ", ".
pub fn build_select_columns(fields: &[FieldDef]) -> (r: String)
    ensures
        r@ == join_spec(field_names(fields_view(fields@)), ", "@),
{
    let names = names_of(fields);
    join_strings(&names, ", ")
}


// ── Context ──────────────────────────────────────────────────────────────

/// A relation field marked as required: a combination that is refused.
pub open spec fn is_required_relation(f: FieldDefView) -> bool {
    f.field_type == "relation"@ && f.required
}

/// `k` is the first index of a required relation among the fields.
pub open spec fn first_required_relation(fs: Seq<FieldDefView>, k: int) -> bool {
    &&& 0 <= k < fs.len()
    &&& is_required_relation(fs[k])
    &&& forall|j: int| 0 <= j < k ==> !is_required_relation(#[trigger] fs[j])
}

/// All fields of a context: `id`, the enriched user fields, then the feature fields.
pub open spec fn context_fields_spec(user: Seq<FieldDefView>, features: FeaturesDef) -> Seq<FieldDefView> {
    seq![id_field_spec()] + user.map_values(|f: FieldDefView| enrich_spec(f)) + features_fields_spec(features)
}

/// One `?` per insert field, separated by ", ".
pub open spec fn placeholders_spec(n: nat) -> Seq<char> {
    join_spec(Seq::new(n, |i: int| "?"@), ", "@)
}

/// `name = ?` for every update field, separated by ", ".
pub open spec fn update_set_spec(fs: Seq<TemplateFieldView>) -> Seq<char> {
    join_spec(fs.map_values(|t: TemplateFieldView| t.field.name + " = ?"@), ", "@)
}

/// The message of a refused required relation field.
pub open spec fn relation_required_message(field: Seq<char>) -> Seq<char> {
    "字段 '"@ + field
        + "': type=\"relation\" 不支持 required=true。relation 字段在 SQLite 中始终是可空的外键引用，请将 required 改为 false。"@
}

/// Why a schema cannot be turned into a context.
#[derive(Debug)]
pub enum ContextError {
    /// The named field is a relation declared with `required = true`.
    RelationRequired { field: String },
}

impl ContextError {
    /// The human-readable message of the error.
    pub fn to_string(&self) -> (r: String)
        ensures
            match self {
                ContextError::RelationRequired { field } => r@ == relation_required_message(field@),
            },
    {
        match self {
            ContextError::RelationRequired { field } => {
                let mut s = "字段 '".to_owned();
                push_str(&mut s, field.as_str());
                push_str(
                    &mut s,
                    "': type=\"relation\" 不支持 required=true。relation 字段在 SQLite 中始终是可空的外键引用，请将 required 改为 false。",
                );
                s
            },
        }
    }
}

/// The context that [`build_context`] gives for a schema without required relations.
pub open spec fn context_matches(
    ctx: TemplateContext,
    collection_name: Seq<char>,
    table: Seq<char>,
    display_name: Option<Seq<char>>,
    features: FeaturesDef,
    user: Seq<FieldDefView>,
) -> bool {
    let all = context_fields_spec(user, features);
    let model = pascal_case_spec(collection_name);
    let insert = template_fields_spec(all, FieldList::Insert);
    let update = template_fields_spec(all, FieldList::Update);
    &&& ctx.model_name@ == model
    &&& ctx.table_name@ == table
    &&& ctx.display_name@ == (match display_name {
        Some(d) => d,
        None => model,
    })
    &&& ctx.features == features
    &&& fields_view(ctx.fields@) == all
    &&& template_fields_view(ctx.create_fields@) == template_fields_spec(all, FieldList::Create)
    &&& template_fields_view(ctx.update_fields@) == update
    &&& template_fields_view(ctx.insert_fields@) == insert
    &&& ctx.select_columns@ == join_spec(field_names(all), ", "@)
    &&& ctx.insert_columns@ == join_spec(template_field_names(insert), ", "@)
    &&& ctx.insert_placeholders@ == placeholders_spec(insert.len())
    &&& ctx.update_set_clause@ == update_set_spec(update)
}

fn placeholders(n: usize) -> (r: String)
    ensures
        r@ == placeholders_spec(n as nat),
{
    let mut parts: Vec<String> = Vec::new();
    let mut i: usize = 0;
    while i < n
        invariant
            i <= n,
            string_views(parts@) == Seq::new(i as nat, |k: int| "?"@),
        decreases n - i,
    {
        let ghost prev = parts@;
        let q = "?".to_owned();
        parts.push(q);
        assert(parts@ =~= prev.push(q));
        assert(string_views(parts@) =~= string_views(prev).push(q@));
        assert(string_views(parts@) =~= Seq::new((i + 1) as nat, |k: int| "?"@));
        i = i + 1;
    }
    join_strings(&parts, ", ")
}

fn update_set_clause(fields: &[TemplateField]) -> (r: String)
    ensures
        r@ == update_set_spec(template_fields_view(fields@)),
{
    let ghost want = template_fields_view(fields@).map_values(|t: TemplateFieldView| t.field.name + " = ?"@);
    let mut parts: Vec<String> = Vec::new();
    let n = fields.len();
    let mut i: usize = 0;
    while i < n
        invariant
            n == fields@.len(),
            i <= n,
            want == template_fields_view(fields@).map_values(|t: TemplateFieldView| t.field.name + " = ?"@),
            string_views(parts@) == want.take(i as int),
        decreases n - i,
    {
        let ghost prev = parts@;
        let mut p = fields[i].field.name.clone();
        push_str(&mut p, " = ?");
        parts.push(p);
        assert(parts@ =~= prev.push(p));
        assert(string_views(parts@) =~= string_views(prev).push(p@));
        assert(want.take(i + 1) =~= want.take(i as int).push(want[i as int]));
        assert(string_views(parts@) =~= want.take(i + 1));
        i = i + 1;
    }
    assert(want.take(n as int) =~= want);
    join_strings(&parts, ", ")
}

fn template_names_of(fields: &[TemplateField]) -> (r: Vec<String>)
    ensures
        string_views(r@) == template_field_names(template_fields_view(fields@)),
{
    let ghost want = template_field_names(template_fields_view(fields@));
    let mut out: Vec<String> = Vec::new();
    let n = fields.len();
    let mut i: usize = 0;
    while i < n
        invariant
            n == fields@.len(),
            i <= n,
            want == template_field_names(template_fields_view(fields@)),
            string_views(out@) == want.take(i as int),
        decreases n - i,
    {
        let ghost prev = out@;
        let name = fields[i].field.name.clone();
        out.push(name);
        assert(out@ =~= prev.push(name));
        assert(string_views(out@) =~= string_views(prev).push(name@));
        assert(want.take(i + 1) =~= want.take(i as int).push(want[i as int]));
        assert(string_views(out@) =~= want.take(i + 1));
        i = i + 1;
    }
    assert(want.take(n as int) =~= want);
    out
}

/// Builds the template context of a schema.
///
/// A relation field declared with `required = true` is refused: in SQLite such a field
/// is always a nullable foreign key. The error names the first such field.
pub fn build_context(schema: ColophonSchema) -> (r: Result<TemplateContext, ContextError>)
    ensures
        match r {
            Err(ContextError::RelationRequired { field }) => exists|k: int|
                first_required_relation(fields_view(schema.fields@), k)
                    && field@ == #[trigger] fields_view(schema.fields@)[k].name,
            Ok(ctx) => {
                &&& forall|i: int|
                    0 <= i < schema.fields@.len() ==> !is_required_relation(#[trigger] fields_view(schema.fields@)[i])
                &&& context_matches(
                    ctx,
                    schema.collection.name@,
                    schema.collection.table@,
                    opt_string_view(schema.collection.display_name),
                    schema.features,
                    fields_view(schema.fields@),
                )
            },
        },
{
    let ghost user = fields_view(schema.fields@);
    let fields = &schema.fields;
    let collection = &schema.collection;
    let features = schema.features;
    let n = fields.len();
    let mut i: usize = 0;
    while i < n
        invariant
            n == fields@.len(),
            i <= n,
            user == fields_view(fields@),
            user == fields_view(schema.fields@),
            forall|j: int| 0 <= j < i ==> !is_required_relation(#[trigger] user[j]),
        decreases n - i,
    {
        if str_eq(fields[i].field_type.as_str(), "relation") && fields[i].required {
            assert(first_required_relation(user, i as int));
            let name = fields[i].name.clone();
            assert(name@ == user[i as int].name);
            return Err(ContextError::RelationRequired { field: name });
        }
        i = i + 1;
    }

    let model_name = to_pascal_case(collection.name.as_str());
    let table_name = collection.table.clone();
    let display_name = match &collection.display_name {
        Some(d) => d.clone(),
        None => model_name.clone(),
    };

    let mut all_fields: Vec<FieldDef> = Vec::new();
    all_fields.push(make_id_field());
    let ghost enriched = user.map_values(|f: FieldDefView| enrich_spec(f));
    let mut k: usize = 0;
    while k < n
        invariant
            n == fields@.len(),
            k <= n,
            user == fields_view(fields@),
            enriched == user.map_values(|f: FieldDefView| enrich_spec(f)),
            fields_view(all_fields@) == seq![id_field_spec()] + enriched.take(k as int),
        decreases n - k,
    {
        let ghost prev = all_fields@;
        let mut f = fields[k].duplicate();
        enrich_field(&mut f);
        all_fields.push(f);
        assert(fields_view(all_fields@) =~= fields_view(prev).push(enriched[k as int]));
        assert(seq![id_field_spec()] + enriched.take(k + 1) =~= (seq![id_field_spec()] + enriched.take(k as int)).push(enriched[k as int]));
        k = k + 1;
    }
    assert(enriched.take(n as int) =~= enriched);
    expand_features(&features, &mut all_fields);
    assert(fields_view(all_fields@) =~= context_fields_spec(user, features));

    let create_fields = build_template_fields_for_create(&all_fields);
    let update_fields = build_template_fields_for_update(&all_fields);
    let insert_fields = build_template_fields_for_insert(&all_fields);
    let select_columns = build_select_columns(&all_fields);

    let insert_names = template_names_of(&insert_fields);
    let insert_columns = join_strings(&insert_names, ", ");
    let insert_placeholders = placeholders(insert_fields.len());
    let update_set_clause = update_set_clause(&update_fields);

    Ok(TemplateContext {
        model_name,
        table_name,
        display_name,
        features,
        fields: all_fields,
        create_fields,
        update_fields,
        insert_fields,
        select_columns,
        insert_columns,
        insert_placeholders,
        update_set_clause,
    })
}

// ── Laws of the field lists ─────────────────────────────────────────────

proof fn lemma_template_fields_filter(fs: Seq<FieldDefView>, list: FieldList, pred: spec_fn(FieldDefView) -> bool)
    requires
        forall|f: FieldDefView| #[trigger] pred(f) == keeps(list, f),
    ensures
        template_fields_spec(fs, list) == fs.filter(pred).map_values(|f: FieldDefView| template_field_spec(f)),
    decreases fs.len(),
{
    reveal(Seq::filter);
    if fs.len() > 0 {
        lemma_template_fields_filter(fs.drop_last(), list, pred);
        assert(pred(fs.last()) == keeps(list, fs.last()));
        let rest = fs.drop_last().filter(pred);
        if pred(fs.last()) {
            assert(rest.push(fs.last()).map_values(|f: FieldDefView| template_field_spec(f)) =~= rest.map_values(
                |f: FieldDefView| template_field_spec(f),
            ).push(template_field_spec(fs.last())));
        }
    } else {
        assert(fs.filter(pred) =~= Seq::<FieldDefView>::empty());
    }
}

/// The field lists of a built context: the create DTO has the fields that are neither
/// computed nor auto-generated, the update DTO the updatable ones, and the INSERT
/// statement those that are not auto-generated, each in field order. So no field of the
/// create DTO is computed or auto-generated (the injected `id` and the timestamps are
/// never in it), and every create field is also an insert field.
pub proof fn law_context_field_lists(
    ctx: TemplateContext,
    collection_name: Seq<char>,
    table: Seq<char>,
    display_name: Option<Seq<char>>,
    features: FeaturesDef,
    user: Seq<FieldDefView>,
)
    requires
        context_matches(ctx, collection_name, table, display_name, features, user),
    ensures
        template_fields_view(ctx.create_fields@) == fields_view(ctx.fields@).filter(
            |f: FieldDefView| !f.computed && !f.is_auto_generated,
        ).map_values(|f: FieldDefView| template_field_spec(f)),
        template_fields_view(ctx.update_fields@) == fields_view(ctx.fields@).filter(
            |f: FieldDefView| f.is_updatable,
        ).map_values(|f: FieldDefView| template_field_spec(f)),
        template_fields_view(ctx.insert_fields@) == fields_view(ctx.fields@).filter(
            |f: FieldDefView| !f.is_auto_generated,
        ).map_values(|f: FieldDefView| template_field_spec(f)),
        forall|i: int|
            0 <= i < ctx.create_fields@.len() ==> !(#[trigger] ctx.create_fields@[i]).field.computed
                && !ctx.create_fields@[i].field.is_auto_generated,
{
    let all = fields_view(ctx.fields@);
    let pc = |f: FieldDefView| !f.computed && !f.is_auto_generated;
    let pu = |f: FieldDefView| f.is_updatable;
    let pi = |f: FieldDefView| !f.is_auto_generated;
    lemma_template_fields_filter(all, FieldList::Create, pc);
    lemma_template_fields_filter(all, FieldList::Update, pu);
    lemma_template_fields_filter(all, FieldList::Insert, pi);
    assert forall|i: int|
        0 <= i < ctx.create_fields@.len() implies !(#[trigger] ctx.create_fields@[i]).field.computed
            && !ctx.create_fields@[i].field.is_auto_generated by {
        let fl = all.filter(pc);
        let tv = template_fields_view(ctx.create_fields@);
        assert(tv.len() == ctx.create_fields@.len());
        assert(tv.len() == fl.len());
        assert(tv[i] == ctx.create_fields@[i]@);
        assert(tv[i] == template_field_spec(fl[i]));
        all.lemma_filter_pred(pc, i);
        assert(pc(fl[i]));
    }
}

/// The fields of a built context: first the injected `id` primary key (auto-generated,
/// not updatable), then every user field in order, with its name and declared
/// attributes kept, its Rust and SQLite types mapped from its field type, updatable and
/// not auto-generated; then `created_at` and `updated_at` when timestamps are on,
/// `deleted_at` when soft delete is on and `sort_order` when sort order is on.
pub proof fn law_context_fields(
    ctx: TemplateContext,
    collection_name: Seq<char>,
    table: Seq<char>,
    display_name: Option<Seq<char>>,
    features: FeaturesDef,
    user: Seq<FieldDefView>,
)
    requires
        context_matches(ctx, collection_name, table, display_name, features, user),
    ensures
        ({
            let fs = fields_view(ctx.fields@);
            let n = user.len() as int;
            let k = 1 + n + (if features.timestamps { 2int } else { 0int });
            let m = k + (if features.soft_delete { 1int } else { 0int });
            &&& fs.len() == m + (if features.sort_order { 1int } else { 0int })
            &&& fs[0].name == "id"@ && fs[0].is_auto_generated && !fs[0].is_updatable
            &&& fs[0].sqlite_type == "TEXT PRIMARY KEY NOT NULL"@
            &&& forall|i: int|
                0 <= i < n ==> {
                    let f = #[trigger] fs[1 + i];
                    let u = user[i];
                    &&& f.name == u.name && f.field_type == u.field_type && f.required == u.required
                    &&& f.unique == u.unique && f.computed == u.computed && f.references == u.references
                    &&& f.is_updatable && !f.is_auto_generated
                    &&& (f.rust_type, f.sqlite_type) == map_type_spec(u.field_type)
                }
            &&& features.timestamps ==> fs[1 + n].name == "created_at"@ && fs[2 + n].name == "updated_at"@
                && fs[1 + n].is_auto_generated && fs[2 + n].is_auto_generated && !fs[1 + n].is_updatable
                && !fs[2 + n].is_updatable
            &&& features.soft_delete ==> fs[k].name == "deleted_at"@ && fs[k].is_auto_generated && !fs[k].required
            &&& features.sort_order ==> fs[m].name == "sort_order"@ && fs[m].is_updatable && !fs[m].is_auto_generated
        }),
{
    let fs = fields_view(ctx.fields@);
    let n = user.len() as int;
    let e = user.map_values(|f: FieldDefView| enrich_spec(f));
    let sys = features_fields_spec(features);
    assert(fs == seq![id_field_spec()] + e + sys);
    assert forall|i: int| 0 <= i < n implies #[trigger] fs[1 + i] == enrich_spec(user[i]) by {
        assert(fs[1 + i] == e[i]);
    }
    let k = 1 + n + (if features.timestamps { 2int } else { 0int });
    let m = k + (if features.soft_delete { 1int } else { 0int });
    if features.timestamps {
        assert(fs[1 + n] == sys[0]);
        assert(fs[2 + n] == sys[1]);
    }
    if features.soft_delete {
        assert(fs[k] == sys[k - 1 - n]);
    }
    if features.sort_order {
        assert(fs[m] == sys[m - 1 - n]);
    }
}

} // verus!
