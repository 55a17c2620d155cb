//! The media listing query: which filters apply and the SQL that carries them.
//!
//! Filters are bound in the order kind, name pattern, category; the listing then binds
//! its limit and offset.

use vstd::prelude::*;

use crate::text::{opt_string_view, push_str, trim_spec, trim_str};

verus! {

/// A filter value that is kept: present and not blank.
pub open spec fn kept_filter(o: Option<Seq<char>>) -> Option<Seq<char>> {
    match o {
        Some(s) => if trim_spec(s).len() == 0 { None } else { Some(s) },
        None => None,
    }
}

/// The filters of a media listing: the kind as given; the keyword and the category
/// only when they are not blank.
pub struct MediaFilters {
    pub kind: Option<String>,
    pub keyword: Option<String>,
    pub category: Option<String>,
}

fn keep_non_blank(o: Option<String>) -> (r: Option<String>)
    ensures
        opt_string_view(r) == kept_filter(opt_string_view(o)),
{
    match o {
        Some(s) => if trim_str(s.as_str()).len() == 0 {
            None
        } else {
            Some(s)
        },
        None => None,
    }
}

/// The filters of a listing query.
pub fn media_filters(kind: Option<String>, keyword: Option<String>, category: Option<String>) -> (f: MediaFilters)
    ensures
        opt_string_view(f.kind) == opt_string_view(kind),
        opt_string_view(f.keyword) == kept_filter(opt_string_view(keyword)),
        opt_string_view(f.category) == kept_filter(opt_string_view(category)),
{
    MediaFilters { kind, keyword: keep_non_blank(keyword), category: keep_non_blank(category) }
}

/// The `WHERE` conditions for the filters that are present.
pub open spec fn conditions_spec(has_kind: bool, has_keyword: bool, has_category: bool) -> Seq<char> {
    (if has_kind { " AND kind = ?"@ } else { Seq::empty() }) + (if has_keyword {
        " AND original_name LIKE ?"@
    } else {
        Seq::empty()
    }) + (if has_category { " AND category = ?"@ } else { Seq::empty() })
}

fn push_conditions(sql: &mut String, has_kind: bool, has_keyword: bool, has_category: bool)
    ensures
        final(sql)@ == old(sql)@ + conditions_spec(has_kind, has_keyword, has_category),
{
    let ghost start = sql@;
    if has_kind {
        push_str(sql, " AND kind = ?");
    }
    let ghost a = sql@;
    if has_keyword {
        push_str(sql, " AND original_name LIKE ?");
    }
    let ghost b = sql@;
    if has_category {
        push_str(sql, " AND category = ?");
    }
    assert(sql@ =~= start + conditions_spec(has_kind, has_keyword, has_category));
}

/// The listing query: live media matching the filters, newest first, one page.
pub fn list_media_sql(has_kind: bool, has_keyword: bool, has_category: bool) -> (r: String)
    ensures
        r@ == "SELECT * FROM media WHERE deleted_at IS NULL"@ + conditions_spec(has_kind, has_keyword, has_category)
            + " ORDER BY created_at DESC LIMIT ? OFFSET ?"@,
{
    let mut sql = "SELECT * FROM media WHERE deleted_at IS NULL".to_owned();
    push_conditions(&mut sql, has_kind, has_keyword, has_category);
    push_str(&mut sql, " ORDER BY created_at DESC LIMIT ? OFFSET ?");
    sql
}

/// The count query: how many live media match the filters.
pub fn count_media_sql(has_kind: bool, has_keyword: bool, has_category: bool) -> (r: String)
    ensures
        r@ == "SELECT COUNT(*) FROM media WHERE deleted_at IS NULL"@ + conditions_spec(
            has_kind,
            has_keyword,
            has_category,
        ),
{
    let mut sql = "SELECT COUNT(*) FROM media WHERE deleted_at IS NULL".to_owned();
    push_conditions(&mut sql, has_kind, has_keyword, has_category);
    sql
}

/// The `LIKE` pattern of a keyword: it may occur anywhere in the name.
pub fn keyword_pattern(keyword: &str) -> (r: String)
    ensures
        r@ == "%"@ + keyword@ + "%"@,
{
    let mut s = "%".to_owned();
    push_str(&mut s, keyword);
    push_str(&mut s, "%");
    s
}

} // verus!
