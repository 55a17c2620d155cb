//! Categories: how an update request is merged into the current category before it is
//! written (a field left out keeps its current value), and the check that refuses a
//! slug or name another category already has.

use vstd::prelude::*;

use crate::text::opt_string_view;

verus! {

/// The writable fields of a category.
pub struct CategoryFields {
    pub name: String,
    pub slug: String,
    pub description: Option<String>,
    pub parent_id: Option<String>,
    pub sort_order: i64,
}

/// A category update: every field is optional.
pub struct UpdateCategoryRequest {
    pub name: Option<String>,
    pub slug: Option<String>,
    pub description: Option<String>,
    pub parent_id: Option<String>,
    pub sort_order: Option<i64>,
}

/// The given value, else the current one.
pub open spec fn or_current(given: Option<Seq<char>>, current: Seq<char>) -> Seq<char> {
    match given {
        Some(g) => g,
        None => current,
    }
}

/// The given optional value, else the current one.
pub open spec fn or_current_opt(given: Option<Seq<char>>, current: Option<Seq<char>>) -> Option<Seq<char>> {
    match given {
        Some(g) => Some(g),
        None => current,
    }
}

fn pick(given: Option<String>, current: &String) -> (r: String)
    ensures
        r@ == or_current(opt_string_view(given), current@),
{
    match given {
        Some(g) => g,
        None => current.clone(),
    }
}

fn pick_opt(given: Option<String>, current: &Option<String>) -> (r: Option<String>)
    ensures
        opt_string_view(r) == or_current_opt(opt_string_view(given), opt_string_view(*current)),
{
    match given {
        Some(g) => Some(g),
        None => match current {
            Some(c) => Some(c.clone()),
            None => None,
        },
    }
}

/// The fields written by an update: each given field replaces the current one.
pub fn merged_category_update(current: &CategoryFields, body: UpdateCategoryRequest) -> (r: CategoryFields)
    ensures
        r.name@ == or_current(opt_string_view(body.name), current.name@),
        r.slug@ == or_current(opt_string_view(body.slug), current.slug@),
        opt_string_view(r.description) == or_current_opt(opt_string_view(body.description), opt_string_view(current.description)),
        opt_string_view(r.parent_id) == or_current_opt(opt_string_view(body.parent_id), opt_string_view(current.parent_id)),
        r.sort_order == (match body.sort_order {
            Some(s) => s,
            None => current.sort_order,
        }),
{
    CategoryFields {
        name: pick(body.name, &current.name),
        slug: pick(body.slug, &current.slug),
        description: pick_opt(body.description, &current.description),
        parent_id: pick_opt(body.parent_id, &current.parent_id),
        sort_order: match body.sort_order {
            Some(s) => s,
            None => current.sort_order,
        },
    }
}

/// Why a category write was refused.
#[derive(Debug, Clone, Copy, PartialEq, Eq, Structural)]
pub enum CategoryError {
    /// Another category has the slug or the name.
    SlugOrNameTaken,
}

/// Refuses a write whose slug or name another category has.
pub fn check_slug_or_name_free(taken: bool) -> (r: Result<(), CategoryError>)
    ensures
        r == (if taken { Err(CategoryError::SlugOrNameTaken) } else { Ok::<(), CategoryError>(()) }),
{
    if taken {
        Err(CategoryError::SlugOrNameTaken)
    } else {
        Ok(())
    }
}

impl CategoryError {
    /// The message sent with the refusal.
    pub fn message(&self) -> (r: String)
        ensures
            r@ == "category slug or name already exists"@,
    {
        "category slug or name already exists".to_owned()
    }
}

} // verus!
