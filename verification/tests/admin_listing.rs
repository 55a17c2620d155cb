use colophon::admin::{admin_asset_extension, admin_asset_forbidden, admin_asset_mime, needs_svg_sandbox};
use colophon::modules::category::{
    check_slug_or_name_free, merged_category_update, CategoryError, CategoryFields, UpdateCategoryRequest,
};
use colophon::modules::media::listing::{count_media_sql, keyword_pattern, list_media_sql, media_filters};
use colophon::plugins::hello_world::{wasm_hook_outcome, HookOutcome};

#[test]
fn admin_paths_that_escape_are_refused() {
    assert!(admin_asset_forbidden("../secret"));
    assert!(admin_asset_forbidden("a\\b.js"));
    assert!(admin_asset_forbidden("/etc/passwd"));
    assert!(!admin_asset_forbidden("assets/app.js"));
}

#[test]
fn admin_asset_types() {
    assert_eq!(admin_asset_extension("assets/app.min.js"), "js");
    assert_eq!(admin_asset_extension("LICENSE"), "LICENSE");
    assert_eq!(admin_asset_mime("index.html"), "text/html; charset=utf-8");
    assert_eq!(admin_asset_mime("assets/logo.svg"), "image/svg+xml");
    assert_eq!(admin_asset_mime("fonts/a.woff2"), "font/woff2");
    assert_eq!(admin_asset_mime("x.map"), "application/json");
    assert_eq!(admin_asset_mime("README"), "application/octet-stream");
    assert!(needs_svg_sandbox(admin_asset_mime("logo.svg")));
    assert!(!needs_svg_sandbox("image/png"));
}

#[test]
fn media_listing_filters_and_sql() {
    let f = media_filters(Some("image".to_string()), Some("  ".to_string()), Some("cat".to_string()));
    assert_eq!(f.kind.as_deref(), Some("image"));
    assert_eq!(f.keyword, None);
    assert_eq!(f.category.as_deref(), Some("cat"));
    assert_eq!(
        list_media_sql(true, true, false),
        "SELECT * FROM media WHERE deleted_at IS NULL AND kind = ? AND original_name LIKE ? ORDER BY created_at DESC LIMIT ? OFFSET ?"
    );
    assert_eq!(
        count_media_sql(false, false, true),
        "SELECT COUNT(*) FROM media WHERE deleted_at IS NULL AND category = ?"
    );
    assert_eq!(keyword_pattern("cat"), "%cat%");
}

#[test]
fn wasm_hook_filters_posts() {
    match wasm_hook_outcome("post.before_save", Some("Hello".to_string()), None) {
        HookOutcome::Modified { title, content_html } => {
            assert_eq!(title.as_deref(), Some("Hello [Wasm Validated]"));
            assert!(content_html.is_none());
        }
        HookOutcome::UnknownHook { .. } => panic!("expected the filter"),
    }
    match wasm_hook_outcome("post.before_save", None, Some("<p>x</p>".to_string())) {
        HookOutcome::Modified { content_html, .. } => {
            assert_eq!(content_html.as_deref(), Some("<p>x</p><!-- processed by hello-world-wasm v0.1.0 -->"));
        }
        HookOutcome::UnknownHook { .. } => panic!("expected the filter"),
    }
    match wasm_hook_outcome("post.after_publish", None, None) {
        HookOutcome::UnknownHook { error } => assert_eq!(error, "unknown hook: post.after_publish"),
        HookOutcome::Modified { .. } => panic!("expected an error"),
    }
}

#[test]
fn category_update_keeps_unset_fields() {
    let current = CategoryFields {
        name: "Tech".to_string(),
        slug: "tech".to_string(),
        description: Some("All tech".to_string()),
        parent_id: None,
        sort_order: 3,
    };
    let merged = merged_category_update(
        &current,
        UpdateCategoryRequest { name: Some("Technology".to_string()), slug: None, description: None, parent_id: Some("root".to_string()), sort_order: None },
    );
    assert_eq!(merged.name, "Technology");
    assert_eq!(merged.slug, "tech");
    assert_eq!(merged.description.as_deref(), Some("All tech"));
    assert_eq!(merged.parent_id.as_deref(), Some("root"));
    assert_eq!(merged.sort_order, 3);
    assert_eq!(check_slug_or_name_free(true), Err(CategoryError::SlugOrNameTaken));
    assert_eq!(CategoryError::SlugOrNameTaken.message(), "category slug or name already exists");
    assert_eq!(check_slug_or_name_free(false), Ok(()));
}
