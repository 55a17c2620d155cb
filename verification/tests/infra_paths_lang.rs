use colophon::infra::file_watcher::{collect_relevant_paths, is_relevant_event_kind, FsEventKind};
use colophon::infra::i18n::{current_lang, CurrentLanguage};
use colophon::infra::file_watcher::should_invalidate_cache_for_path;
use colophon::infra::i18n::{
    build_lang_cookie, extract_lang_from_accept_language, extract_lang_from_cookie, normalize_lang,
    resolve_language,
};

#[test]
fn skips_hidden_files_at_any_depth() {
    assert!(!should_invalidate_cache_for_path("themes/default/.DS_Store"));
    assert!(!should_invalidate_cache_for_path("themes/.git/HEAD"));
    assert!(!should_invalidate_cache_for_path("themes/default/.cache/foo"));
}

#[test]
fn skips_editor_temp_files() {
    assert!(!should_invalidate_cache_for_path("themes/default/index.html.swp"));
    assert!(!should_invalidate_cache_for_path("themes/default/index.html~"));
    assert!(!should_invalidate_cache_for_path("themes/default/foo.tmp"));
}

#[test]
fn skips_node_modules_at_any_depth() {
    assert!(!should_invalidate_cache_for_path("themes/default/node_modules/foo/bar.js"));
    assert!(!should_invalidate_cache_for_path("node_modules/x"));
}

#[test]
fn allows_normal_template_and_static_files() {
    assert!(should_invalidate_cache_for_path("themes/default/index.html"));
    assert!(should_invalidate_cache_for_path("themes/default/templates/post.html"));
    assert!(should_invalidate_cache_for_path("themes/default/static/css/theme.css"));
}

#[test]
fn dot_segments_and_separators_follow_path_components() {
    assert!(should_invalidate_cache_for_path("./themes/default/index.html"));
    assert!(should_invalidate_cache_for_path("/srv/themes//default/./index.html/"));
    assert!(should_invalidate_cache_for_path("themes/../themes/index.html"));
    assert!(!should_invalidate_cache_for_path("themes/default/.."));
    assert!(!should_invalidate_cache_for_path("/"));
    assert!(!should_invalidate_cache_for_path(""));
    assert!(!should_invalidate_cache_for_path("."));
}

#[test]
fn cookie_takes_priority_over_accept_language() {
    assert_eq!(resolve_language(Some("lang=en; other=x"), Some("zh-CN,zh;q=0.9")), "en");
}

#[test]
fn accept_language_used_when_no_cookie() {
    assert_eq!(resolve_language(None, Some("en-US,en;q=0.9")), "en");
}

#[test]
fn defaults_to_zh_when_nothing_present() {
    assert_eq!(resolve_language(None, None), "zh");
}

#[test]
fn unknown_language_falls_back_to_zh() {
    assert_eq!(resolve_language(None, Some("fr-FR,fr;q=0.9")), "zh");
}

#[test]
fn zh_variants_normalize_to_zh() {
    assert_eq!(resolve_language(None, Some("zh-Hant-TW")), "zh");
}

#[test]
fn empty_cookie_value_does_not_override() {
    assert_eq!(resolve_language(Some("lang=; other=x"), Some("en")), "en");
}

#[test]
fn build_lang_cookie_normalizes_invalid_input() {
    let cookie = build_lang_cookie("ja-JP");
    assert!(cookie.starts_with("lang=zh;"));
    let cookie = build_lang_cookie("EN-us");
    assert!(cookie.starts_with("lang=en;"));
}

#[test]
fn lang_cookie_has_full_attributes() {
    assert_eq!(build_lang_cookie(" en "), "lang=en; Max-Age=31536000; Path=/; SameSite=Lax");
}

#[test]
fn cookie_pairs_are_scanned_in_order() {
    assert_eq!(extract_lang_from_cookie(Some("a=1;  lang = x; lang=en ; lang=zh")), Some("en".to_string()));
    assert_eq!(extract_lang_from_cookie(Some("a=1; b=2")), None);
    assert_eq!(extract_lang_from_cookie(None), None);
}

#[test]
fn accept_language_takes_first_entry_without_quality() {
    assert_eq!(
        extract_lang_from_accept_language(Some(" en-GB ;q=0.8, zh")),
        Some("en-GB".to_string())
    );
    assert_eq!(extract_lang_from_accept_language(Some(" ;q=1,en")), None);
    assert_eq!(extract_lang_from_accept_language(None), None);
}

#[test]
fn normalize_lang_is_idempotent_on_examples() {
    for raw in ["EN", "en-US", " zh-CN ", "fr", ""] {
        let once = normalize_lang(raw);
        assert_eq!(normalize_lang(once), once);
    }
    assert_eq!(normalize_lang("\u{3000}En-gb\t"), "en");
}

#[test]
fn language_cookie_is_read_back() {
    for lang in ["EN-us", "ja-JP", " en ", "zh-CN"] {
        let cookie = build_lang_cookie(lang);
        assert_eq!(resolve_language(Some(&cookie), Some("fr")), normalize_lang(lang));
    }
}

#[test]
fn watcher_keeps_relevant_events_and_paths() {
    assert!(is_relevant_event_kind(FsEventKind::Create));
    assert!(is_relevant_event_kind(FsEventKind::Modify));
    assert!(is_relevant_event_kind(FsEventKind::Remove));
    assert!(!is_relevant_event_kind(FsEventKind::Access));
    assert!(!is_relevant_event_kind(FsEventKind::Any));
    let paths = vec![
        "themes/default/index.html".to_string(),
        "themes/default/.git/HEAD".to_string(),
        "themes/default/post.html~".to_string(),
        "themes/default/static/a.css".to_string(),
    ];
    assert_eq!(
        collect_relevant_paths(&paths),
        vec!["themes/default/index.html".to_string(), "themes/default/static/a.css".to_string()]
    );
}

#[test]
fn current_language_defaults_to_zh() {
    assert_eq!(current_lang(None), "zh");
    assert_eq!(current_lang(Some(&CurrentLanguage("en".to_string()))), "en");
}
