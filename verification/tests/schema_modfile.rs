use colophon::schema::diff::parse_migration_number;
use colophon::schema::modfile::{
    declared_module_names, ensure_declaration, has_module_declaration, migration_file_name, module_declaration,
    remove_module_declaration,
};

#[test]
fn declaration_is_found_and_comments_are_ignored() {
    let content = "// pub mod tag;\npub mod post;\n  pub mod user;  \n";
    assert!(has_module_declaration(content, "post"));
    assert!(has_module_declaration(content, "user"));
    assert!(!has_module_declaration(content, "tag"));
}

#[test]
fn ensure_declaration_appends_with_newline() {
    assert_eq!(ensure_declaration("pub mod post;", "tag").unwrap(), "pub mod post;\npub mod tag;\n");
    assert_eq!(ensure_declaration("pub mod post;\n", "tag").unwrap(), "pub mod post;\npub mod tag;\n");
    assert!(ensure_declaration("pub mod tag;\n", "tag").is_none());
}

#[test]
fn remove_declaration_keeps_comments() {
    let content = "// pub mod tag;\npub mod tag;\npub mod post;\n";
    assert_eq!(remove_module_declaration(content, "tag"), "// pub mod tag;\npub mod post;");
}

#[test]
fn declared_names_are_listed_in_order() {
    let content = "pub mod post;\n/* pub mod hidden; */\npub mod  tag ;\r\nuse x;\n";
    assert_eq!(declared_module_names(content), vec!["post".to_string(), "tag".to_string()]);
}

#[test]
fn migration_file_name_pads_to_three_digits() {
    assert_eq!(migration_file_name(7, "tags"), "007_create_tags.sql");
    assert_eq!(migration_file_name(1234, "media_items"), "1234_create_media_items.sql");
    assert_eq!(module_declaration("tag"), "pub mod tag;");
}

#[test]
fn migration_file_name_reads_back_its_number() {
    for n in [0u32, 5, 42, 999, 1000, 4294967295] {
        assert_eq!(parse_migration_number(&migration_file_name(n, "my_table")), Some(n));
    }
}

#[test]
fn appended_declaration_is_found_again() {
    for content in ["", "pub mod post;", "// header\r\npub mod post;\n", "\n\n"] {
        let updated = ensure_declaration(content, "tag").unwrap();
        assert!(has_module_declaration(&updated, "tag"));
        assert!(ensure_declaration(&updated, "tag").is_none());
    }
}

#[test]
fn removed_declaration_is_gone() {
    for content in ["pub mod tag;\r\n  pub mod tag;\npub mod post;", "pub mod tag;\r", "// pub mod tag;\npub mod tag;\n"] {
        let removed = remove_module_declaration(content, "tag");
        assert!(!has_module_declaration(&removed, "tag"));
    }
}
