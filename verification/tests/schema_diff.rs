use colophon::schema::diff::{
    diff_collection, generate_add_columns_sql, generate_create_table_sql, generate_migration_sql,
    next_migration_number_from_names, parse_migration_number, update_lock_at, update_lock_in_memory, DiffError,
    LockCollection, SchemaDiff, SchemaLock, StringHashMap,
};
use colophon::schema::types::FieldDef;

fn test_field(name: &str, sqlite_type: &str) -> FieldDef {
    FieldDef {
        name: name.into(),
        field_type: "text".into(),
        required: true,
        unique: false,
        computed: false,
        references: None,
        is_updatable: true,
        is_auto_generated: false,
        rust_type: "String".into(),
        sqlite_type: sqlite_type.into(),
    }
}

fn empty_lock() -> SchemaLock {
    SchemaLock {
        version: 1,
        generated_at: "2025-01-01T00:00:00Z".into(),
        collections: StringHashMap::new(),
    }
}

fn lock_with_collection(name: &str, table: &str, fields: Vec<FieldDef>) -> SchemaLock {
    let mut lock = empty_lock();
    lock.collections.insert(name.into(), LockCollection { table: table.into(), fields });
    lock
}

#[test]
fn new_collection_returns_create_table() {
    let lock = empty_lock();
    let fields = vec![test_field("id", "TEXT PRIMARY KEY NOT NULL"), test_field("name", "TEXT NOT NULL")];
    let diff = diff_collection("categories", "categories", &fields, &lock).unwrap();
    assert!(matches!(diff, SchemaDiff::CreateTable));
}

#[test]
fn create_table_generates_valid_sql() {
    let fields = vec![
        test_field("id", "TEXT PRIMARY KEY NOT NULL"),
        test_field("name", "TEXT NOT NULL"),
        test_field("slug", "TEXT NOT NULL"),
    ];
    let sql = generate_create_table_sql("categories", &fields);
    assert!(sql.contains("CREATE TABLE IF NOT EXISTS categories"));
    assert!(sql.contains("id TEXT PRIMARY KEY NOT NULL"));
    assert!(sql.contains("name TEXT NOT NULL"));
    assert!(sql.contains("slug TEXT NOT NULL"));
}

#[test]
fn create_table_sql_ends_with_semicolon() {
    let fields = vec![test_field("id", "TEXT PRIMARY KEY NOT NULL")];
    let sql = generate_create_table_sql("test_table", &fields);
    assert!(sql.trim().ends_with(';'));
}

#[test]
fn new_column_returns_add_columns() {
    let lock_fields = vec![test_field("id", "TEXT PRIMARY KEY NOT NULL"), test_field("name", "TEXT NOT NULL")];
    let lock = lock_with_collection("categories", "categories", lock_fields);
    let current_fields = vec![
        test_field("id", "TEXT PRIMARY KEY NOT NULL"),
        test_field("name", "TEXT NOT NULL"),
        test_field("description", "TEXT"),
    ];
    let diff = diff_collection("categories", "categories", &current_fields, &lock).unwrap();
    match diff {
        SchemaDiff::AddColumns(cols) => {
            assert_eq!(cols.len(), 1);
            assert_eq!(cols[0].name, "description");
        }
        _ => panic!("Expected AddColumns, got {:?}", diff),
    }
}

#[test]
fn add_columns_generates_alter_statements() {
    let columns = vec![test_field("email", "TEXT NOT NULL"), test_field("age", "INTEGER NOT NULL DEFAULT 0")];
    let sql = generate_add_columns_sql("users", &columns);
    assert!(sql.contains("ALTER TABLE users ADD COLUMN email TEXT NOT NULL;"));
    assert!(sql.contains("ALTER TABLE users ADD COLUMN age INTEGER NOT NULL DEFAULT 0;"));
}

#[test]
fn add_multiple_columns_generates_separate_statements() {
    let columns = vec![
        test_field("col_a", "TEXT NOT NULL"),
        test_field("col_b", "INTEGER NOT NULL DEFAULT 0"),
        test_field("col_c", "TEXT"),
    ];
    let sql = generate_add_columns_sql("test_table", &columns);
    let statements: Vec<&str> = sql.lines().collect();
    assert_eq!(statements.len(), 3);
    for stmt in &statements {
        assert!(stmt.starts_with("ALTER TABLE test_table ADD COLUMN"));
        assert!(stmt.ends_with(';'));
    }
}

#[test]
fn identical_schemas_return_no_change() {
    let fields = vec![test_field("id", "TEXT PRIMARY KEY NOT NULL"), test_field("name", "TEXT NOT NULL")];
    let lock = lock_with_collection("categories", "categories", fields.clone());
    let diff = diff_collection("categories", "categories", &fields, &lock).unwrap();
    assert!(matches!(diff, SchemaDiff::NoChange));
}

#[test]
fn no_change_generates_empty_sql() {
    let diff = SchemaDiff::NoChange;
    let sql = generate_migration_sql(&diff, "categories", "categories", &[]);
    assert!(sql.is_empty());
}

#[test]
fn removed_column_returns_destructive_error() {
    let lock_fields = vec![
        test_field("id", "TEXT PRIMARY KEY NOT NULL"),
        test_field("name", "TEXT NOT NULL"),
        test_field("old_field", "TEXT"),
    ];
    let lock = lock_with_collection("categories", "categories", lock_fields);
    let current_fields = vec![test_field("id", "TEXT PRIMARY KEY NOT NULL"), test_field("name", "TEXT NOT NULL")];
    let err = diff_collection("categories", "categories", &current_fields, &lock).unwrap_err();
    match &err {
        DiffError::DestructiveChange { collection, details } => {
            assert_eq!(collection, "categories");
            assert!(details.contains("Column 'old_field' was removed"));
        }
    }
    assert!(err.to_string().contains("Detected destructive schema change"));
    assert!(err.to_string().contains("SQLite ALTER TABLE does not safely support"));
}

#[test]
fn removed_column_error_contains_collection_name() {
    let lock_fields = vec![test_field("id", "TEXT PRIMARY KEY NOT NULL"), test_field("legacy_col", "TEXT")];
    let lock = lock_with_collection("items", "items", lock_fields);
    let current_fields = vec![test_field("id", "TEXT PRIMARY KEY NOT NULL")];
    let err = diff_collection("items", "items", &current_fields, &lock).unwrap_err();
    assert!(err.to_string().contains("'items'"));
}

#[test]
fn type_change_returns_destructive_error() {
    let lock_fields = vec![
        test_field("id", "TEXT PRIMARY KEY NOT NULL"),
        FieldDef {
            name: "status".into(),
            field_type: "text".into(),
            required: true,
            unique: false,
            computed: false,
            references: None,
            is_updatable: true,
            is_auto_generated: false,
            rust_type: "String".into(),
            sqlite_type: "TEXT".into(),
        },
    ];
    let lock = lock_with_collection("categories", "categories", lock_fields);
    let current_fields = vec![
        test_field("id", "TEXT PRIMARY KEY NOT NULL"),
        FieldDef {
            name: "status".into(),
            field_type: "integer".into(),
            required: true,
            unique: false,
            computed: false,
            references: None,
            is_updatable: true,
            is_auto_generated: false,
            rust_type: "i64".into(),
            sqlite_type: "INTEGER NOT NULL DEFAULT 0".into(),
        },
    ];
    let err = diff_collection("categories", "categories", &current_fields, &lock).unwrap_err();
    match &err {
        DiffError::DestructiveChange { details, .. } => {
            assert!(details.contains("Column 'status' type changed from 'TEXT' to 'INTEGER NOT NULL DEFAULT 0'"));
        }
    }
}

#[test]
fn type_change_error_contains_destructive_message() {
    let lock_fields = vec![test_field("id", "TEXT PRIMARY KEY NOT NULL"), test_field("score", "TEXT")];
    let lock = lock_with_collection("games", "games", lock_fields);
    let current_fields = vec![
        test_field("id", "TEXT PRIMARY KEY NOT NULL"),
        test_field("score", "INTEGER NOT NULL DEFAULT 0"),
    ];
    let err = diff_collection("games", "games", &current_fields, &lock).unwrap_err();
    assert!(err.to_string().contains("Detected destructive schema change"));
}

#[test]
fn removal_and_addition_returns_error() {
    let lock_fields = vec![test_field("id", "TEXT PRIMARY KEY NOT NULL"), test_field("old_col", "TEXT")];
    let lock = lock_with_collection("mixed", "mixed", lock_fields);
    let current_fields = vec![test_field("id", "TEXT PRIMARY KEY NOT NULL"), test_field("new_col", "TEXT NOT NULL")];
    let err = diff_collection("mixed", "mixed", &current_fields, &lock).unwrap_err();
    match &err {
        DiffError::DestructiveChange { details, .. } => {
            assert!(details.contains("Column 'old_col' was removed"));
        }
    }
}

#[test]
fn multiple_new_columns_returns_all() {
    let lock_fields = vec![test_field("id", "TEXT PRIMARY KEY NOT NULL")];
    let lock = lock_with_collection("items", "items", lock_fields);
    let current_fields = vec![
        test_field("id", "TEXT PRIMARY KEY NOT NULL"),
        test_field("name", "TEXT NOT NULL"),
        test_field("description", "TEXT"),
        test_field("priority", "INTEGER NOT NULL DEFAULT 0"),
    ];
    let diff = diff_collection("items", "items", &current_fields, &lock).unwrap();
    match diff {
        SchemaDiff::AddColumns(cols) => {
            assert_eq!(cols.len(), 3);
            let names: Vec<&str> = cols.iter().map(|c| c.name.as_str()).collect();
            assert!(names.contains(&"name"));
            assert!(names.contains(&"description"));
            assert!(names.contains(&"priority"));
        }
        _ => panic!("Expected AddColumns"),
    }
}

#[test]
fn parse_migration_number_valid() {
    assert_eq!(parse_migration_number("001_init.sql"), Some(1));
    assert_eq!(parse_migration_number("022_add_token_version.sql"), Some(22));
    assert_eq!(parse_migration_number("999_big_migration.sql"), Some(999));
}

#[test]
fn parse_migration_number_invalid() {
    assert_eq!(parse_migration_number("README.md"), None);
    assert_eq!(parse_migration_number(".gitkeep"), None);
    assert_eq!(parse_migration_number("abc_init.sql"), None);
}

#[test]
fn fix_l2_ignores_non_sql_files() {
    assert_eq!(parse_migration_number("001_readme.md"), None);
    assert_eq!(parse_migration_number("001_init.txt"), None);
    assert_eq!(parse_migration_number("001_init.sql.bak"), None);
    assert_eq!(parse_migration_number("001_init.sql"), Some(1));
    assert_eq!(parse_migration_number("022_add_token_version.sql"), Some(22));
}

#[test]
fn update_lock_in_memory_inserts_new_collection() {
    let mut lock = empty_lock();
    let fields = vec![test_field("id", "TEXT PRIMARY KEY NOT NULL"), test_field("name", "TEXT NOT NULL")];
    update_lock_in_memory(&mut lock, "categories", "categories", &fields);
    assert!(lock.collections.contains_key("categories"));
    assert_eq!(lock.collections.get("categories").unwrap().fields.len(), 2);
    assert_eq!(lock.version, 2);
}

#[test]
fn update_lock_in_memory_overwrites_existing_collection() {
    let mut lock = lock_with_collection("categories", "categories", vec![test_field("id", "TEXT PRIMARY KEY NOT NULL")]);
    let new_fields = vec![test_field("id", "TEXT PRIMARY KEY NOT NULL"), test_field("name", "TEXT NOT NULL")];
    update_lock_in_memory(&mut lock, "categories", "categories", &new_fields);
    assert_eq!(lock.collections.get("categories").unwrap().fields.len(), 2);
    assert_eq!(lock.version, 2);
}

#[test]
fn full_diff_flow_create_table() {
    let lock = empty_lock();
    let fields = vec![test_field("id", "TEXT PRIMARY KEY NOT NULL"), test_field("title", "TEXT NOT NULL")];
    let diff = diff_collection("posts", "posts", &fields, &lock).unwrap();
    let sql = generate_migration_sql(&diff, "posts", "posts", &fields);
    assert!(matches!(diff, SchemaDiff::CreateTable));
    assert!(sql.contains("CREATE TABLE IF NOT EXISTS posts"));
}

#[test]
fn full_diff_flow_add_columns() {
    let lock_fields = vec![test_field("id", "TEXT PRIMARY KEY NOT NULL"), test_field("title", "TEXT NOT NULL")];
    let lock = lock_with_collection("posts", "posts", lock_fields);
    let mut excerpt_field = test_field("excerpt", "TEXT");
    excerpt_field.required = false;
    let current_fields = vec![
        test_field("id", "TEXT PRIMARY KEY NOT NULL"),
        test_field("title", "TEXT NOT NULL"),
        excerpt_field,
    ];
    let diff = diff_collection("posts", "posts", &current_fields, &lock).unwrap();
    let sql = generate_migration_sql(&diff, "posts", "posts", &current_fields);
    match &diff {
        SchemaDiff::AddColumns(cols) => assert_eq!(cols.len(), 1),
        _ => panic!("Expected AddColumns"),
    }
    assert!(sql.contains("ALTER TABLE posts ADD COLUMN excerpt TEXT;"));
}

#[test]
fn full_diff_flow_no_change() {
    let fields = vec![test_field("id", "TEXT PRIMARY KEY NOT NULL"), test_field("title", "TEXT NOT NULL")];
    let lock = lock_with_collection("posts", "posts", fields.clone());
    let diff = diff_collection("posts", "posts", &fields, &lock).unwrap();
    let sql = generate_migration_sql(&diff, "posts", "posts", &fields);
    assert!(matches!(diff, SchemaDiff::NoChange));
    assert!(sql.is_empty());
}

#[test]
fn add_column_preserves_unique_constraint() {
    let lock = lock_with_collection("items", "items", vec![test_field("id", "TEXT PRIMARY KEY NOT NULL")]);
    let mut unique_field = test_field("email", "TEXT NOT NULL");
    unique_field.unique = true;
    let current_fields = vec![test_field("id", "TEXT PRIMARY KEY NOT NULL"), unique_field];
    let diff = diff_collection("items", "items", &current_fields, &lock).unwrap();
    match diff {
        SchemaDiff::AddColumns(cols) => {
            let sql = generate_add_columns_sql("items", &cols);
            assert!(sql.contains("UNIQUE"));
        }
        _ => panic!("Expected AddColumns"),
    }
}

#[test]
fn add_column_preserves_references() {
    let lock = lock_with_collection("posts", "posts", vec![test_field("id", "TEXT PRIMARY KEY NOT NULL")]);
    let mut ref_field = test_field("category_id", "TEXT");
    ref_field.required = false;
    ref_field.references = Some("categories".into());
    let current_fields = vec![test_field("id", "TEXT PRIMARY KEY NOT NULL"), ref_field];
    let diff = diff_collection("posts", "posts", &current_fields, &lock).unwrap();
    match diff {
        SchemaDiff::AddColumns(cols) => {
            let sql = generate_add_columns_sql("posts", &cols);
            assert!(sql.contains("REFERENCES categories(id)"));
        }
        _ => panic!("Expected AddColumns"),
    }
}

#[test]
fn create_table_preserves_references() {
    let mut ref_field = test_field("author_id", "TEXT");
    ref_field.references = Some("users".into());
    let fields = vec![test_field("id", "TEXT PRIMARY KEY NOT NULL"), ref_field];
    let sql = generate_create_table_sql("posts", &fields);
    assert!(sql.contains("REFERENCES users(id)"));
}

// ── Further checks of the diff engine ─────────────────────────────────────

#[test]
fn create_table_sql_exact_text() {
    let mut ref_field = test_field("author_id", "TEXT");
    ref_field.references = Some("users".into());
    ref_field.unique = true;
    let fields = vec![test_field("id", "ignored"), test_field("name", "TEXT NOT NULL"), ref_field];
    let sql = generate_create_table_sql("posts", &fields);
    assert_eq!(
        sql,
        "CREATE TABLE IF NOT EXISTS posts (\n    id TEXT PRIMARY KEY NOT NULL,\n    name TEXT NOT NULL,\n    author_id TEXT NOT NULL UNIQUE REFERENCES users(id)\n);"
    );
}

#[test]
fn removal_and_type_change_listed_in_order() {
    let lock = lock_with_collection(
        "c",
        "c",
        vec![test_field("a", "TEXT"), test_field("b", "TEXT"), test_field("gone", "TEXT")],
    );
    let current = vec![test_field("a", "INTEGER"), test_field("b", "TEXT")];
    let err = diff_collection("c", "c", &current, &lock).unwrap_err();
    match &err {
        DiffError::DestructiveChange { details, .. } => assert_eq!(
            details,
            "  - Column 'gone' was removed\n  - Column 'a' type changed from 'TEXT' to 'INTEGER'"
        ),
    }
}

#[test]
fn lock_update_then_diff_reports_no_change() {
    let mut lock = empty_lock();
    let fields = vec![test_field("id", "TEXT PRIMARY KEY NOT NULL"), test_field("title", "TEXT NOT NULL")];
    update_lock_in_memory(&mut lock, "posts", "posts", &fields);
    let diff = diff_collection("posts", "posts", &fields, &lock).unwrap();
    assert!(matches!(diff, SchemaDiff::NoChange));
    assert!(!lock.generated_at.is_empty());
}

#[test]
fn next_migration_number_takes_largest_sql_number() {
    let names: Vec<String> = vec![
        "001_init.sql".into(),
        "005_add_users.sql".into(),
        "003_add_posts.sql".into(),
        "README.md".into(),
        ".gitkeep".into(),
        "abc_init.sql".into(),
    ];
    assert_eq!(next_migration_number_from_names(&names), 6);
    assert_eq!(next_migration_number_from_names(&Vec::new()), 1);
}

#[test]
fn parse_migration_number_overflow_and_sign() {
    assert_eq!(parse_migration_number("4294967296_x.sql"), None);
    assert_eq!(parse_migration_number("4294967295_x.sql"), Some(4294967295));
    assert_eq!(parse_migration_number("+7_x.sql"), Some(7));
    assert_eq!(parse_migration_number("+_x.sql"), None);
    assert_eq!(parse_migration_number("_x.sql"), None);
}

#[test]
fn lock_update_renews_the_timestamp() {
    let mut lock = empty_lock();
    update_lock_in_memory(&mut lock, "tags", "tags", &[test_field("id", "TEXT PRIMARY KEY NOT NULL")]);
    assert_ne!(lock.generated_at, "2025-01-01T00:00:00Z");
    assert!(lock.generated_at.ends_with("+00:00"));
    let mut lock = empty_lock();
    update_lock_at(&mut lock, "tags", "tags", &[], "2026-02-03T04:05:06+00:00".to_string());
    assert_eq!(lock.generated_at, "2026-02-03T04:05:06+00:00");
    assert_eq!(lock.version, 2);
    assert_eq!(lock.collections.get("tags").unwrap().table, "tags");
}

#[test]
fn only_names_and_sqlite_types_are_compared() {
    let locked = vec![test_field("id", "TEXT PRIMARY KEY NOT NULL"), test_field("name", "TEXT NOT NULL")];
    let lock = lock_with_collection("tags", "tags", locked);
    let mut changed = test_field("name", "TEXT NOT NULL");
    changed.unique = true;
    changed.required = false;
    changed.rust_type = "Option<String>".into();
    changed.references = Some("users".into());
    let current = vec![test_field("id", "TEXT PRIMARY KEY NOT NULL"), changed];
    assert!(matches!(diff_collection("tags", "tags", &current, &lock).unwrap(), SchemaDiff::NoChange));
}
