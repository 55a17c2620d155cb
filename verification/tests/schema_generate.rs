use colophon::schema::context::build_context;
use colophon::schema::diff::{update_lock_in_memory, LockCollection, SchemaDiff, SchemaLock, StringHashMap};
use colophon::schema::generate::{
    migration_path, module_dir, module_file_paths, module_name_of, module_template_names, plan_generation,
    skipped_result, template_output_name, templates_dir, written_result,
};
use colophon::schema::types::{CollectionDef, ColophonSchema, FeaturesDef, FieldDef, TemplateContext};

fn schema_field(name: &str, field_type: &str) -> FieldDef {
    FieldDef {
        name: name.into(),
        field_type: field_type.into(),
        required: true,
        unique: false,
        computed: false,
        references: None,
        is_updatable: false,
        is_auto_generated: false,
        rust_type: String::new(),
        sqlite_type: String::new(),
    }
}

fn context() -> TemplateContext {
    build_context(ColophonSchema {
        collection: CollectionDef { name: "Tag".into(), table: "tags".into(), display_name: None },
        features: FeaturesDef::default(),
        fields: vec![schema_field("name", "text")],
    })
    .unwrap()
}

fn blank_lock() -> SchemaLock {
    SchemaLock { version: 1, generated_at: String::new(), collections: StringHashMap::new() }
}

#[test]
fn templates_render_to_rust_files() {
    let names: Vec<String> = module_template_names().iter().map(|t| template_output_name(t)).collect();
    assert_eq!(names, vec!["domain.rs", "dto.rs", "repository.rs", "handler.rs", "service.rs", "mod.rs"]);
    assert_eq!(template_output_name("plain.txt"), "plain.txt");
}

#[test]
fn templates_dir_resolution() {
    assert_eq!(templates_dir("/proj", None), "/proj/cli/templates");
    assert_eq!(templates_dir("/proj", Some("/opt/tpl")), "/opt/tpl");
    assert_eq!(templates_dir("/proj", Some("my/tpl")), "/proj/my/tpl");
}

#[test]
fn module_and_migration_paths() {
    assert_eq!(module_name_of("BlogPost"), "blogpost");
    assert_eq!(module_dir("/proj", "tag"), "/proj/src/modules/tag");
    assert_eq!(migration_path("/proj", 7, "tags"), "/proj/migrations/007_create_tags.sql");
    let files = module_file_paths("/proj/src/modules/tag", &vec!["domain.rs".to_string(), "mod.rs".to_string()]);
    assert_eq!(files, vec!["/proj/src/modules/tag/domain.rs", "/proj/src/modules/tag/mod.rs"]);
}

#[test]
fn plan_for_new_collection_creates_table() {
    let ctx = context();
    let plan = plan_generation(&ctx, &blank_lock()).ok().unwrap();
    assert!(matches!(plan.diff, SchemaDiff::CreateTable));
    assert!(plan.migration_sql.starts_with("CREATE TABLE IF NOT EXISTS tags"));
}

#[test]
fn plan_for_unchanged_collection_writes_no_sql() {
    let ctx = context();
    let mut lock = blank_lock();
    lock.collections.insert(
        "Tag".into(),
        LockCollection { table: "tags".into(), fields: ctx.fields.iter().map(|f| f.clone()).collect() },
    );
    let plan = plan_generation(&ctx, &lock).ok().unwrap();
    assert!(matches!(plan.diff, SchemaDiff::NoChange));
    assert_eq!(plan.migration_sql, "");
}

#[test]
fn plan_stops_on_destructive_change() {
    let ctx = context();
    let mut locked = ctx.fields.iter().map(|f| f.clone()).collect::<Vec<_>>();
    locked.push(schema_field("legacy", "text"));
    let mut lock = blank_lock();
    lock.collections.insert("Tag".into(), LockCollection { table: "tags".into(), fields: locked });
    assert!(plan_generation(&ctx, &lock).is_err());
}

#[test]
fn run_results() {
    let r = skipped_result();
    assert!(r.skipped && r.lock_file_updated && !r.mod_rs_updated);
    assert!(r.module_files.is_empty() && r.migration_file.is_none());
    let r = written_result(vec!["a.rs".to_string()], Some("m.sql".to_string()), true);
    assert!(!r.skipped && r.lock_file_updated && r.mod_rs_updated);
    assert_eq!(r.module_files, vec!["a.rs"]);
}

#[test]
fn second_generation_plans_no_migration() {
    let ctx = context();
    let mut lock = blank_lock();
    let first = plan_generation(&ctx, &lock).ok().unwrap();
    assert!(!first.migration_sql.is_empty());
    update_lock_in_memory(&mut lock, &ctx.model_name, &ctx.table_name, &ctx.fields);
    assert_eq!(lock.version, 2);
    let second = plan_generation(&ctx, &lock).ok().unwrap();
    assert!(matches!(second.diff, SchemaDiff::NoChange));
    assert!(second.migration_sql.is_empty());
}
