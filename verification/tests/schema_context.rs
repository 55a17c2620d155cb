use colophon::schema::context::{build_context, to_pascal_case};
use colophon::schema::types::{CollectionDef, ColophonSchema, FeaturesDef, FieldDef};

fn minimal_schema(fields: Vec<FieldDef>) -> ColophonSchema {
    ColophonSchema {
        collection: CollectionDef {
            name: "Category".into(),
            table: "categories".into(),
            display_name: Some("分类".into()),
        },
        features: FeaturesDef::default(),
        fields,
    }
}

fn raw_field(name: &str, field_type: &str) -> FieldDef {
    FieldDef {
        name: name.into(),
        field_type: field_type.into(),
        required: true,
        unique: false,
        computed: false,
        references: None,
        is_updatable: false,
        is_auto_generated: false,
        rust_type: String::new(),
        sqlite_type: String::new(),
    }
}

fn schema_with_features(name: &str, table: &str, features: FeaturesDef, fields: Vec<FieldDef>) -> ColophonSchema {
    ColophonSchema {
        collection: CollectionDef { name: name.into(), table: table.into(), display_name: None },
        features,
        fields,
    }
}

#[test]
fn id_field_is_auto_injected() {
    let schema = minimal_schema(vec![raw_field("name", "text")]);
    let ctx = build_context(schema).expect("构建失败");
    let id = ctx.fields.first().expect("should have id field");
    assert_eq!(id.name, "id");
    assert!(id.is_auto_generated);
    assert!(!id.is_updatable);
    assert_eq!(id.rust_type, "String");
    assert_eq!(id.sqlite_type, "TEXT PRIMARY KEY NOT NULL");
}

#[test]
fn text_type_mapping() {
    let schema = minimal_schema(vec![raw_field("slug", "text")]);
    let ctx = build_context(schema).expect("构建失败");
    let slug = ctx.fields.iter().find(|f| f.name == "slug").unwrap();
    assert_eq!(slug.rust_type, "String");
    assert_eq!(slug.sqlite_type, "TEXT NOT NULL");
}

#[test]
fn richtext_type_mapping() {
    let schema = minimal_schema(vec![raw_field("content", "richtext")]);
    let ctx = build_context(schema).expect("构建失败");
    let f = ctx.fields.iter().find(|f| f.name == "content").unwrap();
    assert_eq!(f.rust_type, "String");
    assert_eq!(f.sqlite_type, "TEXT NOT NULL");
}

#[test]
fn boolean_type_mapping() {
    let schema = minimal_schema(vec![raw_field("published", "boolean")]);
    let ctx = build_context(schema).expect("构建失败");
    let f = ctx.fields.iter().find(|f| f.name == "published").unwrap();
    assert_eq!(f.rust_type, "bool");
    assert_eq!(f.sqlite_type, "INTEGER NOT NULL DEFAULT 0");
}

#[test]
fn integer_type_mapping() {
    let schema = minimal_schema(vec![raw_field("count", "integer")]);
    let ctx = build_context(schema).expect("构建失败");
    let f = ctx.fields.iter().find(|f| f.name == "count").unwrap();
    assert_eq!(f.rust_type, "i64");
    assert_eq!(f.sqlite_type, "INTEGER NOT NULL DEFAULT 0");
}

#[test]
fn timestamp_type_mapping() {
    let schema = minimal_schema(vec![raw_field("published_at", "timestamp")]);
    let ctx = build_context(schema).expect("构建失败");
    let f = ctx.fields.iter().find(|f| f.name == "published_at").unwrap();
    assert_eq!(f.rust_type, "String");
    assert_eq!(f.sqlite_type, "TEXT NOT NULL DEFAULT (datetime('now'))");
}

#[test]
fn relation_type_rejects_required_true() {
    let mut field = raw_field("category_id", "relation");
    field.required = true;
    let schema = minimal_schema(vec![field]);
    let result = build_context(schema);
    assert!(result.is_err(), "relation + required=true 应被拒绝");
}

#[test]
fn relation_type_optional_when_not_required() {
    let mut field = raw_field("parent_id", "relation");
    field.required = false;
    let schema = minimal_schema(vec![field]);
    let ctx = build_context(schema).expect("构建失败");
    let f = ctx.fields.iter().find(|f| f.name == "parent_id").unwrap();
    assert_eq!(f.rust_type, "Option<String>");
    assert_eq!(f.sqlite_type, "TEXT");
}

#[test]
fn computed_field_excluded_from_create_fields() {
    let mut field = raw_field("excerpt", "text");
    field.computed = true;
    let schema = minimal_schema(vec![raw_field("title", "text"), field]);
    let ctx = build_context(schema).expect("构建失败");
    assert!(ctx.create_fields.iter().all(|f| f.name != "excerpt"));
    assert!(ctx.create_fields.iter().any(|f| f.name == "title"));
}

#[test]
fn id_field_excluded_from_update_fields() {
    let schema = minimal_schema(vec![raw_field("name", "text")]);
    let ctx = build_context(schema).expect("构建失败");
    assert!(ctx.update_fields.iter().all(|f| f.name != "id"));
    assert!(ctx.update_fields.iter().any(|f| f.name == "name"));
}

#[test]
fn auto_generated_excluded_from_insert_fields() {
    let features = FeaturesDef { timestamps: true, ..Default::default() };
    let schema = schema_with_features("Post", "posts", features, vec![raw_field("title", "text")]);
    let ctx = build_context(schema).expect("构建失败");
    assert!(ctx.insert_fields.iter().all(|f| !f.is_auto_generated));
    assert!(ctx.insert_fields.iter().any(|f| f.name == "title"));
}

#[test]
fn timestamps_feature_injects_created_at_and_updated_at() {
    let features = FeaturesDef { timestamps: true, ..Default::default() };
    let schema = schema_with_features("Post", "posts", features, vec![raw_field("title", "text")]);
    let ctx = build_context(schema).expect("构建失败");
    assert!(ctx.fields.iter().any(|f| f.name == "created_at"));
    assert!(ctx.fields.iter().any(|f| f.name == "updated_at"));
}

#[test]
fn soft_delete_feature_injects_deleted_at() {
    let features = FeaturesDef { soft_delete: true, ..Default::default() };
    let schema = schema_with_features("Post", "posts", features, vec![raw_field("title", "text")]);
    let ctx = build_context(schema).expect("构建失败");
    let deleted = ctx.fields.iter().find(|f| f.name == "deleted_at").unwrap();
    assert_eq!(deleted.rust_type, "Option<String>");
    assert_eq!(deleted.sqlite_type, "TEXT");
    assert!(!deleted.required);
}

#[test]
fn sort_order_feature_injects_sort_order_field() {
    let features = FeaturesDef { sort_order: true, ..Default::default() };
    let schema = schema_with_features("Category", "categories", features, vec![raw_field("name", "text")]);
    let ctx = build_context(schema).expect("构建失败");
    let sort = ctx.fields.iter().find(|f| f.name == "sort_order").unwrap();
    assert_eq!(sort.rust_type, "i64");
    assert_eq!(sort.sqlite_type, "INTEGER NOT NULL DEFAULT 0");
    assert!(sort.is_updatable);
    assert!(!sort.is_auto_generated);
}

#[test]
fn select_columns_contains_all_fields() {
    let schema = minimal_schema(vec![raw_field("name", "text"), raw_field("slug", "text")]);
    let ctx = build_context(schema).expect("构建失败");
    assert_eq!(ctx.select_columns, "id, name, slug");
}

#[test]
fn display_name_falls_back_to_model_name() {
    let schema = schema_with_features("Tag", "tags", FeaturesDef::default(), vec![raw_field("name", "text")]);
    let ctx = build_context(schema).expect("构建失败");
    assert_eq!(ctx.display_name, "Tag");
}

#[test]
fn user_fields_are_marked_updatable() {
    let schema = minimal_schema(vec![raw_field("name", "text")]);
    let ctx = build_context(schema).expect("构建失败");
    let name = ctx.fields.iter().find(|f| f.name == "name").unwrap();
    assert!(name.is_updatable);
    assert!(!name.is_auto_generated);
}

#[test]
fn unknown_type_maps_to_string() {
    let schema = minimal_schema(vec![raw_field("meta", "json")]);
    let ctx = build_context(schema).expect("构建失败");
    let f = ctx.fields.iter().find(|f| f.name == "meta").unwrap();
    assert_eq!(f.rust_type, "String");
    assert_eq!(f.sqlite_type, "TEXT NOT NULL");
}

#[test]
fn fix_l1_unknown_type_logs_warning() {
    let schema = minimal_schema(vec![raw_field("meta", "texxt")]);
    let ctx = build_context(schema).expect("构建失败");
    let f = ctx.fields.iter().find(|f| f.name == "meta").unwrap();
    assert_eq!(f.rust_type, "String");
    assert_eq!(f.sqlite_type, "TEXT NOT NULL");
}

#[test]
fn to_pascal_case_converts_snake_case() {
    assert_eq!(to_pascal_case("label"), "Label");
    assert_eq!(to_pascal_case("blog_post"), "BlogPost");
    assert_eq!(to_pascal_case("some_long_name"), "SomeLongName");
    assert_eq!(to_pascal_case("media_category"), "MediaCategory");
}

#[test]
fn to_pascal_case_preserves_already_pascal_case() {
    assert_eq!(to_pascal_case("Category"), "Category");
    assert_eq!(to_pascal_case("Tag"), "Tag");
    assert_eq!(to_pascal_case("BlogPost"), "BlogPost");
}

#[test]
fn to_pascal_case_handles_single_char() {
    assert_eq!(to_pascal_case("a"), "A");
    assert_eq!(to_pascal_case("x_y"), "XY");
}

#[test]
fn fix_m2_to_pascal_case_boundary() {
    assert_eq!(to_pascal_case("Category"), "Category");
    assert_eq!(to_pascal_case("media_category"), "MediaCategory");
    assert_eq!(to_pascal_case("a"), "A");
    assert_eq!(to_pascal_case("BlogPost"), "BlogPost");
}

#[test]
fn fix_l6_pascal_case_empty_string() {
    assert_eq!(to_pascal_case(""), "");
}

#[test]
fn fix_l6_pascal_case_consecutive_underscores() {
    assert_eq!(to_pascal_case("a__b"), "AB");
    assert_eq!(to_pascal_case("some__name"), "SomeName");
    assert_eq!(to_pascal_case("_test"), "Test");
    assert_eq!(to_pascal_case("test_"), "Test");
}

#[test]
fn fix_l6_pascal_case_starts_with_digit() {
    assert_eq!(to_pascal_case("3d_model"), "3dModel");
    assert_eq!(to_pascal_case("2fa_code"), "2faCode");
    assert_eq!(to_pascal_case("123"), "123");
}

#[test]
fn build_context_converts_lowercase_name_to_pascal_case() {
    let schema = schema_with_features("label", "labels", FeaturesDef::default(), vec![raw_field("name", "text")]);
    let ctx = build_context(schema).expect("构建失败");
    assert_eq!(ctx.model_name, "Label");
    assert_eq!(ctx.display_name, "Label");
}

#[test]
fn create_type_required_field_uses_base_type() {
    let schema = minimal_schema(vec![raw_field("name", "text")]);
    let ctx = build_context(schema).expect("构建失败");
    let name = ctx.create_fields.iter().find(|f| f.name == "name").unwrap();
    assert_eq!(name.create_type, "String");
}

#[test]
fn create_type_optional_field_wraps_in_option() {
    let mut field = raw_field("description", "text");
    field.required = false;
    let schema = minimal_schema(vec![field]);
    let ctx = build_context(schema).expect("构建失败");
    let desc = ctx.create_fields.iter().find(|f| f.name == "description").unwrap();
    assert_eq!(desc.create_type, "Option<String>");
}

#[test]
fn create_type_relation_stays_option() {
    let mut field = raw_field("parent_id", "relation");
    field.required = false;
    let schema = minimal_schema(vec![field]);
    let ctx = build_context(schema).expect("构建失败");
    let parent = ctx.create_fields.iter().find(|f| f.name == "parent_id").unwrap();
    assert_eq!(parent.create_type, "Option<String>");
}

#[test]
fn update_type_always_option() {
    let schema = minimal_schema(vec![raw_field("name", "text")]);
    let ctx = build_context(schema).expect("构建失败");
    let name = ctx.update_fields.iter().find(|f| f.name == "name").unwrap();
    assert_eq!(name.update_type, "Option<String>");
}

#[test]
fn update_type_relation_stays_option() {
    let mut field = raw_field("parent_id", "relation");
    field.required = false;
    let schema = minimal_schema(vec![field]);
    let ctx = build_context(schema).expect("构建失败");
    let parent = ctx.update_fields.iter().find(|f| f.name == "parent_id").unwrap();
    assert_eq!(parent.update_type, "Option<String>");
}

#[test]
fn insert_columns_excludes_auto_generated() {
    let features = FeaturesDef { timestamps: true, ..Default::default() };
    let schema = schema_with_features("Post", "posts", features, vec![raw_field("title", "text")]);
    let ctx = build_context(schema).expect("构建失败");
    assert_eq!(ctx.insert_columns, "title");
    assert!(!ctx.insert_columns.contains("id"));
    assert!(!ctx.insert_columns.contains("created_at"));
}

#[test]
fn insert_placeholders_matches_insert_fields_count() {
    let features = FeaturesDef { timestamps: true, ..Default::default() };
    let schema = schema_with_features(
        "Post",
        "posts",
        features,
        vec![raw_field("title", "text"), raw_field("slug", "text")],
    );
    let ctx = build_context(schema).expect("构建失败");
    let placeholder_count = ctx.insert_placeholders.matches('?').count();
    assert_eq!(placeholder_count, ctx.insert_fields.len());
    assert_eq!(ctx.insert_placeholders, "?, ?");
}

#[test]
fn update_set_clause_excludes_id() {
    let schema = minimal_schema(vec![raw_field("name", "text"), raw_field("slug", "text")]);
    let ctx = build_context(schema).expect("构建失败");
    assert!(!ctx.update_set_clause.contains("id = ?"));
    assert!(ctx.update_set_clause.contains("name = ?"));
    assert!(ctx.update_set_clause.contains("slug = ?"));
}

#[test]
fn features_accessible_in_context() {
    let features = FeaturesDef { soft_delete: true, timestamps: true, sort_order: true };
    let schema = schema_with_features("Category", "categories", features, vec![]);
    let ctx = build_context(schema).expect("构建失败");
    assert!(ctx.features.soft_delete);
    assert!(ctx.features.timestamps);
    assert!(ctx.features.sort_order);
}

#[test]
fn fix_m1_relation_rejects_required_true() {
    let mut field = raw_field("category_id", "relation");
    field.required = true;
    let schema = minimal_schema(vec![field]);
    let result = build_context(schema);
    assert!(result.is_err(), "relation + required=true 应返回 Err");
    let err_msg = result.unwrap_err().to_string();
    assert!(
        err_msg.contains("relation") && err_msg.contains("required=true"),
        "错误信息应说明 relation 不支持 required=true: {}",
        err_msg
    );
}

#[test]
fn fix_m1_relation_accepts_required_false() {
    let mut field = raw_field("parent_id", "relation");
    field.required = false;
    let schema = minimal_schema(vec![field]);
    let result = build_context(schema);
    assert!(result.is_ok(), "relation + required=false 应返回 Ok");
    let ctx = result.unwrap();
    let parent = ctx.fields.iter().find(|f| f.name == "parent_id").unwrap();
    assert_eq!(parent.rust_type, "Option<String>");
}

// ── Further checks of the context builder ─────────────────────────────────

#[test]
fn full_feature_context_orders_system_fields_after_user_fields() {
    let features = FeaturesDef { soft_delete: true, timestamps: true, sort_order: true };
    let schema = schema_with_features("blog_post", "posts", features, vec![raw_field("title", "text")]);
    let ctx = build_context(schema).expect("构建失败");
    let names: Vec<&str> = ctx.fields.iter().map(|f| f.name.as_str()).collect();
    assert_eq!(names, vec!["id", "title", "created_at", "updated_at", "deleted_at", "sort_order"]);
    assert_eq!(ctx.model_name, "BlogPost");
    assert_eq!(ctx.select_columns, "id, title, created_at, updated_at, deleted_at, sort_order");
    assert_eq!(ctx.insert_columns, "title, sort_order");
    assert_eq!(ctx.insert_placeholders, "?, ?");
    assert_eq!(ctx.update_set_clause, "title = ?, sort_order = ?");
}

#[test]
fn template_field_parameter_types() {
    let mut optional = raw_field("parent_id", "relation");
    optional.required = false;
    let schema = minimal_schema(vec![raw_field("title", "text"), raw_field("count", "integer"), optional]);
    let ctx = build_context(schema).expect("构建失败");
    let title = ctx.insert_fields.iter().find(|f| f.name == "title").unwrap();
    assert_eq!(title.param_type, "&str");
    assert_eq!(title.opt_param_type, "Option<&str>");
    let count = ctx.insert_fields.iter().find(|f| f.name == "count").unwrap();
    assert_eq!(count.param_type, "i64");
    assert_eq!(count.opt_param_type, "Option<i64>");
    let parent = ctx.insert_fields.iter().find(|f| f.name == "parent_id").unwrap();
    assert_eq!(parent.param_type, "Option<&str>");
    assert_eq!(parent.opt_param_type, "Option<&str>");
}

#[test]
fn relation_error_names_the_first_offending_field() {
    let mut a = raw_field("first_ref", "relation");
    a.required = true;
    let mut b = raw_field("second_ref", "relation");
    b.required = true;
    let result = build_context(minimal_schema(vec![raw_field("name", "text"), a, b]));
    let msg = result.unwrap_err().to_string();
    assert!(msg.contains("'first_ref'"));
    assert!(!msg.contains("second_ref"));
}

#[test]
fn to_pascal_case_ascii_words() {
    assert_eq!(to_pascal_case("myPost"), "Mypost");
    assert_eq!(to_pascal_case("__a__b"), "AB");
    assert_eq!(to_pascal_case("POST_TAG"), "PostTag");
    assert_eq!(to_pascal_case(""), "");
}
