use colophon::schema::types::{FieldDef, TemplateField};

#[test]
fn fix_l3_template_field_uses_field_def_ref() {
    let field_def = FieldDef {
        name: "title".into(),
        field_type: "text".into(),
        required: true,
        unique: false,
        computed: false,
        references: None,
        is_updatable: true,
        is_auto_generated: false,
        rust_type: "String".into(),
        sqlite_type: "TEXT NOT NULL".into(),
    };

    let template_field = TemplateField {
        field: field_def.clone(),
        create_type: "String".into(),
        update_type: "Option<String>".into(),
        param_type: "&str".into(),
        opt_param_type: "Option<&str>".into(),
    };

    assert_eq!(template_field.name, "title");
    assert_eq!(template_field.field_type, "text");
    assert!(template_field.required);
    assert_eq!(template_field.rust_type, "String");
    assert_eq!(template_field.sqlite_type, "TEXT NOT NULL");

    assert_eq!(template_field.create_type, "String");
    assert_eq!(template_field.update_type, "Option<String>");

    assert_eq!(template_field.field.name, field_def.name);
}

#[test]
fn duplicate_keeps_every_attribute() {
    let f = FieldDef {
        name: "author_id".into(),
        field_type: "relation".into(),
        required: false,
        unique: true,
        computed: false,
        references: Some("users".into()),
        is_updatable: true,
        is_auto_generated: false,
        rust_type: "Option<String>".into(),
        sqlite_type: "TEXT".into(),
    };
    let d = f.duplicate();
    assert_eq!(d.name, "author_id");
    assert_eq!(d.references.as_deref(), Some("users"));
    assert!(d.unique && !d.required);
    assert_eq!(d.sqlite_type, "TEXT");
}

#[test]
fn default_true_is_true() {
    assert!(colophon::schema::types::default_true());
}
