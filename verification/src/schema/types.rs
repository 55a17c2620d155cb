//! Data model of schema files and of the template context built from them.

use vstd::prelude::*;

use crate::text::opt_string_view;

verus! {

/// Metadata of one collection.
#[derive(Debug)]
pub struct CollectionDef {
    /// Model name on the Rust side, such as "Category".
    pub name: String,
    /// SQLite table name, such as "categories".
    pub table: String,
    /// Human-readable display name.
    pub display_name: Option<String>,
}

/// Feature switches: which system fields are injected.
#[derive(Debug, Clone, Copy)]
pub struct FeaturesDef {
    /// Inject `deleted_at`.
    pub soft_delete: bool,
    /// Inject `created_at` and `updated_at`.
    pub timestamps: bool,
    /// Inject `sort_order`.
    pub sort_order: bool,
}

impl Default for FeaturesDef {
    fn default() -> (r: Self)
        ensures
            !r.soft_delete && !r.timestamps && !r.sort_order,
    {
        FeaturesDef { soft_delete: false, timestamps: false, sort_order: false }
    }
}

/// One field of a collection, as written in a schema file and enriched afterwards.
#[derive(Debug, Clone)]
pub struct FieldDef {
    pub name: String,
    pub field_type: String,
    pub required: bool,
    pub unique: bool,
    pub computed: bool,
    pub references: Option<String>,
    pub is_updatable: bool,
    pub is_auto_generated: bool,
    pub rust_type: String,
    pub sqlite_type: String,
}

/// Mathematical model of a [`FieldDef`]: every string taken by its characters.
pub struct FieldDefView {
    pub name: Seq<char>,
    pub field_type: Seq<char>,
    pub required: bool,
    pub unique: bool,
    pub computed: bool,
    pub references: Option<Seq<char>>,
    pub is_updatable: bool,
    pub is_auto_generated: bool,
    pub rust_type: Seq<char>,
    pub sqlite_type: Seq<char>,
}

impl View for FieldDef {
    type V = FieldDefView;

    open spec fn view(&self) -> FieldDefView {
        FieldDefView {
            name: self.name@,
            field_type: self.field_type@,
            required: self.required,
            unique: self.unique,
            computed: self.computed,
            references: opt_string_view(self.references),
            is_updatable: self.is_updatable,
            is_auto_generated: self.is_auto_generated,
            rust_type: self.rust_type@,
            sqlite_type: self.sqlite_type@,
        }
    }
}

/// The views of a sequence of fields.
pub open spec fn fields_view(fs: Seq<FieldDef>) -> Seq<FieldDefView> {
    fs.map_values(|f: FieldDef| f@)
}

/// A copy of an optional string.
pub fn clone_opt_string(o: &Option<String>) -> (r: Option<String>)
    ensures
        opt_string_view(r) == opt_string_view(*o),
{
    match o {
        Some(s) => Some(s.clone()),
        None => None,
    }
}

impl FieldDef {
    /// A copy of this field.
    pub fn duplicate(&self) -> (r: FieldDef)
        ensures
            r@ == self@,
    {
        FieldDef {
            name: self.name.clone(),
            field_type: self.field_type.clone(),
            required: self.required,
            unique: self.unique,
            computed: self.computed,
            references: clone_opt_string(&self.references),
            is_updatable: self.is_updatable,
            is_auto_generated: self.is_auto_generated,
            rust_type: self.rust_type.clone(),
            sqlite_type: self.sqlite_type.clone(),
        }
    }
}

/// Copies of all the fields, in order.
pub fn clone_fields(fs: &[FieldDef]) -> (r: Vec<FieldDef>)
    ensures
        fields_view(r@) == fields_view(fs@),
{
    let mut out: Vec<FieldDef> = Vec::new();
    let n = fs.len();
    let mut i: usize = 0;
    while i < n
        invariant
            n == fs@.len(),
            i <= n,
            fields_view(out@) == fields_view(fs@.take(i as int)),
        decreases n - i,
    {
        let f = fs[i].duplicate();
        let ghost prev = out@;
        out.push(f);
        assert(fs@.take(i + 1) =~= fs@.take(i as int).push(fs@[i as int]));
        assert(out@ =~= prev.push(f));
        assert(fields_view(out@) =~= fields_view(prev).push(f@));
        assert(fields_view(fs@.take(i + 1)) =~= fields_view(fs@.take(i as int)).push(fs@[i as int]@));
        i = i + 1;
    }
    assert(fs@.take(n as int) =~= fs@);
    out
}

/// The default of the `required` flag of a field: true.
pub fn default_true() -> (r: bool)
    ensures
        r,
{
    true
}

/// A whole schema file: the collection, its features and its fields.
#[derive(Debug)]
pub struct ColophonSchema {
    pub collection: CollectionDef,
    pub features: FeaturesDef,
    pub fields: Vec<FieldDef>,
}

/// A field together with the type strings that code templates use for it.
#[derive(Debug, Clone)]
pub struct TemplateField {
    /// The underlying field.
    pub field: FieldDef,
    /// Type in the create DTO: the Rust type for required fields, else `Option<..>`.
    pub create_type: String,
    /// Type in the update DTO: always an `Option<..>`.
    pub update_type: String,
    /// Parameter type in repository functions: `String` becomes `&str`.
    pub param_type: String,
    /// Optional parameter type in repository functions, such as `Option<&str>`.
    pub opt_param_type: String,
}

/// Mathematical model of a [`TemplateField`].
pub struct TemplateFieldView {
    pub field: FieldDefView,
    pub create_type: Seq<char>,
    pub update_type: Seq<char>,
    pub param_type: Seq<char>,
    pub opt_param_type: Seq<char>,
}

impl View for TemplateField {
    type V = TemplateFieldView;

    open spec fn view(&self) -> TemplateFieldView {
        TemplateFieldView {
            field: self.field@,
            create_type: self.create_type@,
            update_type: self.update_type@,
            param_type: self.param_type@,
            opt_param_type: self.opt_param_type@,
        }
    }
}

/// The views of a sequence of template fields.
pub open spec fn template_fields_view(fs: Seq<TemplateField>) -> Seq<TemplateFieldView> {
    fs.map_values(|f: TemplateField| f@)
}

impl std::ops::Deref for TemplateField {
    type Target = FieldDef;

    fn deref(&self) -> (r: &FieldDef)
        ensures
            *r == self.field,
    {
        &self.field
    }
}

/// Everything code templates need to render one collection.
#[derive(Debug)]
pub struct TemplateContext {
    pub model_name: String,
    pub table_name: String,
    pub display_name: String,
    pub features: FeaturesDef,
    /// All fields, including the injected system fields.
    pub fields: Vec<FieldDef>,
    /// Fields of the create DTO.
    pub create_fields: Vec<TemplateField>,
    /// Fields of the update DTO.
    pub update_fields: Vec<TemplateField>,
    /// Fields of the INSERT statement.
    pub insert_fields: Vec<TemplateField>,
    /// SELECT column list, such as "id, name, slug".
    pub select_columns: String,
    /// INSERT column list, such as "name, slug".
    pub insert_columns: String,
    /// INSERT placeholders, such as "?, ?".
    pub insert_placeholders: String,
    /// UPDATE SET clause, such as "name = ?, slug = ?".
    pub update_set_clause: String,
}

} // verus!
