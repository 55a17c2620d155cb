//! Code generation from a schema: where the templates are, which files a module gets
//! and where they go, what the migration is, and what a run reports.
//!
//! Rendering the templates, formatting the code and touching the disk happen around
//! these functions; [`plan_generation`] decides what a run writes, from the lock file
//! as it was read.

use vstd::prelude::*;

use crate::infra::storage::{join_path, join_path_spec};
use crate::schema::diff::{
    diff_collection, distinct_names, existing_diff_holds, generate_migration_sql, law_unchanged_fields_report_no_change,
    migration_sql_spec, DiffError, SchemaDiff, SchemaLock,
};
use crate::schema::modfile::{migration_file_name, migration_file_name_spec};
use crate::schema::types::{fields_view, FieldDefView, TemplateContext};
use crate::text::{ascii_lower_seq, chars_of, ends_with, ends_with_spec, is_ascii_seq, spec_str_to_lowercase, str_to_lowercase, string_of, sub_chars};

verus! {

/// What a generation run did: the module files written, the migration written (if
/// any), whether the lock file and `mod.rs` were updated, and whether the module was
/// skipped because it already existed.
#[derive(Debug)]
pub struct GenerateResult {
    pub module_files: Vec<String>,
    pub migration_file: Option<String>,
    pub lock_file_updated: bool,
    pub mod_rs_updated: bool,
    pub skipped: bool,
}

/// The result of a run that skipped an existing module: nothing written but the lock.
pub fn skipped_result() -> (r: GenerateResult)
    ensures
        r.module_files@.len() == 0,
        r.migration_file is None,
        r.lock_file_updated,
        !r.mod_rs_updated,
        r.skipped,
{
    GenerateResult {
        module_files: Vec::new(),
        migration_file: None,
        lock_file_updated: true,
        mod_rs_updated: false,
        skipped: true,
    }
}

/// The templates of a module, in the order they are rendered.
pub open spec fn template_names_spec() -> Seq<Seq<char>> {
    seq!["domain.rs.j2"@, "dto.rs.j2"@, "repository.rs.j2"@, "handler.rs.j2"@, "service.rs.j2"@, "mod.rs.j2"@]
}

/// The templates of a module.
pub fn module_template_names() -> (r: Vec<&'static str>)
    ensures
        r@.map_values(|s: &str| s@) == template_names_spec(),
{
    let mut v: Vec<&'static str> = Vec::new();
    v.push("domain.rs.j2");
    v.push("dto.rs.j2");
    v.push("repository.rs.j2");
    v.push("handler.rs.j2");
    v.push("service.rs.j2");
    v.push("mod.rs.j2");
    assert(v@.map_values(|s: &str| s@) =~= template_names_spec());
    v
}

/// The file that a template renders to: its name without `.j2`.
pub open spec fn output_name_spec(template: Seq<char>) -> Seq<char> {
    if ends_with_spec(template, ".j2"@) {
        template.take(template.len() - 3)
    } else {
        template
    }
}

/// The file that a template renders to.
pub fn template_output_name(template: &str) -> (r: String)
    ensures
        r@ == output_name_spec(template@),
{
    proof {
        reveal_strlit(".j2");
    }
    let v = chars_of(template);
    if ends_with(&v, &chars_of(".j2")) {
        string_of(&sub_chars(&v, 0, v.len() - 3))
    } else {
        template.to_owned()
    }
}

/// Whether a path is absolute (starts with `/`).
pub open spec fn is_absolute_spec(p: Seq<char>) -> bool {
    p.len() > 0 && p[0] == '/'
}

/// The template directory: the configured one (relative to the project root unless
/// absolute), else `cli/templates` under the project root.
pub open spec fn templates_dir_spec(project_root: Seq<char>, custom: Option<Seq<char>>) -> Seq<char> {
    match custom {
        Some(c) => if is_absolute_spec(c) { c } else { join_path_spec(project_root, c) },
        None => join_path_spec(join_path_spec(project_root, "cli"@), "templates"@),
    }
}

/// The template directory for a project, given the `COLOPHON_TEMPLATES_DIR` setting.
pub fn templates_dir(project_root: &str, custom: Option<&str>) -> (r: String)
    ensures
        r@ == templates_dir_spec(project_root@, match custom {
            Some(c) => Some(c@),
            None => None,
        }),
{
    match custom {
        Some(c) => {
            let v = chars_of(c);
            if v.len() > 0 && v[0] == '/' {
                c.to_owned()
            } else {
                join_path(project_root, c)
            }
        },
        None => {
            let cli = join_path(project_root, "cli");
            join_path(cli.as_str(), "templates")
        },
    }
}

/// The directory of a module: `src/modules/<name>` under the project root.
pub open spec fn module_dir_spec(project_root: Seq<char>, module_name: Seq<char>) -> Seq<char> {
    join_path_spec(join_path_spec(join_path_spec(project_root, "src"@), "modules"@), module_name)
}

/// The directory of a module.
pub fn module_dir(project_root: &str, module_name: &str) -> (r: String)
    ensures
        r@ == module_dir_spec(project_root@, module_name@),
{
    let src = join_path(project_root, "src");
    let modules = join_path(src.as_str(), "modules");
    join_path(modules.as_str(), module_name)
}

/// The module name of a model: its name lower-cased (letter by letter for an ASCII
/// name).
pub fn module_name_of(model_name: &str) -> (r: String)
    ensures
        r@ == spec_str_to_lowercase(model_name@),
        is_ascii_seq(model_name@) ==> r@ == ascii_lower_seq(model_name@),
{
    str_to_lowercase(model_name)
}

/// The path of a migration file: `migrations/NNN_create_<table>.sql` under the project
/// root.
pub fn migration_path(project_root: &str, migration_number: u32, table_name: &str) -> (r: String)
    ensures
        r@ == join_path_spec(
            join_path_spec(project_root@, "migrations"@),
            migration_file_name_spec(migration_number, table_name@),
        ),
{
    let dir = join_path(project_root, "migrations");
    let name = migration_file_name(migration_number, table_name);
    join_path(dir.as_str(), name.as_str())
}

/// The paths of a module's rendered files.
pub fn module_file_paths(module_dir: &str, file_names: &Vec<String>) -> (r: Vec<String>)
    ensures
        r@.len() == file_names@.len(),
        forall|i: int| 0 <= i < r@.len() ==> #[trigger] r@[i]@ == join_path_spec(module_dir@, file_names@[i]@),
{
    let mut out: Vec<String> = Vec::new();
    let n = file_names.len();
    let mut i: usize = 0;
    while i < n
        invariant
            n == file_names@.len(),
            i <= n,
            out@.len() == i,
            forall|j: int| 0 <= j < i ==> #[trigger] out@[j]@ == join_path_spec(module_dir@, file_names@[j]@),
        decreases n - i,
    {
        out.push(join_path(module_dir, file_names[i].as_str()));
        i = i + 1;
    }
    out
}

/// What a run writes for a module that does not exist yet: the diff against the lock
/// and the migration SQL (empty when nothing changed).
pub struct GenerationPlan {
    pub diff: SchemaDiff,
    pub migration_sql: String,
}

/// The diff that a plan carries, as a diff result.
pub open spec fn plan_diff(r: Result<GenerationPlan, DiffError>) -> Result<SchemaDiff, DiffError> {
    match r {
        Ok(p) => Ok(p.diff),
        Err(e) => Err(e),
    }
}

/// Plans a run for a new module: the collection is diffed against the lock (a
/// destructive change stops the run), and the diff's migration SQL is made.
pub fn plan_generation(ctx: &TemplateContext, lock: &SchemaLock) -> (r: Result<GenerationPlan, DiffError>)
    ensures
        !lock.collections@.contains_key(ctx.model_name@) ==> (r matches Ok(p) && p.diff is CreateTable),
        lock.collections@.contains_key(ctx.model_name@) ==> existing_diff_holds(
            plan_diff(r),
            ctx.model_name@,
            fields_view(ctx.fields@),
            fields_view(lock.collections@[ctx.model_name@].fields@),
        ),
        r matches Ok(p) ==> p.migration_sql@ == migration_sql_spec(p.diff, ctx.table_name@, fields_view(ctx.fields@)),
{
    let diff = match diff_collection(ctx.model_name.as_str(), ctx.table_name.as_str(), ctx.fields.as_slice(), lock) {
        Ok(d) => d,
        Err(e) => return Err(e),
    };
    let migration_sql = generate_migration_sql(
        &diff,
        ctx.model_name.as_str(),
        ctx.table_name.as_str(),
        ctx.fields.as_slice(),
    );
    Ok(GenerationPlan { diff, migration_sql })
}

/// The result of a run that wrote a module.
pub fn written_result(module_files: Vec<String>, migration_file: Option<String>, mod_rs_updated: bool) -> (r: GenerateResult)
    ensures
        r.module_files@ == module_files@,
        r.migration_file == migration_file,
        r.lock_file_updated,
        r.mod_rs_updated == mod_rs_updated,
        !r.skipped,
{
    GenerateResult { module_files, migration_file, lock_file_updated: true, mod_rs_updated, skipped: false }
}

/// A second run over a collection whose fields the lock already records (as a run
/// leaves them there) plans no migration: the diff is "no change" and the SQL is empty.
/// Field names are taken to be distinct within the collection.
pub proof fn law_regeneration_writes_no_migration(
    r: Result<GenerationPlan, DiffError>,
    collection_name: Seq<char>,
    table_name: Seq<char>,
    fields: Seq<FieldDefView>,
)
    requires
        distinct_names(fields),
        existing_diff_holds(plan_diff(r), collection_name, fields, fields),
        r matches Ok(p) ==> p.migration_sql@ == migration_sql_spec(p.diff, table_name, fields),
    ensures
        r matches Ok(p) && p.diff is NoChange && p.migration_sql@.len() == 0,
{
    law_unchanged_fields_report_no_change(plan_diff(r), collection_name, fields);
}

} // verus!
