//! Schema-as-code: collection definitions, the context that drives code generation,
//! the diffing engine that turns schema changes into migration SQL, and the plan of a
//! generation run.

pub mod context;
pub mod diff;
pub mod generate;
pub mod modfile;
pub mod types;
