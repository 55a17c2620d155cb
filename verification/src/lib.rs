pub mod admin;
pub mod bootstrap;
pub mod clock;
pub mod export;
pub mod infra;
pub mod modules;
pub mod plugins;
pub mod schema;
pub mod text;
