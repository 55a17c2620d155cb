//! Bundled plugins.

pub mod hello_world;
