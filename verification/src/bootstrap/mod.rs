//! Start-up: configuration, the OpenAPI document and the HTTP front's decisions.

pub mod config;
pub mod openapi;
pub mod router;
