//! The application's feature modules: API keys, authentication, categories, comments
//! and media.

pub mod api_key;
pub mod auth;
pub mod category;
pub mod comment;
pub mod media;
