//! Infrastructure logic: language negotiation, local storage paths, the theme watcher's
//! path filter, password hashing, and tokens.

pub mod file_watcher;
pub mod i18n;
pub mod password;
pub mod storage;
pub mod token;
