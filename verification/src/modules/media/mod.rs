//! Media: the records of uploaded files, the checks an upload passes, the WebP
//! conversion that follows it, and thumbnails.

pub mod conversion;
pub mod domain;
pub mod form;
pub mod listing;
pub mod thumbnail;
pub mod upload;
