//! Section-scoped table extraction from a parsed wiki page, and detection of
//! the records that are new since the previous snapshot.

pub mod cell;
pub mod document;
pub mod error;
pub mod markup;
pub mod record;
pub mod resource;
pub mod response;
pub mod section;
pub mod site;
pub mod snapshot;
pub mod text;
