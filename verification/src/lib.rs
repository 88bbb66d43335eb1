//! A small publishing service core: documents are uploaded under a validated
//! name, rendered to HTML, listed, fetched and deleted, behind a shared-secret
//! access guard.

pub mod auth;
pub mod client;
pub mod errors;
pub mod laws;
pub mod page;
pub mod render;
pub mod router;
pub mod store;
pub mod strutil;
pub mod validate;
