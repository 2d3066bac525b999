//! The logic of an image upload service: which images an upload names,
//! where their bytes come from, where their thumbnails go, the answers the
//! server gives, and the bookkeeping that lets it shut down gracefully.

pub mod bindings;
pub mod models;
pub mod replies;
pub mod text;
pub mod upload;
pub mod watchdog;
