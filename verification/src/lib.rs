//! A small library behind a CSV file-sharing service: it validates uploaded
//! filenames, assigns identifiers, builds the stored path, accounts the
//! streamed size, renders the HTTP responses, and models the metadata store
//! so that the upload/retrieve round trip can be proved.
//!
//! All text is handled as bytes (`Vec<u8>`), which is what HTTP bodies and
//! header values are; the surrounding binary converts at its edges.

pub mod filename;
pub mod render;
pub mod ids;
pub mod response;
pub mod models;
pub mod errors;
pub mod upload;
pub mod store;
pub mod laws;
