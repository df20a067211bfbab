//! An in-memory ownership registry for a file service, together with the
//! authorization logic that gates every upload and download.
//!
//! The first successful upload of a filename claims it for the presented
//! credentials; every later upload or download of that filename must present
//! the same pair. The registry and the request-handling decisions are verified;
//! transport and storage I/O live outside this crate and are driven by the
//! decision values these functions return.

pub mod registry;
pub mod server;
pub mod laws;
