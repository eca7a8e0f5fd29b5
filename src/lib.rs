//! Building filesystem paths with `/`.
//!
//! `PathDSL` wraps a `PathBuf` and appends a segment for each `/`; the
//! staging type `CopylessDSL` starts such a chain and takes over the buffer
//! of the first segment when that segment is owned.
pub mod buf;
pub mod copyless;
pub mod div;
pub mod dsl;
pub mod laws;

pub use copyless::CopylessDSL;
pub use dsl::PathDSL;
