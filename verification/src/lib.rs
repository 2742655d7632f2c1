//! Build-time discovery and linkage pipeline for a native client library.
//!
//! The crate locates the library's search and include paths through a
//! prioritized set of discovery strategies, decides between static and
//! dynamic linking, describes the configuration handed to the header
//! binding generator, and evaluates semantic-version guards against the
//! client version captured while the headers were parsed.

pub mod bindings;
pub mod discovery;
pub mod gate;
pub mod link;
pub mod paths;
pub mod text;
