//! Shared-access file handles and memory-mapped file regions.
//!
//! The crate models the platform-independent core of a file memory-mapping
//! library: the error taxonomy for handle and mapping failures, the access
//! hint flags, and the page-alignment arithmetic that turns a caller's
//! `(offset, len)` request into the aligned range handed to the operating
//! system's mapping primitive.

pub mod advice;
pub mod align;
pub mod errors;

pub use advice::MemoryAdvice;
pub use errors::HandleOpenError;
pub use errors::MmapError;
