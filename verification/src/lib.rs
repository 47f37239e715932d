//! Verified core of a minimal text-editing shell.
//!
//! The library owns the document session lifecycle: parsing hex color
//! tokens, resolving a styling configuration, normalizing file paths,
//! deriving line numeration from document content, and the state machine
//! that turns a file identifier into an in-memory editable document and
//! flushes it back on close.  All I/O and the presentation surface live
//! outside this crate and hand plain values in and out.
pub mod color;
pub mod command;
pub mod config;
pub mod decimal;
pub mod numeration;
pub mod path;
pub mod session;
pub mod text;
