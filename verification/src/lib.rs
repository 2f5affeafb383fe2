//! Backend command relay for a typst-based document editor.
//!
//! Each module holds one family of command handlers: resolving parent
//! directories, persisting a JSON configuration document, relaying whole-file
//! reads and writes, and building and interpreting invocations of the external
//! `typst` compiler.

pub mod compiler;
pub mod config;
pub mod errors;
pub mod files;
pub mod json;
pub mod paths;
pub mod store;
pub mod text;

pub use errors::RelayError;
