//! The seven v1 event classes, one module each.
pub mod dns;
pub mod file;
pub mod module;
pub mod network;
pub mod process;
pub mod registry;
