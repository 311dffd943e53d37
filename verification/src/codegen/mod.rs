//! The model behind the code generator: how engine names map to Rust names,
//! which classes and methods are bound, and which files are written.

pub mod api;
pub mod central_generator;
pub mod class_generator;
pub mod context;
pub mod enums;
pub mod files;
pub mod module_files;
pub mod names;
pub mod selection;
pub mod types;
