//! Verified core of a binding between a game engine's extension interface and
//! Rust: instance storage with a checked borrow discipline, class
//! registration, value marshalling and the model behind the code generator.

pub mod builder;
pub mod builtin;
pub mod codegen;
pub mod engine;
pub mod ffi;
pub mod godot_api;
pub mod init;
pub mod obj;
pub mod registry;
pub mod storage;
pub mod text;
