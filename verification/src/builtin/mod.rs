//! Value types that cross the boundary to the engine.

pub mod class_name;
pub mod decimal;
pub mod variant;
pub mod vector2i;
pub mod vector3i;
pub mod vector4;
pub mod vector4i;
