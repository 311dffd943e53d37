//! Three-dimensional vector with integer coordinates.

use vstd::prelude::*;
use vstd::string::*;
use crate::builtin::decimal::{decimal, decimal_text};

verus! {

/// `glam::IVec3`, carried through as it is.
#[verifier::external_type_specification]
#[verifier::external_body]
pub struct ExIVec3(glam::IVec3);

/// The coordinates that a `glam::IVec3` holds, in order.
pub uninterp spec fn ivec3_coords(v: glam::IVec3) -> (i32, i32, i32);

/// `glam::IVec3::new` builds the vector that holds the given coordinates.
pub assume_specification[ glam::IVec3::new ](x: i32, y: i32, z: i32) -> (v: glam::IVec3)
    ensures
        ivec3_coords(v) == (x, y, z),
;

/// Reads the public fields of a `glam::IVec3`: its coordinates.
#[verifier::external_body]
fn ivec3_parts(v: glam::IVec3) -> (parts: (i32, i32, i32))
    ensures
        parts == ivec3_coords(v),
{
    (v.x, v.y, v.z)
}

/// Vector used for 3D math with integer coordinates.
///
/// Holds its coordinates exactly. They are limited to 32 bits.
#[derive(Debug, Default, Clone, Copy, Eq, Ord, PartialEq, PartialOrd, Structural)]
pub struct Vector3i {
    /// The vector's X component.
    pub x: i32,
    /// The vector's Y component.
    pub y: i32,
    /// The vector's Z component.
    pub z: i32,
}

/// Enumerates the axes in a [`Vector3i`].
#[derive(Copy, Clone, Debug, Eq, Ord, PartialEq, PartialOrd, Structural)]
pub enum Vector3iAxis {
    /// The X axis.
    X,
    /// The Y axis.
    Y,
    /// The Z axis.
    Z,
}

impl Vector3i {
    /// Vector with all components set to `0`.
    pub fn zero() -> (v: Self)
        ensures
            v == (Vector3i { x: 0, y: 0, z: 0 }),
    {
        Self { x: 0, y: 0, z: 0 }
    }

    /// Vector with all components set to `1`.
    pub fn one() -> (v: Self)
        ensures
            v == (Vector3i { x: 1, y: 1, z: 1 }),
    {
        Self { x: 1, y: 1, z: 1 }
    }

    /// Unit vector in -X direction.
    pub fn left() -> (v: Self)
        ensures
            v == (Vector3i { x: -1i32, y: 0, z: 0 }),
    {
        Self { x: -1, y: 0, z: 0 }
    }

    /// Unit vector in +X direction.
    pub fn right() -> (v: Self)
        ensures
            v == (Vector3i { x: 1, y: 0, z: 0 }),
    {
        Self { x: 1, y: 0, z: 0 }
    }

    /// Unit vector in +Y direction.
    pub fn up() -> (v: Self)
        ensures
            v == (Vector3i { x: 0, y: 1, z: 0 }),
    {
        Self { x: 0, y: 1, z: 0 }
    }

    /// Unit vector in -Y direction.
    pub fn down() -> (v: Self)
        ensures
            v == (Vector3i { x: 0, y: -1i32, z: 0 }),
    {
        Self { x: 0, y: -1, z: 0 }
    }

    /// Unit vector in -Z direction.
    pub fn forward() -> (v: Self)
        ensures
            v == (Vector3i { x: 0, y: 0, z: -1i32 }),
    {
        Self { x: 0, y: 0, z: -1 }
    }

    /// Unit vector in +Z direction.
    pub fn back() -> (v: Self)
        ensures
            v == (Vector3i { x: 0, y: 0, z: 1 }),
    {
        Self { x: 0, y: 0, z: 1 }
    }

    /// Returns a `Vector3i` with the given components.
    pub fn new(x: i32, y: i32, z: i32) -> (v: Self)
        ensures
            v == (Vector3i { x, y, z }),
    {
        Self { x, y, z }
    }

    /// Constructs a new `Vector3i` with all components set to `v`.
    pub fn splat(v: i32) -> (r: Self)
        ensures
            r == (Vector3i { x: v, y: v, z: v }),
    {
        Self::new(v, v, v)
    }

    /// Converts the corresponding `glam` type to `Self`.
    pub fn from_glam(v: glam::IVec3) -> (r: Self)
        ensures
            (r.x, r.y, r.z) == ivec3_coords(v),
    {
        let parts = ivec3_parts(v);
        Self::new(parts.0, parts.1, parts.2)
    }

    /// Converts `self` to the corresponding `glam` type.
    pub fn to_glam(self) -> (v: glam::IVec3)
        ensures
            ivec3_coords(v) == (self.x, self.y, self.z),
    {
        glam::IVec3::new(self.x, self.y, self.z)
    }

    /// The component along `axis`.
    pub fn get(self, axis: Vector3iAxis) -> (c: i32)
        ensures
            c == self.component(axis),
    {
        match axis {
            Vector3iAxis::X => self.x,
            Vector3iAxis::Y => self.y,
            Vector3iAxis::Z => self.z,
        }
    }

    /// The component along `axis`.
    pub open spec fn component(self, axis: Vector3iAxis) -> i32 {
        match axis {
            Vector3iAxis::X => self.x,
            Vector3iAxis::Y => self.y,
            Vector3iAxis::Z => self.z,
        }
    }

    /// The vector as the engine writes it: the components in decimal,
    /// separated by a comma and a space, in round brackets.
    pub open spec fn text(self) -> Seq<char> {
        "("@ + decimal(self.x as int) + ", "@ + decimal(self.y as int) + ", "@ + decimal(self.z as int) + ")"@
    }

    /// The vector as the engine writes it.
    pub fn to_text(&self) -> (text: String)
        ensures
            text@ == self.text(),
    {
        let mut text = String::from_str("(");
        text.append(decimal_text(self.x).as_str());
        text.append(", ");
        text.append(decimal_text(self.y).as_str());
        text.append(", ");
        text.append(decimal_text(self.z).as_str());
        text.append(")");
        text
    }
}

} // verus!
