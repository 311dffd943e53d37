//! Four-dimensional vector with integer coordinates.

use vstd::prelude::*;
use vstd::string::*;
use crate::builtin::decimal::{decimal, decimal_text};

verus! {

/// `glam::IVec4`, carried through as it is.
#[verifier::external_type_specification]
#[verifier::external_body]
pub struct ExIVec4(glam::IVec4);

/// The coordinates that a `glam::IVec4` holds, in order.
pub uninterp spec fn ivec4_coords(v: glam::IVec4) -> (i32, i32, i32, i32);

/// `glam::IVec4::new` builds the vector that holds the given coordinates.
pub assume_specification[ glam::IVec4::new ](x: i32, y: i32, z: i32, w: i32) -> (v: glam::IVec4)
    ensures
        ivec4_coords(v) == (x, y, z, w),
;

/// Reads the public fields of a `glam::IVec4`: its coordinates.
#[verifier::external_body]
fn ivec4_parts(v: glam::IVec4) -> (parts: (i32, i32, i32, i32))
    ensures
        parts == ivec4_coords(v),
{
    (v.x, v.y, v.z, v.w)
}

/// Vector used for 4D math with integer coordinates.
///
/// Holds its coordinates exactly. They are limited to 32 bits.
#[derive(Debug, Default, Clone, Copy, Eq, Ord, PartialEq, PartialOrd, Structural)]
pub struct Vector4i {
    /// The vector's X component.
    pub x: i32,
    /// The vector's Y component.
    pub y: i32,
    /// The vector's Z component.
    pub z: i32,
    /// The vector's W component.
    pub w: i32,
}

/// Enumerates the axes in a [`Vector4i`].
#[derive(Copy, Clone, Debug, Eq, Ord, PartialEq, PartialOrd, Structural)]
pub enum Vector4iAxis {
    /// The X axis.
    X,
    /// The Y axis.
    Y,
    /// The Z axis.
    Z,
    /// The W axis.
    W,
}

impl Vector4i {
    /// Vector with all components set to `0`.
    pub fn zero() -> (v: Self)
        ensures
            v == (Vector4i { x: 0, y: 0, z: 0, w: 0 }),
    {
        Self { x: 0, y: 0, z: 0, w: 0 }
    }

    /// Vector with all components set to `1`.
    pub fn one() -> (v: Self)
        ensures
            v == (Vector4i { x: 1, y: 1, z: 1, w: 1 }),
    {
        Self { x: 1, y: 1, z: 1, w: 1 }
    }

    /// Returns a `Vector4i` with the given components.
    pub fn new(x: i32, y: i32, z: i32, w: i32) -> (v: Self)
        ensures
            v == (Vector4i { x, y, z, w }),
    {
        Self { x, y, z, w }
    }

    /// Constructs a new `Vector4i` with all components set to `v`.
    pub fn splat(v: i32) -> (r: Self)
        ensures
            r == (Vector4i { x: v, y: v, z: v, w: v }),
    {
        Self::new(v, v, v, v)
    }

    /// Converts the corresponding `glam` type to `Self`.
    pub fn from_glam(v: glam::IVec4) -> (r: Self)
        ensures
            (r.x, r.y, r.z, r.w) == ivec4_coords(v),
    {
        let parts = ivec4_parts(v);
        Self::new(parts.0, parts.1, parts.2, parts.3)
    }

    /// Converts `self` to the corresponding `glam` type.
    pub fn to_glam(self) -> (v: glam::IVec4)
        ensures
            ivec4_coords(v) == (self.x, self.y, self.z, self.w),
    {
        glam::IVec4::new(self.x, self.y, self.z, self.w)
    }

    /// The component along `axis`.
    pub fn get(self, axis: Vector4iAxis) -> (c: i32)
        ensures
            c == self.component(axis),
    {
        match axis {
            Vector4iAxis::X => self.x,
            Vector4iAxis::Y => self.y,
            Vector4iAxis::Z => self.z,
            Vector4iAxis::W => self.w,
        }
    }

    /// The component along `axis`.
    pub open spec fn component(self, axis: Vector4iAxis) -> i32 {
        match axis {
            Vector4iAxis::X => self.x,
            Vector4iAxis::Y => self.y,
            Vector4iAxis::Z => self.z,
            Vector4iAxis::W => self.w,
        }
    }

    /// The vector as the engine writes it: the components in decimal,
    /// separated by a comma and a space, in round brackets.
    pub open spec fn text(self) -> Seq<char> {
        "("@ + decimal(self.x as int) + ", "@ + decimal(self.y as int) + ", "@ + decimal(self.z as int) + ", "@ + decimal(self.w as int) + ")"@
    }

    /// The vector as the engine writes it.
    pub fn to_text(&self) -> (text: String)
        ensures
            text@ == self.text(),
    {
        let mut text = String::from_str("(");
        text.append(decimal_text(self.x).as_str());
        text.append(", ");
        text.append(decimal_text(self.y).as_str());
        text.append(", ");
        text.append(decimal_text(self.z).as_str());
        text.append(", ");
        text.append(decimal_text(self.w).as_str());
        text.append(")");
        text
    }
}

} // verus!
