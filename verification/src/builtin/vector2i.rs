//! Two-dimensional vector with integer coordinates.

use vstd::prelude::*;
use vstd::string::*;
use crate::builtin::decimal::{decimal, decimal_text};

verus! {

/// `glam::IVec2`, carried through as it is.
#[verifier::external_type_specification]
#[verifier::external_body]
pub struct ExIVec2(glam::IVec2);

/// The coordinates that a `glam::IVec2` holds, in order.
pub uninterp spec fn ivec2_coords(v: glam::IVec2) -> (i32, i32);

/// `glam::IVec2::new` builds the vector that holds the given coordinates.
pub assume_specification[ glam::IVec2::new ](x: i32, y: i32) -> (v: glam::IVec2)
    ensures
        ivec2_coords(v) == (x, y),
;

/// Reads the public fields of a `glam::IVec2`: its coordinates.
#[verifier::external_body]
fn ivec2_parts(v: glam::IVec2) -> (parts: (i32, i32))
    ensures
        parts == ivec2_coords(v),
{
    (v.x, v.y)
}

/// Vector used for 2D math with integer coordinates.
///
/// Holds its coordinates exactly. They are limited to 32 bits.
#[derive(Debug, Default, Clone, Copy, Eq, Ord, PartialEq, PartialOrd, Structural)]
pub struct Vector2i {
    /// The vector's X component.
    pub x: i32,
    /// The vector's Y component.
    pub y: i32,
}

/// Enumerates the axes in a [`Vector2i`].
#[derive(Copy, Clone, Debug, Eq, Ord, PartialEq, PartialOrd, Structural)]
pub enum Vector2iAxis {
    /// The X axis.
    X,
    /// The Y axis.
    Y,
}

impl Vector2i {
    /// Vector with all components set to `0`.
    pub fn zero() -> (v: Self)
        ensures
            v == (Vector2i { x: 0, y: 0 }),
    {
        Self { x: 0, y: 0 }
    }

    /// Vector with all components set to `1`.
    pub fn one() -> (v: Self)
        ensures
            v == (Vector2i { x: 1, y: 1 }),
    {
        Self { x: 1, y: 1 }
    }

    /// Unit vector in -X direction.
    pub fn left() -> (v: Self)
        ensures
            v == (Vector2i { x: -1i32, y: 0 }),
    {
        Self { x: -1, y: 0 }
    }

    /// Unit vector in +X direction.
    pub fn right() -> (v: Self)
        ensures
            v == (Vector2i { x: 1, y: 0 }),
    {
        Self { x: 1, y: 0 }
    }

    /// Unit vector in -Y direction.
    pub fn up() -> (v: Self)
        ensures
            v == (Vector2i { x: 0, y: -1i32 }),
    {
        Self { x: 0, y: -1 }
    }

    /// Unit vector in +Y direction.
    pub fn down() -> (v: Self)
        ensures
            v == (Vector2i { x: 0, y: 1 }),
    {
        Self { x: 0, y: 1 }
    }

    /// Returns a `Vector2i` with the given components.
    pub fn new(x: i32, y: i32) -> (v: Self)
        ensures
            v == (Vector2i { x, y }),
    {
        Self { x, y }
    }

    /// Constructs a new `Vector2i` with all components set to `v`.
    pub fn splat(v: i32) -> (r: Self)
        ensures
            r == (Vector2i { x: v, y: v }),
    {
        Self::new(v, v)
    }

    /// Converts the corresponding `glam` type to `Self`.
    pub fn from_glam(v: glam::IVec2) -> (r: Self)
        ensures
            (r.x, r.y) == ivec2_coords(v),
    {
        let parts = ivec2_parts(v);
        Self::new(parts.0, parts.1)
    }

    /// Converts `self` to the corresponding `glam` type.
    pub fn to_glam(self) -> (v: glam::IVec2)
        ensures
            ivec2_coords(v) == (self.x, self.y),
    {
        glam::IVec2::new(self.x, self.y)
    }

    /// The component along `axis`.
    pub fn get(self, axis: Vector2iAxis) -> (c: i32)
        ensures
            c == self.component(axis),
    {
        match axis {
            Vector2iAxis::X => self.x,
            Vector2iAxis::Y => self.y,
        }
    }

    /// The component along `axis`.
    pub open spec fn component(self, axis: Vector2iAxis) -> i32 {
        match axis {
            Vector2iAxis::X => self.x,
            Vector2iAxis::Y => self.y,
        }
    }

    /// The vector as the engine writes it: the components in decimal,
    /// separated by a comma and a space, in round brackets.
    pub open spec fn text(self) -> Seq<char> {
        "("@ + decimal(self.x as int) + ", "@ + decimal(self.y as int) + ")"@
    }

    /// The vector as the engine writes it.
    pub fn to_text(&self) -> (text: String)
        ensures
            text@ == self.text(),
    {
        let mut text = String::from_str("(");
        text.append(decimal_text(self.x).as_str());
        text.append(", ");
        text.append(decimal_text(self.y).as_str());
        text.append(")");
        text
    }
}

} // verus!
