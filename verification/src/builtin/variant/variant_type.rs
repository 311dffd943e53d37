//! The kinds of value that a variant can hold.

use vstd::prelude::*;

verus! {

/// The kind of value held by a variant, in the engine's order.
#[derive(Copy, Clone, Debug, PartialEq, Eq, Hash, Structural)]
pub enum VariantType {
    Nil,
    Bool,
    Int,
    Float,
    String,
    Vector2,
    Vector2i,
    Rect2,
    Rect2i,
    Vector3,
    Vector3i,
    Transform2D,
    Vector4,
    Vector4i,
    Plane,
    Quaternion,
    Aabb,
    Basis,
    Transform3D,
    Projection,
    Color,
    StringName,
    NodePath,
    Rid,
    Object,
    Callable,
    Signal,
    Dictionary,
    Array,
    PackedByteArray,
    PackedInt32Array,
    PackedInt64Array,
    PackedFloat32Array,
    PackedFloat64Array,
    PackedStringArray,
    PackedVector2Array,
    PackedVector3Array,
    PackedColorArray,
}

impl VariantType {
    /// The number under which the engine knows the kind.
    pub open spec fn ord_spec(self) -> i32 {
        match self {
            VariantType::Nil => 0,
            VariantType::Bool => 1,
            VariantType::Int => 2,
            VariantType::Float => 3,
            VariantType::String => 4,
            VariantType::Vector2 => 5,
            VariantType::Vector2i => 6,
            VariantType::Rect2 => 7,
            VariantType::Rect2i => 8,
            VariantType::Vector3 => 9,
            VariantType::Vector3i => 10,
            VariantType::Transform2D => 11,
            VariantType::Vector4 => 12,
            VariantType::Vector4i => 13,
            VariantType::Plane => 14,
            VariantType::Quaternion => 15,
            VariantType::Aabb => 16,
            VariantType::Basis => 17,
            VariantType::Transform3D => 18,
            VariantType::Projection => 19,
            VariantType::Color => 20,
            VariantType::StringName => 21,
            VariantType::NodePath => 22,
            VariantType::Rid => 23,
            VariantType::Object => 24,
            VariantType::Callable => 25,
            VariantType::Signal => 26,
            VariantType::Dictionary => 27,
            VariantType::Array => 28,
            VariantType::PackedByteArray => 29,
            VariantType::PackedInt32Array => 30,
            VariantType::PackedInt64Array => 31,
            VariantType::PackedFloat32Array => 32,
            VariantType::PackedFloat64Array => 33,
            VariantType::PackedStringArray => 34,
            VariantType::PackedVector2Array => 35,
            VariantType::PackedVector3Array => 36,
            VariantType::PackedColorArray => 37,
        }
    }

    /// The kind that the engine knows under `enumerator`, if there is one.
    pub open spec fn try_from_sys_spec(enumerator: i32) -> Option<VariantType> {
        match enumerator {
            0 => Some(VariantType::Nil),
            1 => Some(VariantType::Bool),
            2 => Some(VariantType::Int),
            3 => Some(VariantType::Float),
            4 => Some(VariantType::String),
            5 => Some(VariantType::Vector2),
            6 => Some(VariantType::Vector2i),
            7 => Some(VariantType::Rect2),
            8 => Some(VariantType::Rect2i),
            9 => Some(VariantType::Vector3),
            10 => Some(VariantType::Vector3i),
            11 => Some(VariantType::Transform2D),
            12 => Some(VariantType::Vector4),
            13 => Some(VariantType::Vector4i),
            14 => Some(VariantType::Plane),
            15 => Some(VariantType::Quaternion),
            16 => Some(VariantType::Aabb),
            17 => Some(VariantType::Basis),
            18 => Some(VariantType::Transform3D),
            19 => Some(VariantType::Projection),
            20 => Some(VariantType::Color),
            21 => Some(VariantType::StringName),
            22 => Some(VariantType::NodePath),
            23 => Some(VariantType::Rid),
            24 => Some(VariantType::Object),
            25 => Some(VariantType::Callable),
            26 => Some(VariantType::Signal),
            27 => Some(VariantType::Dictionary),
            28 => Some(VariantType::Array),
            29 => Some(VariantType::PackedByteArray),
            30 => Some(VariantType::PackedInt32Array),
            31 => Some(VariantType::PackedInt64Array),
            32 => Some(VariantType::PackedFloat32Array),
            33 => Some(VariantType::PackedFloat64Array),
            34 => Some(VariantType::PackedStringArray),
            35 => Some(VariantType::PackedVector2Array),
            36 => Some(VariantType::PackedVector3Array),
            37 => Some(VariantType::PackedColorArray),
            _ => None,
        }
    }

    /// The number under which the engine knows the kind.
    pub fn ord(self) -> (enumerator: i32)
        ensures
            enumerator == self.ord_spec(),
            0 <= enumerator < 38,
    {
        match self {
            VariantType::Nil => 0,
            VariantType::Bool => 1,
            VariantType::Int => 2,
            VariantType::Float => 3,
            VariantType::String => 4,
            VariantType::Vector2 => 5,
            VariantType::Vector2i => 6,
            VariantType::Rect2 => 7,
            VariantType::Rect2i => 8,
            VariantType::Vector3 => 9,
            VariantType::Vector3i => 10,
            VariantType::Transform2D => 11,
            VariantType::Vector4 => 12,
            VariantType::Vector4i => 13,
            VariantType::Plane => 14,
            VariantType::Quaternion => 15,
            VariantType::Aabb => 16,
            VariantType::Basis => 17,
            VariantType::Transform3D => 18,
            VariantType::Projection => 19,
            VariantType::Color => 20,
            VariantType::StringName => 21,
            VariantType::NodePath => 22,
            VariantType::Rid => 23,
            VariantType::Object => 24,
            VariantType::Callable => 25,
            VariantType::Signal => 26,
            VariantType::Dictionary => 27,
            VariantType::Array => 28,
            VariantType::PackedByteArray => 29,
            VariantType::PackedInt32Array => 30,
            VariantType::PackedInt64Array => 31,
            VariantType::PackedFloat32Array => 32,
            VariantType::PackedFloat64Array => 33,
            VariantType::PackedStringArray => 34,
            VariantType::PackedVector2Array => 35,
            VariantType::PackedVector3Array => 36,
            VariantType::PackedColorArray => 37,
        }
    }

    /// The kind that the engine knows under `enumerator`, if there is one.
    pub fn try_from_sys(enumerator: i32) -> (kind: Option<VariantType>)
        ensures
            kind == Self::try_from_sys_spec(enumerator),
            kind.is_some() == (0 <= enumerator < 38),
    {
        match enumerator {
            0 => Some(VariantType::Nil),
            1 => Some(VariantType::Bool),
            2 => Some(VariantType::Int),
            3 => Some(VariantType::Float),
            4 => Some(VariantType::String),
            5 => Some(VariantType::Vector2),
            6 => Some(VariantType::Vector2i),
            7 => Some(VariantType::Rect2),
            8 => Some(VariantType::Rect2i),
            9 => Some(VariantType::Vector3),
            10 => Some(VariantType::Vector3i),
            11 => Some(VariantType::Transform2D),
            12 => Some(VariantType::Vector4),
            13 => Some(VariantType::Vector4i),
            14 => Some(VariantType::Plane),
            15 => Some(VariantType::Quaternion),
            16 => Some(VariantType::Aabb),
            17 => Some(VariantType::Basis),
            18 => Some(VariantType::Transform3D),
            19 => Some(VariantType::Projection),
            20 => Some(VariantType::Color),
            21 => Some(VariantType::StringName),
            22 => Some(VariantType::NodePath),
            23 => Some(VariantType::Rid),
            24 => Some(VariantType::Object),
            25 => Some(VariantType::Callable),
            26 => Some(VariantType::Signal),
            27 => Some(VariantType::Dictionary),
            28 => Some(VariantType::Array),
            29 => Some(VariantType::PackedByteArray),
            30 => Some(VariantType::PackedInt32Array),
            31 => Some(VariantType::PackedInt64Array),
            32 => Some(VariantType::PackedFloat32Array),
            33 => Some(VariantType::PackedFloat64Array),
            34 => Some(VariantType::PackedStringArray),
            35 => Some(VariantType::PackedVector2Array),
            36 => Some(VariantType::PackedVector3Array),
            37 => Some(VariantType::PackedColorArray),
            _ => None,
        }
    }

    /// The kind that the engine knows under `enumerator`, which must be one
    /// of the engine's numbers.
    pub fn from_sys(enumerator: i32) -> (kind: VariantType)
        requires
            0 <= enumerator < 38,
        ensures
            Some(kind) == Self::try_from_sys_spec(enumerator),
            kind.ord_spec() == enumerator,
    {
        match Self::try_from_sys(enumerator) {
            Some(kind) => kind,
            None => VariantType::Nil,
        }
    }
}

/// Every kind is found again under its number, and every number of the
/// engine names the kind that carries it.
pub proof fn lemma_variant_type_numbering(kind: VariantType, enumerator: i32)
    ensures
        VariantType::try_from_sys_spec(kind.ord_spec()) == Some(kind),
        VariantType::try_from_sys_spec(enumerator).is_some() ==> VariantType::try_from_sys_spec(
            enumerator,
        ).unwrap().ord_spec() == enumerator,
        VariantType::try_from_sys_spec(enumerator).is_some() <==> 0 <= enumerator < 38,
{
}

} // verus!
