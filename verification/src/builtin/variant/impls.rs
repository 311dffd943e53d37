//! The conversions of the types that this library holds itself.
//!
//! Integers narrower than 64 bits travel as 64-bit integers and are checked
//! for range on the way back.

use vstd::prelude::*;
use crate::builtin::variant::variant_traits::{
    FromVariant,
    ToVariant,
    VariantConversionError,
    VariantMetadata,
    VariantRoundTrip,
};
use crate::builtin::variant::variant_type::VariantType;
use crate::builtin::variant::Variant;
use crate::builtin::vector2i::Vector2i;
use crate::builtin::vector3i::Vector3i;
use crate::builtin::vector4i::Vector4i;
use crate::obj::instance_id::InstanceId;

verus! {

/// A 64-bit floating-point number, held by the bits of its representation.
#[derive(Copy, Clone, Debug, PartialEq, Eq, Structural)]
pub struct RealBits {
    pub bits: u64,
}

impl VariantMetadata for bool {
    open spec fn variant_type_spec() -> VariantType {
        VariantType::Bool
    }

    fn variant_type() -> (kind: VariantType) {
        VariantType::Bool
    }
}

impl ToVariant for bool {
    open spec fn to_variant_spec(&self) -> Variant {
        Variant::Bool(*self)
    }

    fn to_variant(&self) -> (variant: Variant) {
        Variant::Bool(*self)
    }
}

impl FromVariant for bool {
    open spec fn from_variant_spec(variant: Variant) -> Option<Self> {
        match variant {
            Variant::Bool(b) => Some(b),
            _ => None,
        }
    }

    fn try_from_variant(variant: &Variant) -> (result: Result<Self, VariantConversionError>) {
        match variant {
            Variant::Bool(b) => Ok(*b),
            _ => Err(VariantConversionError),
        }
    }
}

impl VariantRoundTrip for bool {
    proof fn lemma_round_trip(value: Self) {
    }

    proof fn lemma_kind_checked(variant: Variant) {
    }
}

impl VariantMetadata for i64 {
    open spec fn variant_type_spec() -> VariantType {
        VariantType::Int
    }

    fn variant_type() -> (kind: VariantType) {
        VariantType::Int
    }
}

impl ToVariant for i64 {
    open spec fn to_variant_spec(&self) -> Variant {
        Variant::Int(*self)
    }

    fn to_variant(&self) -> (variant: Variant) {
        Variant::Int(*self)
    }
}

impl FromVariant for i64 {
    open spec fn from_variant_spec(variant: Variant) -> Option<Self> {
        match variant {
            Variant::Int(i) => Some(i),
            _ => None,
        }
    }

    fn try_from_variant(variant: &Variant) -> (result: Result<Self, VariantConversionError>) {
        match variant {
            Variant::Int(i) => Ok(*i),
            _ => Err(VariantConversionError),
        }
    }
}

impl VariantRoundTrip for i64 {
    proof fn lemma_round_trip(value: Self) {
    }

    proof fn lemma_kind_checked(variant: Variant) {
    }
}

impl VariantMetadata for i8 {
    open spec fn variant_type_spec() -> VariantType {
        VariantType::Int
    }

    fn variant_type() -> (kind: VariantType) {
        VariantType::Int
    }
}

impl ToVariant for i8 {
    open spec fn to_variant_spec(&self) -> Variant {
        Variant::Int(*self as i64)
    }

    fn to_variant(&self) -> (variant: Variant) {
        Variant::Int(*self as i64)
    }
}

impl FromVariant for i8 {
    open spec fn from_variant_spec(variant: Variant) -> Option<Self> {
        match variant {
            Variant::Int(i) => if i8::MIN <= i <= i8::MAX {
                Some(i as i8)
            } else {
                None
            },
            _ => None,
        }
    }

    fn try_from_variant(variant: &Variant) -> (result: Result<Self, VariantConversionError>) {
        match variant {
            Variant::Int(i) => if i8::MIN as i64 <= *i && *i <= i8::MAX as i64 {
                Ok(*i as i8)
            } else {
                Err(VariantConversionError)
            },
            _ => Err(VariantConversionError),
        }
    }
}

impl VariantRoundTrip for i8 {
    proof fn lemma_round_trip(value: Self) {
    }

    proof fn lemma_kind_checked(variant: Variant) {
    }
}

impl VariantMetadata for i16 {
    open spec fn variant_type_spec() -> VariantType {
        VariantType::Int
    }

    fn variant_type() -> (kind: VariantType) {
        VariantType::Int
    }
}

impl ToVariant for i16 {
    open spec fn to_variant_spec(&self) -> Variant {
        Variant::Int(*self as i64)
    }

    fn to_variant(&self) -> (variant: Variant) {
        Variant::Int(*self as i64)
    }
}

impl FromVariant for i16 {
    open spec fn from_variant_spec(variant: Variant) -> Option<Self> {
        match variant {
            Variant::Int(i) => if i16::MIN <= i <= i16::MAX {
                Some(i as i16)
            } else {
                None
            },
            _ => None,
        }
    }

    fn try_from_variant(variant: &Variant) -> (result: Result<Self, VariantConversionError>) {
        match variant {
            Variant::Int(i) => if i16::MIN as i64 <= *i && *i <= i16::MAX as i64 {
                Ok(*i as i16)
            } else {
                Err(VariantConversionError)
            },
            _ => Err(VariantConversionError),
        }
    }
}

impl VariantRoundTrip for i16 {
    proof fn lemma_round_trip(value: Self) {
    }

    proof fn lemma_kind_checked(variant: Variant) {
    }
}

impl VariantMetadata for i32 {
    open spec fn variant_type_spec() -> VariantType {
        VariantType::Int
    }

    fn variant_type() -> (kind: VariantType) {
        VariantType::Int
    }
}

impl ToVariant for i32 {
    open spec fn to_variant_spec(&self) -> Variant {
        Variant::Int(*self as i64)
    }

    fn to_variant(&self) -> (variant: Variant) {
        Variant::Int(*self as i64)
    }
}

impl FromVariant for i32 {
    open spec fn from_variant_spec(variant: Variant) -> Option<Self> {
        match variant {
            Variant::Int(i) => if i32::MIN <= i <= i32::MAX {
                Some(i as i32)
            } else {
                None
            },
            _ => None,
        }
    }

    fn try_from_variant(variant: &Variant) -> (result: Result<Self, VariantConversionError>) {
        match variant {
            Variant::Int(i) => if i32::MIN as i64 <= *i && *i <= i32::MAX as i64 {
                Ok(*i as i32)
            } else {
                Err(VariantConversionError)
            },
            _ => Err(VariantConversionError),
        }
    }
}

impl VariantRoundTrip for i32 {
    proof fn lemma_round_trip(value: Self) {
    }

    proof fn lemma_kind_checked(variant: Variant) {
    }
}

impl VariantMetadata for u8 {
    open spec fn variant_type_spec() -> VariantType {
        VariantType::Int
    }

    fn variant_type() -> (kind: VariantType) {
        VariantType::Int
    }
}

impl ToVariant for u8 {
    open spec fn to_variant_spec(&self) -> Variant {
        Variant::Int(*self as i64)
    }

    fn to_variant(&self) -> (variant: Variant) {
        Variant::Int(*self as i64)
    }
}

impl FromVariant for u8 {
    open spec fn from_variant_spec(variant: Variant) -> Option<Self> {
        match variant {
            Variant::Int(i) => if u8::MIN <= i <= u8::MAX {
                Some(i as u8)
            } else {
                None
            },
            _ => None,
        }
    }

    fn try_from_variant(variant: &Variant) -> (result: Result<Self, VariantConversionError>) {
        match variant {
            Variant::Int(i) => if u8::MIN as i64 <= *i && *i <= u8::MAX as i64 {
                Ok(*i as u8)
            } else {
                Err(VariantConversionError)
            },
            _ => Err(VariantConversionError),
        }
    }
}

impl VariantRoundTrip for u8 {
    proof fn lemma_round_trip(value: Self) {
    }

    proof fn lemma_kind_checked(variant: Variant) {
    }
}

impl VariantMetadata for u16 {
    open spec fn variant_type_spec() -> VariantType {
        VariantType::Int
    }

    fn variant_type() -> (kind: VariantType) {
        VariantType::Int
    }
}

impl ToVariant for u16 {
    open spec fn to_variant_spec(&self) -> Variant {
        Variant::Int(*self as i64)
    }

    fn to_variant(&self) -> (variant: Variant) {
        Variant::Int(*self as i64)
    }
}

impl FromVariant for u16 {
    open spec fn from_variant_spec(variant: Variant) -> Option<Self> {
        match variant {
            Variant::Int(i) => if u16::MIN <= i <= u16::MAX {
                Some(i as u16)
            } else {
                None
            },
            _ => None,
        }
    }

    fn try_from_variant(variant: &Variant) -> (result: Result<Self, VariantConversionError>) {
        match variant {
            Variant::Int(i) => if u16::MIN as i64 <= *i && *i <= u16::MAX as i64 {
                Ok(*i as u16)
            } else {
                Err(VariantConversionError)
            },
            _ => Err(VariantConversionError),
        }
    }
}

impl VariantRoundTrip for u16 {
    proof fn lemma_round_trip(value: Self) {
    }

    proof fn lemma_kind_checked(variant: Variant) {
    }
}

impl VariantMetadata for u32 {
    open spec fn variant_type_spec() -> VariantType {
        VariantType::Int
    }

    fn variant_type() -> (kind: VariantType) {
        VariantType::Int
    }
}

impl ToVariant for u32 {
    open spec fn to_variant_spec(&self) -> Variant {
        Variant::Int(*self as i64)
    }

    fn to_variant(&self) -> (variant: Variant) {
        Variant::Int(*self as i64)
    }
}

impl FromVariant for u32 {
    open spec fn from_variant_spec(variant: Variant) -> Option<Self> {
        match variant {
            Variant::Int(i) => if u32::MIN <= i <= u32::MAX {
                Some(i as u32)
            } else {
                None
            },
            _ => None,
        }
    }

    fn try_from_variant(variant: &Variant) -> (result: Result<Self, VariantConversionError>) {
        match variant {
            Variant::Int(i) => if u32::MIN as i64 <= *i && *i <= u32::MAX as i64 {
                Ok(*i as u32)
            } else {
                Err(VariantConversionError)
            },
            _ => Err(VariantConversionError),
        }
    }
}

impl VariantRoundTrip for u32 {
    proof fn lemma_round_trip(value: Self) {
    }

    proof fn lemma_kind_checked(variant: Variant) {
    }
}

impl VariantMetadata for RealBits {
    open spec fn variant_type_spec() -> VariantType {
        VariantType::Float
    }

    fn variant_type() -> (kind: VariantType) {
        VariantType::Float
    }
}

impl ToVariant for RealBits {
    open spec fn to_variant_spec(&self) -> Variant {
        Variant::Float(self.bits)
    }

    fn to_variant(&self) -> (variant: Variant) {
        Variant::Float(self.bits)
    }
}

impl FromVariant for RealBits {
    open spec fn from_variant_spec(variant: Variant) -> Option<Self> {
        match variant {
            Variant::Float(bits) => Some(RealBits { bits }),
            _ => None,
        }
    }

    fn try_from_variant(variant: &Variant) -> (result: Result<Self, VariantConversionError>) {
        match variant {
            Variant::Float(bits) => Ok(RealBits { bits: *bits }),
            _ => Err(VariantConversionError),
        }
    }
}

impl VariantRoundTrip for RealBits {
    proof fn lemma_round_trip(value: Self) {
    }

    proof fn lemma_kind_checked(variant: Variant) {
    }
}

impl VariantMetadata for Vector2i {
    open spec fn variant_type_spec() -> VariantType {
        VariantType::Vector2i
    }

    fn variant_type() -> (kind: VariantType) {
        VariantType::Vector2i
    }
}

impl ToVariant for Vector2i {
    open spec fn to_variant_spec(&self) -> Variant {
        Variant::Vector2i(*self)
    }

    fn to_variant(&self) -> (variant: Variant) {
        Variant::Vector2i(*self)
    }
}

impl FromVariant for Vector2i {
    open spec fn from_variant_spec(variant: Variant) -> Option<Self> {
        match variant {
            Variant::Vector2i(v) => Some(v),
            _ => None,
        }
    }

    fn try_from_variant(variant: &Variant) -> (result: Result<Self, VariantConversionError>) {
        match variant {
            Variant::Vector2i(v) => Ok(*v),
            _ => Err(VariantConversionError),
        }
    }
}

impl VariantRoundTrip for Vector2i {
    proof fn lemma_round_trip(value: Self) {
    }

    proof fn lemma_kind_checked(variant: Variant) {
    }
}

impl VariantMetadata for Vector3i {
    open spec fn variant_type_spec() -> VariantType {
        VariantType::Vector3i
    }

    fn variant_type() -> (kind: VariantType) {
        VariantType::Vector3i
    }
}

impl ToVariant for Vector3i {
    open spec fn to_variant_spec(&self) -> Variant {
        Variant::Vector3i(*self)
    }

    fn to_variant(&self) -> (variant: Variant) {
        Variant::Vector3i(*self)
    }
}

impl FromVariant for Vector3i {
    open spec fn from_variant_spec(variant: Variant) -> Option<Self> {
        match variant {
            Variant::Vector3i(v) => Some(v),
            _ => None,
        }
    }

    fn try_from_variant(variant: &Variant) -> (result: Result<Self, VariantConversionError>) {
        match variant {
            Variant::Vector3i(v) => Ok(*v),
            _ => Err(VariantConversionError),
        }
    }
}

impl VariantRoundTrip for Vector3i {
    proof fn lemma_round_trip(value: Self) {
    }

    proof fn lemma_kind_checked(variant: Variant) {
    }
}

impl VariantMetadata for Vector4i {
    open spec fn variant_type_spec() -> VariantType {
        VariantType::Vector4i
    }

    fn variant_type() -> (kind: VariantType) {
        VariantType::Vector4i
    }
}

impl ToVariant for Vector4i {
    open spec fn to_variant_spec(&self) -> Variant {
        Variant::Vector4i(*self)
    }

    fn to_variant(&self) -> (variant: Variant) {
        Variant::Vector4i(*self)
    }
}

impl FromVariant for Vector4i {
    open spec fn from_variant_spec(variant: Variant) -> Option<Self> {
        match variant {
            Variant::Vector4i(v) => Some(v),
            _ => None,
        }
    }

    fn try_from_variant(variant: &Variant) -> (result: Result<Self, VariantConversionError>) {
        match variant {
            Variant::Vector4i(v) => Ok(*v),
            _ => Err(VariantConversionError),
        }
    }
}

impl VariantRoundTrip for Vector4i {
    proof fn lemma_round_trip(value: Self) {
    }

    proof fn lemma_kind_checked(variant: Variant) {
    }
}

impl VariantMetadata for InstanceId {
    open spec fn variant_type_spec() -> VariantType {
        VariantType::Object
    }

    fn variant_type() -> (kind: VariantType) {
        VariantType::Object
    }
}

impl ToVariant for InstanceId {
    open spec fn to_variant_spec(&self) -> Variant {
        Variant::Object(Some(*self))
    }

    fn to_variant(&self) -> (variant: Variant) {
        Variant::Object(Some(*self))
    }
}

impl FromVariant for InstanceId {
    open spec fn from_variant_spec(variant: Variant) -> Option<Self> {
        match variant {
            Variant::Object(Some(id)) => Some(id),
            _ => None,
        }
    }

    fn try_from_variant(variant: &Variant) -> (result: Result<Self, VariantConversionError>) {
        match variant {
            Variant::Object(Some(id)) => Ok(*id),
            _ => Err(VariantConversionError),
        }
    }
}

impl VariantRoundTrip for InstanceId {
    proof fn lemma_round_trip(value: Self) {
    }

    proof fn lemma_kind_checked(variant: Variant) {
    }
}

} // verus!
