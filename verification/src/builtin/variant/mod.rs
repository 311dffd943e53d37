//! The engine's universal value container and the conversions into and out
//! of it.

pub mod call;
pub mod impls;
pub mod variant_traits;
pub mod variant_type;

use vstd::prelude::*;
use crate::builtin::variant::variant_traits::{FromVariant, ToVariant, VariantConversionError};
use crate::builtin::variant::variant_type::VariantType;
use crate::builtin::vector2i::Vector2i;
use crate::builtin::vector3i::Vector3i;
use crate::builtin::vector4i::Vector4i;
use crate::obj::instance_id::InstanceId;
use crate::obj::mem::{alias_dropped, alias_taken, MemAction};

verus! {

/// A value of any of the kinds that this library reads and writes itself.
///
/// A floating-point number is held by the 64 bits of its representation, so
/// that it comes back bit for bit. An object is held by its identifier; a
/// variant of kind `Object` without an object reports its kind as `Nil`.
///
/// A variant that holds a reference-counted object is an alias of it: the
/// engine counts it. So a variant is not copied but shared, and it is given
/// up by `release`; both say what becomes of the count.
#[derive(Debug, PartialEq, Eq, Structural)]
pub enum Variant {
    Nil,
    Bool(bool),
    Int(i64),
    Float(u64),
    Vector2i(Vector2i),
    Vector3i(Vector3i),
    Vector4i(Vector4i),
    Object(Option<InstanceId>),
}

impl Variant {
    /// The kind as the engine stores it.
    pub open spec fn sys_type_of(self) -> VariantType {
        match self {
            Variant::Nil => VariantType::Nil,
            Variant::Bool(_) => VariantType::Bool,
            Variant::Int(_) => VariantType::Int,
            Variant::Float(_) => VariantType::Float,
            Variant::Vector2i(_) => VariantType::Vector2i,
            Variant::Vector3i(_) => VariantType::Vector3i,
            Variant::Vector4i(_) => VariantType::Vector4i,
            Variant::Object(_) => VariantType::Object,
        }
    }

    /// The kind as it is reported: an `Object` without an object is `Nil`.
    pub open spec fn type_of(self) -> VariantType {
        match self {
            Variant::Object(None) => VariantType::Nil,
            other => other.sys_type_of(),
        }
    }

    /// Whether the variant holds an object that the engine counts.
    pub open spec fn holds_counted(self) -> bool {
        match self {
            Variant::Object(Some(id)) => id.marks_ref_counted(),
            _ => false,
        }
    }

    /// Whether the variant holds an object that the engine counts.
    pub fn is_counted(&self) -> (counted: bool)
        ensures
            counted == self.holds_counted(),
    {
        match self {
            Variant::Object(Some(id)) => id.is_ref_counted(),
            _ => false,
        }
    }

    /// A further variant that holds the same value, and what that does to
    /// the count of the object it holds: one more reference where the engine
    /// counts the object.
    pub fn share(&self) -> (shared: (Self, MemAction))
        ensures
            shared.0 == *self,
            shared.1 == alias_taken(self.holds_counted()),
    {
        let action = if self.is_counted() {
            MemAction::IncRef
        } else {
            MemAction::Nothing
        };
        let copy = match self {
            Variant::Nil => Variant::Nil,
            Variant::Bool(b) => Variant::Bool(*b),
            Variant::Int(i) => Variant::Int(*i),
            Variant::Float(bits) => Variant::Float(*bits),
            Variant::Vector2i(v) => Variant::Vector2i(*v),
            Variant::Vector3i(v) => Variant::Vector3i(*v),
            Variant::Vector4i(v) => Variant::Vector4i(*v),
            Variant::Object(id) => Variant::Object(*id),
        };
        (copy, action)
    }

    /// Gives the variant up, and says what that does to the count of the
    /// object it holds: one reference fewer where the engine counts the
    /// object.
    pub fn release(self) -> (action: MemAction)
        ensures
            action == alias_dropped(self.holds_counted()),
    {
        if self.is_counted() {
            MemAction::DecRef
        } else {
            MemAction::Nothing
        }
    }

    /// Creates an empty variant (`null` in the engine's scripts).
    pub fn nil() -> (variant: Self)
        ensures
            variant == Variant::Nil,
    {
        Variant::Nil
    }

    /// Creates a variant that holds `value`.
    pub fn from<T: ToVariant>(value: T) -> (variant: Self)
        ensures
            variant == value.to_variant_spec(),
    {
        value.to_variant()
    }

    /// Converts to type `T`. The variant must hold a `T`.
    pub fn to<T: FromVariant>(&self) -> (value: T)
        requires
            T::from_variant_spec(*self).is_some(),
        ensures
            Some(value) == T::from_variant_spec(*self),
    {
        match T::try_from_variant(self) {
            Ok(value) => value,
            Err(_) => {
                proof {
                    assert(false);
                }
                unreached()
            },
        }
    }

    /// Converts to type `T`, or fails where the variant holds no `T`.
    pub fn try_to<T: FromVariant>(&self) -> (result: Result<T, VariantConversionError>)
        ensures
            result.is_ok() == T::from_variant_spec(*self).is_some(),
            result.is_ok() ==> Some(result.unwrap()) == T::from_variant_spec(*self),
    {
        T::try_from_variant(self)
    }

    /// Whether the variant is empty, by its reported kind.
    pub fn is_nil(&self) -> (empty: bool)
        ensures
            empty == (self.type_of() == VariantType::Nil),
    {
        match self.get_type() {
            VariantType::Nil => true,
            _ => false,
        }
    }

    /// The kind that the variant reports. An `Object` without an object
    /// reports `Nil`.
    pub fn get_type(&self) -> (kind: VariantType)
        ensures
            kind == self.type_of(),
    {
        match self {
            Variant::Object(None) => VariantType::Nil,
            _ => self.sys_type(),
        }
    }

    /// The kind as the engine stores it.
    pub fn sys_type(&self) -> (kind: VariantType)
        ensures
            kind == self.sys_type_of(),
    {
        match self {
            Variant::Nil => VariantType::Nil,
            Variant::Bool(_) => VariantType::Bool,
            Variant::Int(_) => VariantType::Int,
            Variant::Float(_) => VariantType::Float,
            Variant::Vector2i(_) => VariantType::Vector2i,
            Variant::Vector3i(_) => VariantType::Vector3i,
            Variant::Vector4i(_) => VariantType::Vector4i,
            Variant::Object(_) => VariantType::Object,
        }
    }
}

impl Default for Variant {
    fn default() -> (variant: Self)
        ensures
            variant == Variant::Nil,
    {
        Variant::Nil
    }
}

} // verus!
