//! The traits by which a type converts into and out of a variant.

use vstd::prelude::*;
use crate::builtin::variant::variant_type::VariantType;
use crate::builtin::variant::Variant;

verus! {

/// The variant holds no value of the type asked for.
#[derive(Copy, Clone, Debug, PartialEq, Eq, Structural)]
pub struct VariantConversionError;

/// Says which kind of variant holds values of a type.
pub trait VariantMetadata {
    spec fn variant_type_spec() -> VariantType;

    fn variant_type() -> (kind: VariantType)
        ensures
            kind == Self::variant_type_spec(),
    ;
}

/// Conversion into a variant; it cannot fail.
pub trait ToVariant {
    /// The variant that holds `self`.
    spec fn to_variant_spec(&self) -> Variant;

    fn to_variant(&self) -> (variant: Variant)
        ensures
            variant == self.to_variant_spec(),
    ;
}

/// Conversion out of a variant; it fails where the variant holds a value of
/// another kind, or one that the type cannot hold.
pub trait FromVariant: Sized {
    /// The value that `variant` holds, if it holds one of this type.
    spec fn from_variant_spec(variant: Variant) -> Option<Self>;

    fn try_from_variant(variant: &Variant) -> (result: Result<Self, VariantConversionError>)
        ensures
            result.is_ok() == Self::from_variant_spec(*variant).is_some(),
            result.is_ok() ==> Some(result.unwrap()) == Self::from_variant_spec(*variant),
    ;
}

/// The laws that tie the two conversions of a type together.
pub trait VariantRoundTrip: ToVariant + FromVariant + VariantMetadata {
    /// A value that went into a variant comes out of it unchanged.
    proof fn lemma_round_trip(value: Self)
        ensures
            Self::from_variant_spec(value.to_variant_spec()) == Some(value),
    ;

    /// The kind is checked: a variant of another kind is never converted.
    proof fn lemma_kind_checked(variant: Variant)
        ensures
            Self::from_variant_spec(variant).is_some() ==> variant.sys_type_of()
                == Self::variant_type_spec(),
    ;
}

/// Converting `value` into a variant and back gives `value`.
pub fn round_trip<T: VariantRoundTrip>(value: &T) -> (result: Result<T, VariantConversionError>)
    ensures
        result.is_ok(),
        Some(result.unwrap()) == T::from_variant_spec(value.to_variant_spec()),
        result.unwrap() == *value,
{
    proof {
        T::lemma_round_trip(*value);
    }
    let variant = value.to_variant();
    T::try_from_variant(&variant)
}

} // verus!
