use gdext_bridge::builtin::variant::impls::RealBits;
use gdext_bridge::builtin::variant::variant_traits::{
    round_trip, FromVariant, ToVariant, VariantConversionError, VariantMetadata,
};
use gdext_bridge::builtin::variant::variant_type::VariantType;
use gdext_bridge::builtin::variant::Variant;
use gdext_bridge::builtin::vector2i::Vector2i;
use gdext_bridge::builtin::vector3i::Vector3i;
use gdext_bridge::builtin::vector4i::Vector4i;
use gdext_bridge::obj::instance_id::InstanceId;

#[test]
fn variant_nil_is_nil() {
    let v = Variant::nil();
    assert!(v.is_nil());
    assert_eq!(v.get_type(), VariantType::Nil);
    assert_eq!(Variant::default(), Variant::Nil);
}

#[test]
fn variant_object_without_object_reports_nil() {
    let v = Variant::Object(None);
    assert_eq!(v.sys_type(), VariantType::Object);
    assert_eq!(v.get_type(), VariantType::Nil);
    assert!(v.is_nil());
}

#[test]
fn variant_object_with_object_reports_object() {
    let id = InstanceId::try_from_u64(77).unwrap();
    let v = Variant::from(id);
    assert_eq!(v.get_type(), VariantType::Object);
    assert!(!v.is_nil());
    assert_eq!(v.to::<InstanceId>(), id);
}

#[test]
fn variant_round_trip_bool() {
    for b in [false, true] {
        assert_eq!(round_trip(&b), Ok(b));
        assert_eq!(Variant::from(b).get_type(), VariantType::Bool);
    }
}

#[test]
fn variant_round_trip_integers() {
    for v in [i64::MIN, -1, 0, 1, i64::MAX] {
        assert_eq!(round_trip(&v), Ok(v));
    }
    for v in [i8::MIN, -1, 0, i8::MAX] {
        assert_eq!(round_trip(&v), Ok(v));
    }
    for v in [i16::MIN, 0, i16::MAX] {
        assert_eq!(round_trip(&v), Ok(v));
    }
    for v in [i32::MIN, 0, i32::MAX] {
        assert_eq!(round_trip(&v), Ok(v));
    }
    for v in [0u8, u8::MAX] {
        assert_eq!(round_trip(&v), Ok(v));
    }
    for v in [0u16, u16::MAX] {
        assert_eq!(round_trip(&v), Ok(v));
    }
    for v in [0u32, u32::MAX] {
        assert_eq!(round_trip(&v), Ok(v));
    }
    assert_eq!(Variant::from(-5i8), Variant::Int(-5));
    assert_eq!(Variant::from(u32::MAX), Variant::Int(4294967295));
}

#[test]
fn variant_round_trip_floats_bitwise() {
    for f in [0.0f64, -0.0, 1.5, f64::INFINITY, f64::NAN, f64::MIN_POSITIVE] {
        let bits = RealBits { bits: f.to_bits() };
        let back = round_trip(&bits).unwrap();
        assert_eq!(back.bits, f.to_bits());
        assert_eq!(Variant::from(bits).get_type(), VariantType::Float);
    }
}

#[test]
fn variant_round_trip_vectors() {
    let a = Vector2i::new(-3, 4);
    let b = Vector3i::new(1, -2, i32::MAX);
    let c = Vector4i::new(i32::MIN, 0, 7, 9);
    assert_eq!(round_trip(&a), Ok(a));
    assert_eq!(round_trip(&b), Ok(b));
    assert_eq!(round_trip(&c), Ok(c));
    assert_eq!(Variant::from(a).get_type(), VariantType::Vector2i);
    assert_eq!(Variant::from(b).get_type(), VariantType::Vector3i);
    assert_eq!(Variant::from(c).get_type(), VariantType::Vector4i);
}

#[test]
fn variant_conversion_fails_on_other_kind() {
    let v = Variant::from(5i64);
    assert_eq!(v.try_to::<bool>(), Err(VariantConversionError));
    assert_eq!(v.try_to::<Vector2i>(), Err(VariantConversionError));
    assert_eq!(v.try_to::<RealBits>(), Err(VariantConversionError));
    assert_eq!(Variant::nil().try_to::<i64>(), Err(VariantConversionError));
    assert_eq!(Variant::from(true).try_to::<i32>(), Err(VariantConversionError));
    assert_eq!(Variant::Object(None).try_to::<InstanceId>(), Err(VariantConversionError));
}

#[test]
fn variant_narrow_integer_is_checked_for_range() {
    assert_eq!(Variant::from(127i64).try_to::<i8>(), Ok(127));
    assert_eq!(Variant::from(128i64).try_to::<i8>(), Err(VariantConversionError));
    assert_eq!(Variant::from(-129i64).try_to::<i8>(), Err(VariantConversionError));
    assert_eq!(Variant::from(-1i64).try_to::<u8>(), Err(VariantConversionError));
    assert_eq!(Variant::from(255i64).try_to::<u8>(), Ok(255));
    assert_eq!(Variant::from(256i64).try_to::<u8>(), Err(VariantConversionError));
    assert_eq!(Variant::from(65536i64).try_to::<u16>(), Err(VariantConversionError));
    assert_eq!(Variant::from(-32769i64).try_to::<i16>(), Err(VariantConversionError));
    assert_eq!(Variant::from(2147483648i64).try_to::<i32>(), Err(VariantConversionError));
    assert_eq!(Variant::from(4294967296i64).try_to::<u32>(), Err(VariantConversionError));
    assert_eq!(Variant::from(4294967295i64).try_to::<u32>(), Ok(4294967295));
}

#[test]
fn variant_type_of_each_converted_type() {
    assert_eq!(<bool as VariantMetadata>::variant_type(), VariantType::Bool);
    assert_eq!(<i64 as VariantMetadata>::variant_type(), VariantType::Int);
    assert_eq!(<u16 as VariantMetadata>::variant_type(), VariantType::Int);
    assert_eq!(<RealBits as VariantMetadata>::variant_type(), VariantType::Float);
    assert_eq!(<Vector3i as VariantMetadata>::variant_type(), VariantType::Vector3i);
    assert_eq!(<InstanceId as VariantMetadata>::variant_type(), VariantType::Object);
}

#[test]
fn variant_type_numbers_follow_the_engine() {
    assert_eq!(VariantType::Nil.ord(), 0);
    assert_eq!(VariantType::Int.ord(), 2);
    assert_eq!(VariantType::Vector2i.ord(), 6);
    assert_eq!(VariantType::Vector4i.ord(), 13);
    assert_eq!(VariantType::Object.ord(), 24);
    assert_eq!(VariantType::PackedColorArray.ord(), 37);
    for n in 0..38 {
        assert_eq!(VariantType::from_sys(n).ord(), n);
    }
    assert_eq!(VariantType::try_from_sys(-1), None);
    assert_eq!(VariantType::try_from_sys(38), None);
    assert_eq!(VariantType::try_from_sys(24), Some(VariantType::Object));
}

#[test]
fn to_variant_and_try_from_variant_agree_with_from_and_try_to() {
    let v = 9i32.to_variant();
    assert_eq!(v, Variant::from(9i32));
    assert_eq!(i32::try_from_variant(&v), v.try_to::<i32>());
}
