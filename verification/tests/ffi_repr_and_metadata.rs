//! The FFI representation protocol (copy vs. borrow), the passing-convention
//! registry, and the property metadata builder.

use godot_variant::builtin::{Dictionary, GString, PackedByteArray, Vector2};
use godot_variant::meta::{FfiRepr, GodotFfiVariant, GodotType, ParamMetadata, PassingConvention};
use godot_variant::property::{PROPERTY_USAGE_DEFAULT, PROPERTY_USAGE_NIL_IS_VARIANT, PropertyHint};
use godot_variant::variant::Variant;
use godot_variant::variant_type::VariantType;

#[test]
fn by_value_to_ffi_copies_independently() {
    let v = Vector2 { x: 1, y: 2 };
    let r1 = v.to_ffi();
    let r2 = v.to_ffi();
    let mut owned1 = match r1 {
        FfiRepr::Owned(x) => x,
        FfiRepr::Borrowed(_) => panic!("by-value type must produce an owned representation"),
    };
    let owned2 = match r2 {
        FfiRepr::Owned(x) => x,
        FfiRepr::Borrowed(_) => panic!("by-value type must produce an owned representation"),
    };
    owned1.x = 99;
    assert_eq!(owned2.x, 1);
    assert_eq!(v.x, 1);
}

#[test]
fn by_ref_to_ffi_borrows_without_allocating() {
    let v = PackedByteArray { data: vec![1, 2, 3] };
    match v.to_ffi() {
        FfiRepr::Owned(_) => panic!("by-reference type must produce a borrow"),
        FfiRepr::Borrowed(b) => {
            assert!(std::ptr::eq(b, &v));
            assert!(std::ptr::eq(b.data.as_ptr(), v.data.as_ptr()));
        },
    }

    let w = Variant::Int(4);
    match w.to_ffi() {
        FfiRepr::Owned(_) => panic!("the wildcard is passed by reference"),
        FfiRepr::Borrowed(b) => assert!(std::ptr::eq(b, &w)),
    }
}

#[test]
fn passing_convention_registry() {
    assert_eq!(<bool as GodotType>::convention(), PassingConvention::ByValue);
    assert_eq!(<i64 as GodotType>::convention(), PassingConvention::ByValue);
    assert_eq!(<Vector2 as GodotType>::convention(), PassingConvention::ByValue);
    assert_eq!(<() as GodotType>::convention(), PassingConvention::ByValue);
    assert_eq!(<GString as GodotType>::convention(), PassingConvention::ByReference);
    assert_eq!(<Dictionary as GodotType>::convention(), PassingConvention::ByReference);
    assert_eq!(<PackedByteArray as GodotType>::convention(), PassingConvention::ByReference);
    assert_eq!(<Variant as GodotType>::convention(), PassingConvention::ByReference);
}

#[test]
fn into_ffi_and_try_from_ffi_are_identity() {
    let x: i64 = 41;
    let ffi = x.into_ffi();
    assert_eq!(ffi, 41);
    let back = <i64 as GodotType>::try_from_ffi(ffi).unwrap();
    assert_eq!(back, 41);

    let s = GString { value: String::from("owned") };
    let ffi = s.into_ffi();
    assert_eq!(ffi.value, "owned");
}

#[test]
fn type_names_for_reflection() {
    assert_eq!(<bool as GodotType>::godot_type_name(), "bool");
    assert_eq!(<i64 as GodotType>::godot_type_name(), "int");
    assert_eq!(
        <godot_variant::builtin::FloatVal as GodotType>::godot_type_name(),
        "float",
    );
    assert_eq!(<GString as GodotType>::godot_type_name(), "String");
    assert_eq!(<godot_variant::builtin::Aabb as GodotType>::godot_type_name(), "AABB");
    assert_eq!(<godot_variant::builtin::Rid as GodotType>::godot_type_name(), "RID");
    assert_eq!(<Variant as GodotType>::godot_type_name(), "Variant");
    assert_eq!(<() as GodotType>::godot_type_name(), "Variant");
    assert_eq!(<Dictionary as GodotType>::godot_type_name(), "Dictionary");
}

#[test]
fn param_metadata_defaults_to_none() {
    assert_eq!(<i64 as GodotType>::param_metadata(), ParamMetadata::NoMetadata);
    assert_eq!(<Variant as GodotType>::param_metadata(), ParamMetadata::NoMetadata);
}

#[test]
fn property_info_for_typed_slot() {
    let info = <i64 as GodotType>::property_info("score");
    assert_eq!(info.variant_type, VariantType::Int);
    assert_eq!(info.class_name, "");
    assert_eq!(info.property_name.value, "score");
    assert_eq!(info.hint_info.hint, PropertyHint::NoHint);
    assert_eq!(info.hint_info.hint_string.value, "");
    assert_eq!(info.usage, PROPERTY_USAGE_DEFAULT);
    assert_eq!(info.usage & PROPERTY_USAGE_NIL_IS_VARIANT, 0);
}

#[test]
fn property_info_for_wildcard_slot() {
    let info = <Variant as GodotType>::property_info("anything");
    assert_eq!(info.variant_type, VariantType::Nil);
    assert_eq!(info.class_name, "");
    assert_eq!(info.property_name.value, "anything");
    assert_eq!(info.usage, PROPERTY_USAGE_DEFAULT | PROPERTY_USAGE_NIL_IS_VARIANT);
    assert_ne!(info.usage & PROPERTY_USAGE_NIL_IS_VARIANT, 0);
}

#[test]
fn variant_type_matches_designated_tag() {
    assert_eq!(<bool as GodotType>::variant_type(), VariantType::Bool);
    assert_eq!(<GString as GodotType>::variant_type(), VariantType::GString);
    assert_eq!(<() as GodotType>::variant_type(), VariantType::Nil);
    assert_eq!(<Variant as GodotType>::variant_type(), VariantType::Nil);
}
