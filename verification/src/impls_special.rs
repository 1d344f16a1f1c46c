//! The two special conversions: the unit value, which maps to the nil
//! container, and the wildcard `Variant`-to-`Variant` conversion, which
//! accepts any tag.

use vstd::prelude::*;
use crate::convert_error::{ConvertError, FromVariantError};
use crate::meta::{FfiRepr, GodotFfiVariant, GodotType, PassingConvention};
use crate::property::{PROPERTY_USAGE_DEFAULT, PROPERTY_USAGE_NIL_IS_VARIANT};
use crate::variant::{Variant, VariantValue};
use crate::variant_type::VariantType;

verus! {

impl GodotFfiVariant for () {
    type Model = ();

    open spec fn model(self) -> () {
        ()
    }

    open spec fn designated_tag() -> VariantType {
        VariantType::Nil
    }

    open spec fn is_strict() -> bool {
        true
    }

    open spec fn encode_of(m: ()) -> VariantValue {
        VariantValue::Nil
    }

    open spec fn decode_spec(v: VariantValue) -> Option<()> {
        if v is Nil {
            Some(())
        } else {
            None
        }
    }

    proof fn lemma_round_trip(m: ()) {
    }

    proof fn lemma_re_encode(v: VariantValue) {
    }

    proof fn lemma_encode_tag(m: ()) {
    }

    proof fn lemma_strict_decode(v: VariantValue) {
        match v {
            VariantValue::Nil => {},
            _ => {
                assert(v.tag() != VariantType::Nil);
            },
        }
    }

    fn ffi_to_variant(&self) -> (out: Variant) {
        Variant::nil()
    }

    fn ffi_from_variant(variant: &Variant) -> (r: Result<(), ConvertError>) {
        if variant.is_nil() {
            return Ok(());
        }

        Err(FromVariantError::BadType {
            expected: VariantType::Nil,
            actual: variant.get_type(),
        }.into_error(variant.clone_variant()))
    }
}

impl GodotType for () {
    open spec fn passing_convention() -> PassingConvention {
        PassingConvention::ByValue
    }

    open spec fn godot_name() -> Seq<char> {
        "Variant"@
    }

    open spec fn usage_flags() -> u64 {
        PROPERTY_USAGE_DEFAULT
    }

    fn variant_type() -> VariantType {
        VariantType::Nil
    }

    fn convention() -> PassingConvention {
        PassingConvention::ByValue
    }

    fn property_usage() -> u64 {
        PROPERTY_USAGE_DEFAULT
    }

    fn godot_type_name() -> &'static str {
        "Variant"
    }

    fn to_ffi<'a>(&'a self) -> FfiRepr<'a, ()> {
        FfiRepr::Owned(())
    }
}

impl GodotFfiVariant for Variant {
    type Model = VariantValue;

    open spec fn model(self) -> VariantValue {
        self@
    }

    open spec fn designated_tag() -> VariantType {
        VariantType::Nil
    }

    open spec fn is_strict() -> bool {
        false
    }

    open spec fn encode_of(m: VariantValue) -> VariantValue {
        m
    }

    open spec fn decode_spec(v: VariantValue) -> Option<VariantValue> {
        Some(v)
    }

    proof fn lemma_round_trip(m: VariantValue) {
    }

    proof fn lemma_re_encode(v: VariantValue) {
    }

    proof fn lemma_encode_tag(m: VariantValue) {
    }

    proof fn lemma_strict_decode(v: VariantValue) {
    }

    fn ffi_to_variant(&self) -> (out: Variant) {
        self.clone_variant()
    }

    fn ffi_from_variant(variant: &Variant) -> (r: Result<Variant, ConvertError>) {
        Ok(variant.clone_variant())
    }
}

impl GodotType for Variant {
    open spec fn passing_convention() -> PassingConvention {
        PassingConvention::ByReference
    }

    open spec fn godot_name() -> Seq<char> {
        "Variant"@
    }

    open spec fn usage_flags() -> u64 {
        PROPERTY_USAGE_DEFAULT | PROPERTY_USAGE_NIL_IS_VARIANT
    }

    fn variant_type() -> VariantType {
        VariantType::Nil
    }

    fn convention() -> PassingConvention {
        PassingConvention::ByReference
    }

    fn property_usage() -> u64 {
        PROPERTY_USAGE_DEFAULT | PROPERTY_USAGE_NIL_IS_VARIANT
    }

    fn godot_type_name() -> &'static str {
        "Variant"
    }

    fn to_ffi<'a>(&'a self) -> FfiRepr<'a, Variant> {
        FfiRepr::Borrowed(self)
    }
}

} // verus!
