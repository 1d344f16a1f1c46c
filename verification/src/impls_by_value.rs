//! Conversions for the plain-data builtin types, all passed by value: the
//! FFI representation is an independent copy of the value itself.

use vstd::prelude::*;
use crate::builtin::{
    Aabb, Basis, Color, FloatVal, Plane, Projection, Quaternion, Rect2, Rect2i, Rid, Transform2D,
    Transform3D, Vector2, Vector2i, Vector3, Vector3i, Vector4, Vector4i,
};
use crate::convert_error::{ConvertError, FromVariantError};
use crate::meta::{FfiRepr, GodotFfiVariant, GodotType, PassingConvention};
use crate::property::PROPERTY_USAGE_DEFAULT;
use crate::variant::{Variant, VariantValue};
use crate::variant_type::VariantType;

verus! {

impl GodotFfiVariant for bool {
    type Model = bool;

    open spec fn model(self) -> bool {
        self
    }

    open spec fn designated_tag() -> VariantType {
        VariantType::Bool
    }

    open spec fn is_strict() -> bool {
        true
    }

    open spec fn encode_of(m: bool) -> VariantValue {
        VariantValue::Bool(m)
    }

    open spec fn decode_spec(v: VariantValue) -> Option<bool> {
        match v {
            VariantValue::Bool(x) => Some(x),
            _ => None,
        }
    }

    proof fn lemma_round_trip(m: bool) {
    }

    proof fn lemma_re_encode(v: VariantValue) {
    }

    proof fn lemma_encode_tag(m: bool) {
    }

    proof fn lemma_strict_decode(v: VariantValue) {
    }

    fn ffi_to_variant(&self) -> (out: Variant) {
        Variant::Bool(*self)
    }

    fn ffi_from_variant(variant: &Variant) -> (r: Result<bool, ConvertError>) {
        match variant {
            Variant::Bool(x) => Ok(*x),
            _ => Err(FromVariantError::BadType {
                expected: VariantType::Bool,
                actual: variant.get_type(),
            }.into_error(variant.clone_variant())),
        }
    }
}

impl GodotType for bool {
    open spec fn passing_convention() -> PassingConvention {
        PassingConvention::ByValue
    }

    open spec fn godot_name() -> Seq<char> {
        "bool"@
    }

    open spec fn usage_flags() -> u64 {
        PROPERTY_USAGE_DEFAULT
    }

    fn variant_type() -> VariantType {
        VariantType::Bool
    }

    fn convention() -> PassingConvention {
        PassingConvention::ByValue
    }

    fn property_usage() -> u64 {
        PROPERTY_USAGE_DEFAULT
    }

    fn godot_type_name() -> &'static str {
        "bool"
    }

    fn to_ffi<'a>(&'a self) -> FfiRepr<'a, bool> {
        FfiRepr::Owned(*self)
    }
}

impl GodotFfiVariant for i64 {
    type Model = i64;

    open spec fn model(self) -> i64 {
        self
    }

    open spec fn designated_tag() -> VariantType {
        VariantType::Int
    }

    open spec fn is_strict() -> bool {
        true
    }

    open spec fn encode_of(m: i64) -> VariantValue {
        VariantValue::Int(m)
    }

    open spec fn decode_spec(v: VariantValue) -> Option<i64> {
        match v {
            VariantValue::Int(x) => Some(x),
            _ => None,
        }
    }

    proof fn lemma_round_trip(m: i64) {
    }

    proof fn lemma_re_encode(v: VariantValue) {
    }

    proof fn lemma_encode_tag(m: i64) {
    }

    proof fn lemma_strict_decode(v: VariantValue) {
    }

    fn ffi_to_variant(&self) -> (out: Variant) {
        Variant::Int(*self)
    }

    fn ffi_from_variant(variant: &Variant) -> (r: Result<i64, ConvertError>) {
        match variant {
            Variant::Int(x) => Ok(*x),
            _ => Err(FromVariantError::BadType {
                expected: VariantType::Int,
                actual: variant.get_type(),
            }.into_error(variant.clone_variant())),
        }
    }
}

impl GodotType for i64 {
    open spec fn passing_convention() -> PassingConvention {
        PassingConvention::ByValue
    }

    open spec fn godot_name() -> Seq<char> {
        "int"@
    }

    open spec fn usage_flags() -> u64 {
        PROPERTY_USAGE_DEFAULT
    }

    fn variant_type() -> VariantType {
        VariantType::Int
    }

    fn convention() -> PassingConvention {
        PassingConvention::ByValue
    }

    fn property_usage() -> u64 {
        PROPERTY_USAGE_DEFAULT
    }

    fn godot_type_name() -> &'static str {
        "int"
    }

    fn to_ffi<'a>(&'a self) -> FfiRepr<'a, i64> {
        FfiRepr::Owned(*self)
    }
}

impl GodotFfiVariant for FloatVal {
    type Model = FloatVal;

    open spec fn model(self) -> FloatVal {
        self
    }

    open spec fn designated_tag() -> VariantType {
        VariantType::Float
    }

    open spec fn is_strict() -> bool {
        true
    }

    open spec fn encode_of(m: FloatVal) -> VariantValue {
        VariantValue::Float(m)
    }

    open spec fn decode_spec(v: VariantValue) -> Option<FloatVal> {
        match v {
            VariantValue::Float(x) => Some(x),
            _ => None,
        }
    }

    proof fn lemma_round_trip(m: FloatVal) {
    }

    proof fn lemma_re_encode(v: VariantValue) {
    }

    proof fn lemma_encode_tag(m: FloatVal) {
    }

    proof fn lemma_strict_decode(v: VariantValue) {
    }

    fn ffi_to_variant(&self) -> (out: Variant) {
        Variant::Float(*self)
    }

    fn ffi_from_variant(variant: &Variant) -> (r: Result<FloatVal, ConvertError>) {
        match variant {
            Variant::Float(x) => Ok(*x),
            _ => Err(FromVariantError::BadType {
                expected: VariantType::Float,
                actual: variant.get_type(),
            }.into_error(variant.clone_variant())),
        }
    }
}

impl GodotType for FloatVal {
    open spec fn passing_convention() -> PassingConvention {
        PassingConvention::ByValue
    }

    open spec fn godot_name() -> Seq<char> {
        "float"@
    }

    open spec fn usage_flags() -> u64 {
        PROPERTY_USAGE_DEFAULT
    }

    fn variant_type() -> VariantType {
        VariantType::Float
    }

    fn convention() -> PassingConvention {
        PassingConvention::ByValue
    }

    fn property_usage() -> u64 {
        PROPERTY_USAGE_DEFAULT
    }

    fn godot_type_name() -> &'static str {
        "float"
    }

    fn to_ffi<'a>(&'a self) -> FfiRepr<'a, FloatVal> {
        FfiRepr::Owned(*self)
    }
}

impl GodotFfiVariant for Vector2 {
    type Model = Vector2;

    open spec fn model(self) -> Vector2 {
        self
    }

    open spec fn designated_tag() -> VariantType {
        VariantType::Vector2
    }

    open spec fn is_strict() -> bool {
        true
    }

    open spec fn encode_of(m: Vector2) -> VariantValue {
        VariantValue::Vector2(m)
    }

    open spec fn decode_spec(v: VariantValue) -> Option<Vector2> {
        match v {
            VariantValue::Vector2(x) => Some(x),
            _ => None,
        }
    }

    proof fn lemma_round_trip(m: Vector2) {
    }

    proof fn lemma_re_encode(v: VariantValue) {
    }

    proof fn lemma_encode_tag(m: Vector2) {
    }

    proof fn lemma_strict_decode(v: VariantValue) {
    }

    fn ffi_to_variant(&self) -> (out: Variant) {
        Variant::Vector2(*self)
    }

    fn ffi_from_variant(variant: &Variant) -> (r: Result<Vector2, ConvertError>) {
        match variant {
            Variant::Vector2(x) => Ok(*x),
            _ => Err(FromVariantError::BadType {
                expected: VariantType::Vector2,
                actual: variant.get_type(),
            }.into_error(variant.clone_variant())),
        }
    }
}

impl GodotType for Vector2 {
    open spec fn passing_convention() -> PassingConvention {
        PassingConvention::ByValue
    }

    open spec fn godot_name() -> Seq<char> {
        "Vector2"@
    }

    open spec fn usage_flags() -> u64 {
        PROPERTY_USAGE_DEFAULT
    }

    fn variant_type() -> VariantType {
        VariantType::Vector2
    }

    fn convention() -> PassingConvention {
        PassingConvention::ByValue
    }

    fn property_usage() -> u64 {
        PROPERTY_USAGE_DEFAULT
    }

    fn godot_type_name() -> &'static str {
        "Vector2"
    }

    fn to_ffi<'a>(&'a self) -> FfiRepr<'a, Vector2> {
        FfiRepr::Owned(*self)
    }
}

impl GodotFfiVariant for Vector2i {
    type Model = Vector2i;

    open spec fn model(self) -> Vector2i {
        self
    }

    open spec fn designated_tag() -> VariantType {
        VariantType::Vector2i
    }

    open spec fn is_strict() -> bool {
        true
    }

    open spec fn encode_of(m: Vector2i) -> VariantValue {
        VariantValue::Vector2i(m)
    }

    open spec fn decode_spec(v: VariantValue) -> Option<Vector2i> {
        match v {
            VariantValue::Vector2i(x) => Some(x),
            _ => None,
        }
    }

    proof fn lemma_round_trip(m: Vector2i) {
    }

    proof fn lemma_re_encode(v: VariantValue) {
    }

    proof fn lemma_encode_tag(m: Vector2i) {
    }

    proof fn lemma_strict_decode(v: VariantValue) {
    }

    fn ffi_to_variant(&self) -> (out: Variant) {
        Variant::Vector2i(*self)
    }

    fn ffi_from_variant(variant: &Variant) -> (r: Result<Vector2i, ConvertError>) {
        match variant {
            Variant::Vector2i(x) => Ok(*x),
            _ => Err(FromVariantError::BadType {
                expected: VariantType::Vector2i,
                actual: variant.get_type(),
            }.into_error(variant.clone_variant())),
        }
    }
}

impl GodotType for Vector2i {
    open spec fn passing_convention() -> PassingConvention {
        PassingConvention::ByValue
    }

    open spec fn godot_name() -> Seq<char> {
        "Vector2i"@
    }

    open spec fn usage_flags() -> u64 {
        PROPERTY_USAGE_DEFAULT
    }

    fn variant_type() -> VariantType {
        VariantType::Vector2i
    }

    fn convention() -> PassingConvention {
        PassingConvention::ByValue
    }

    fn property_usage() -> u64 {
        PROPERTY_USAGE_DEFAULT
    }

    fn godot_type_name() -> &'static str {
        "Vector2i"
    }

    fn to_ffi<'a>(&'a self) -> FfiRepr<'a, Vector2i> {
        FfiRepr::Owned(*self)
    }
}

impl GodotFfiVariant for Vector3 {
    type Model = Vector3;

    open spec fn model(self) -> Vector3 {
        self
    }

    open spec fn designated_tag() -> VariantType {
        VariantType::Vector3
    }

    open spec fn is_strict() -> bool {
        true
    }

    open spec fn encode_of(m: Vector3) -> VariantValue {
        VariantValue::Vector3(m)
    }

    open spec fn decode_spec(v: VariantValue) -> Option<Vector3> {
        match v {
            VariantValue::Vector3(x) => Some(x),
            _ => None,
        }
    }

    proof fn lemma_round_trip(m: Vector3) {
    }

    proof fn lemma_re_encode(v: VariantValue) {
    }

    proof fn lemma_encode_tag(m: Vector3) {
    }

    proof fn lemma_strict_decode(v: VariantValue) {
    }

    fn ffi_to_variant(&self) -> (out: Variant) {
        Variant::Vector3(*self)
    }

    fn ffi_from_variant(variant: &Variant) -> (r: Result<Vector3, ConvertError>) {
        match variant {
            Variant::Vector3(x) => Ok(*x),
            _ => Err(FromVariantError::BadType {
                expected: VariantType::Vector3,
                actual: variant.get_type(),
            }.into_error(variant.clone_variant())),
        }
    }
}

impl GodotType for Vector3 {
    open spec fn passing_convention() -> PassingConvention {
        PassingConvention::ByValue
    }

    open spec fn godot_name() -> Seq<char> {
        "Vector3"@
    }

    open spec fn usage_flags() -> u64 {
        PROPERTY_USAGE_DEFAULT
    }

    fn variant_type() -> VariantType {
        VariantType::Vector3
    }

    fn convention() -> PassingConvention {
        PassingConvention::ByValue
    }

    fn property_usage() -> u64 {
        PROPERTY_USAGE_DEFAULT
    }

    fn godot_type_name() -> &'static str {
        "Vector3"
    }

    fn to_ffi<'a>(&'a self) -> FfiRepr<'a, Vector3> {
        FfiRepr::Owned(*self)
    }
}

impl GodotFfiVariant for Vector3i {
    type Model = Vector3i;

    open spec fn model(self) -> Vector3i {
        self
    }

    open spec fn designated_tag() -> VariantType {
        VariantType::Vector3i
    }

    open spec fn is_strict() -> bool {
        true
    }

    open spec fn encode_of(m: Vector3i) -> VariantValue {
        VariantValue::Vector3i(m)
    }

    open spec fn decode_spec(v: VariantValue) -> Option<Vector3i> {
        match v {
            VariantValue::Vector3i(x) => Some(x),
            _ => None,
        }
    }

    proof fn lemma_round_trip(m: Vector3i) {
    }

    proof fn lemma_re_encode(v: VariantValue) {
    }

    proof fn lemma_encode_tag(m: Vector3i) {
    }

    proof fn lemma_strict_decode(v: VariantValue) {
    }

    fn ffi_to_variant(&self) -> (out: Variant) {
        Variant::Vector3i(*self)
    }

    fn ffi_from_variant(variant: &Variant) -> (r: Result<Vector3i, ConvertError>) {
        match variant {
            Variant::Vector3i(x) => Ok(*x),
            _ => Err(FromVariantError::BadType {
                expected: VariantType::Vector3i,
                actual: variant.get_type(),
            }.into_error(variant.clone_variant())),
        }
    }
}

impl GodotType for Vector3i {
    open spec fn passing_convention() -> PassingConvention {
        PassingConvention::ByValue
    }

    open spec fn godot_name() -> Seq<char> {
        "Vector3i"@
    }

    open spec fn usage_flags() -> u64 {
        PROPERTY_USAGE_DEFAULT
    }

    fn variant_type() -> VariantType {
        VariantType::Vector3i
    }

    fn convention() -> PassingConvention {
        PassingConvention::ByValue
    }

    fn property_usage() -> u64 {
        PROPERTY_USAGE_DEFAULT
    }

    fn godot_type_name() -> &'static str {
        "Vector3i"
    }

    fn to_ffi<'a>(&'a self) -> FfiRepr<'a, Vector3i> {
        FfiRepr::Owned(*self)
    }
}

impl GodotFfiVariant for Vector4 {
    type Model = Vector4;

    open spec fn model(self) -> Vector4 {
        self
    }

    open spec fn designated_tag() -> VariantType {
        VariantType::Vector4
    }

    open spec fn is_strict() -> bool {
        true
    }

    open spec fn encode_of(m: Vector4) -> VariantValue {
        VariantValue::Vector4(m)
    }

    open spec fn decode_spec(v: VariantValue) -> Option<Vector4> {
        match v {
            VariantValue::Vector4(x) => Some(x),
            _ => None,
        }
    }

    proof fn lemma_round_trip(m: Vector4) {
    }

    proof fn lemma_re_encode(v: VariantValue) {
    }

    proof fn lemma_encode_tag(m: Vector4) {
    }

    proof fn lemma_strict_decode(v: VariantValue) {
    }

    fn ffi_to_variant(&self) -> (out: Variant) {
        Variant::Vector4(*self)
    }

    fn ffi_from_variant(variant: &Variant) -> (r: Result<Vector4, ConvertError>) {
        match variant {
            Variant::Vector4(x) => Ok(*x),
            _ => Err(FromVariantError::BadType {
                expected: VariantType::Vector4,
                actual: variant.get_type(),
            }.into_error(variant.clone_variant())),
        }
    }
}

impl GodotType for Vector4 {
    open spec fn passing_convention() -> PassingConvention {
        PassingConvention::ByValue
    }

    open spec fn godot_name() -> Seq<char> {
        "Vector4"@
    }

    open spec fn usage_flags() -> u64 {
        PROPERTY_USAGE_DEFAULT
    }

    fn variant_type() -> VariantType {
        VariantType::Vector4
    }

    fn convention() -> PassingConvention {
        PassingConvention::ByValue
    }

    fn property_usage() -> u64 {
        PROPERTY_USAGE_DEFAULT
    }

    fn godot_type_name() -> &'static str {
        "Vector4"
    }

    fn to_ffi<'a>(&'a self) -> FfiRepr<'a, Vector4> {
        FfiRepr::Owned(*self)
    }
}

impl GodotFfiVariant for Vector4i {
    type Model = Vector4i;

    open spec fn model(self) -> Vector4i {
        self
    }

    open spec fn designated_tag() -> VariantType {
        VariantType::Vector4i
    }

    open spec fn is_strict() -> bool {
        true
    }

    open spec fn encode_of(m: Vector4i) -> VariantValue {
        VariantValue::Vector4i(m)
    }

    open spec fn decode_spec(v: VariantValue) -> Option<Vector4i> {
        match v {
            VariantValue::Vector4i(x) => Some(x),
            _ => None,
        }
    }

    proof fn lemma_round_trip(m: Vector4i) {
    }

    proof fn lemma_re_encode(v: VariantValue) {
    }

    proof fn lemma_encode_tag(m: Vector4i) {
    }

    proof fn lemma_strict_decode(v: VariantValue) {
    }

    fn ffi_to_variant(&self) -> (out: Variant) {
        Variant::Vector4i(*self)
    }

    fn ffi_from_variant(variant: &Variant) -> (r: Result<Vector4i, ConvertError>) {
        match variant {
            Variant::Vector4i(x) => Ok(*x),
            _ => Err(FromVariantError::BadType {
                expected: VariantType::Vector4i,
                actual: variant.get_type(),
            }.into_error(variant.clone_variant())),
        }
    }
}

impl GodotType for Vector4i {
    open spec fn passing_convention() -> PassingConvention {
        PassingConvention::ByValue
    }

    open spec fn godot_name() -> Seq<char> {
        "Vector4i"@
    }

    open spec fn usage_flags() -> u64 {
        PROPERTY_USAGE_DEFAULT
    }

    fn variant_type() -> VariantType {
        VariantType::Vector4i
    }

    fn convention() -> PassingConvention {
        PassingConvention::ByValue
    }

    fn property_usage() -> u64 {
        PROPERTY_USAGE_DEFAULT
    }

    fn godot_type_name() -> &'static str {
        "Vector4i"
    }

    fn to_ffi<'a>(&'a self) -> FfiRepr<'a, Vector4i> {
        FfiRepr::Owned(*self)
    }
}

impl GodotFfiVariant for Quaternion {
    type Model = Quaternion;

    open spec fn model(self) -> Quaternion {
        self
    }

    open spec fn designated_tag() -> VariantType {
        VariantType::Quaternion
    }

    open spec fn is_strict() -> bool {
        true
    }

    open spec fn encode_of(m: Quaternion) -> VariantValue {
        VariantValue::Quaternion(m)
    }

    open spec fn decode_spec(v: VariantValue) -> Option<Quaternion> {
        match v {
            VariantValue::Quaternion(x) => Some(x),
            _ => None,
        }
    }

    proof fn lemma_round_trip(m: Quaternion) {
    }

    proof fn lemma_re_encode(v: VariantValue) {
    }

    proof fn lemma_encode_tag(m: Quaternion) {
    }

    proof fn lemma_strict_decode(v: VariantValue) {
    }

    fn ffi_to_variant(&self) -> (out: Variant) {
        Variant::Quaternion(*self)
    }

    fn ffi_from_variant(variant: &Variant) -> (r: Result<Quaternion, ConvertError>) {
        match variant {
            Variant::Quaternion(x) => Ok(*x),
            _ => Err(FromVariantError::BadType {
                expected: VariantType::Quaternion,
                actual: variant.get_type(),
            }.into_error(variant.clone_variant())),
        }
    }
}

impl GodotType for Quaternion {
    open spec fn passing_convention() -> PassingConvention {
        PassingConvention::ByValue
    }

    open spec fn godot_name() -> Seq<char> {
        "Quaternion"@
    }

    open spec fn usage_flags() -> u64 {
        PROPERTY_USAGE_DEFAULT
    }

    fn variant_type() -> VariantType {
        VariantType::Quaternion
    }

    fn convention() -> PassingConvention {
        PassingConvention::ByValue
    }

    fn property_usage() -> u64 {
        PROPERTY_USAGE_DEFAULT
    }

    fn godot_type_name() -> &'static str {
        "Quaternion"
    }

    fn to_ffi<'a>(&'a self) -> FfiRepr<'a, Quaternion> {
        FfiRepr::Owned(*self)
    }
}

impl GodotFfiVariant for Color {
    type Model = Color;

    open spec fn model(self) -> Color {
        self
    }

    open spec fn designated_tag() -> VariantType {
        VariantType::Color
    }

    open spec fn is_strict() -> bool {
        true
    }

    open spec fn encode_of(m: Color) -> VariantValue {
        VariantValue::Color(m)
    }

    open spec fn decode_spec(v: VariantValue) -> Option<Color> {
        match v {
            VariantValue::Color(x) => Some(x),
            _ => None,
        }
    }

    proof fn lemma_round_trip(m: Color) {
    }

    proof fn lemma_re_encode(v: VariantValue) {
    }

    proof fn lemma_encode_tag(m: Color) {
    }

    proof fn lemma_strict_decode(v: VariantValue) {
    }

    fn ffi_to_variant(&self) -> (out: Variant) {
        Variant::Color(*self)
    }

    fn ffi_from_variant(variant: &Variant) -> (r: Result<Color, ConvertError>) {
        match variant {
            Variant::Color(x) => Ok(*x),
            _ => Err(FromVariantError::BadType {
                expected: VariantType::Color,
                actual: variant.get_type(),
            }.into_error(variant.clone_variant())),
        }
    }
}

impl GodotType for Color {
    open spec fn passing_convention() -> PassingConvention {
        PassingConvention::ByValue
    }

    open spec fn godot_name() -> Seq<char> {
        "Color"@
    }

    open spec fn usage_flags() -> u64 {
        PROPERTY_USAGE_DEFAULT
    }

    fn variant_type() -> VariantType {
        VariantType::Color
    }

    fn convention() -> PassingConvention {
        PassingConvention::ByValue
    }

    fn property_usage() -> u64 {
        PROPERTY_USAGE_DEFAULT
    }

    fn godot_type_name() -> &'static str {
        "Color"
    }

    fn to_ffi<'a>(&'a self) -> FfiRepr<'a, Color> {
        FfiRepr::Owned(*self)
    }
}

impl GodotFfiVariant for Rect2 {
    type Model = Rect2;

    open spec fn model(self) -> Rect2 {
        self
    }

    open spec fn designated_tag() -> VariantType {
        VariantType::Rect2
    }

    open spec fn is_strict() -> bool {
        true
    }

    open spec fn encode_of(m: Rect2) -> VariantValue {
        VariantValue::Rect2(m)
    }

    open spec fn decode_spec(v: VariantValue) -> Option<Rect2> {
        match v {
            VariantValue::Rect2(x) => Some(x),
            _ => None,
        }
    }

    proof fn lemma_round_trip(m: Rect2) {
    }

    proof fn lemma_re_encode(v: VariantValue) {
    }

    proof fn lemma_encode_tag(m: Rect2) {
    }

    proof fn lemma_strict_decode(v: VariantValue) {
    }

    fn ffi_to_variant(&self) -> (out: Variant) {
        Variant::Rect2(*self)
    }

    fn ffi_from_variant(variant: &Variant) -> (r: Result<Rect2, ConvertError>) {
        match variant {
            Variant::Rect2(x) => Ok(*x),
            _ => Err(FromVariantError::BadType {
                expected: VariantType::Rect2,
                actual: variant.get_type(),
            }.into_error(variant.clone_variant())),
        }
    }
}

impl GodotType for Rect2 {
    open spec fn passing_convention() -> PassingConvention {
        PassingConvention::ByValue
    }

    open spec fn godot_name() -> Seq<char> {
        "Rect2"@
    }

    open spec fn usage_flags() -> u64 {
        PROPERTY_USAGE_DEFAULT
    }

    fn variant_type() -> VariantType {
        VariantType::Rect2
    }

    fn convention() -> PassingConvention {
        PassingConvention::ByValue
    }

    fn property_usage() -> u64 {
        PROPERTY_USAGE_DEFAULT
    }

    fn godot_type_name() -> &'static str {
        "Rect2"
    }

    fn to_ffi<'a>(&'a self) -> FfiRepr<'a, Rect2> {
        FfiRepr::Owned(*self)
    }
}

impl GodotFfiVariant for Rect2i {
    type Model = Rect2i;

    open spec fn model(self) -> Rect2i {
        self
    }

    open spec fn designated_tag() -> VariantType {
        VariantType::Rect2i
    }

    open spec fn is_strict() -> bool {
        true
    }

    open spec fn encode_of(m: Rect2i) -> VariantValue {
        VariantValue::Rect2i(m)
    }

    open spec fn decode_spec(v: VariantValue) -> Option<Rect2i> {
        match v {
            VariantValue::Rect2i(x) => Some(x),
            _ => None,
        }
    }

    proof fn lemma_round_trip(m: Rect2i) {
    }

    proof fn lemma_re_encode(v: VariantValue) {
    }

    proof fn lemma_encode_tag(m: Rect2i) {
    }

    proof fn lemma_strict_decode(v: VariantValue) {
    }

    fn ffi_to_variant(&self) -> (out: Variant) {
        Variant::Rect2i(*self)
    }

    fn ffi_from_variant(variant: &Variant) -> (r: Result<Rect2i, ConvertError>) {
        match variant {
            Variant::Rect2i(x) => Ok(*x),
            _ => Err(FromVariantError::BadType {
                expected: VariantType::Rect2i,
                actual: variant.get_type(),
            }.into_error(variant.clone_variant())),
        }
    }
}

impl GodotType for Rect2i {
    open spec fn passing_convention() -> PassingConvention {
        PassingConvention::ByValue
    }

    open spec fn godot_name() -> Seq<char> {
        "Rect2i"@
    }

    open spec fn usage_flags() -> u64 {
        PROPERTY_USAGE_DEFAULT
    }

    fn variant_type() -> VariantType {
        VariantType::Rect2i
    }

    fn convention() -> PassingConvention {
        PassingConvention::ByValue
    }

    fn property_usage() -> u64 {
        PROPERTY_USAGE_DEFAULT
    }

    fn godot_type_name() -> &'static str {
        "Rect2i"
    }

    fn to_ffi<'a>(&'a self) -> FfiRepr<'a, Rect2i> {
        FfiRepr::Owned(*self)
    }
}

impl GodotFfiVariant for Plane {
    type Model = Plane;

    open spec fn model(self) -> Plane {
        self
    }

    open spec fn designated_tag() -> VariantType {
        VariantType::Plane
    }

    open spec fn is_strict() -> bool {
        true
    }

    open spec fn encode_of(m: Plane) -> VariantValue {
        VariantValue::Plane(m)
    }

    open spec fn decode_spec(v: VariantValue) -> Option<Plane> {
        match v {
            VariantValue::Plane(x) => Some(x),
            _ => None,
        }
    }

    proof fn lemma_round_trip(m: Plane) {
    }

    proof fn lemma_re_encode(v: VariantValue) {
    }

    proof fn lemma_encode_tag(m: Plane) {
    }

    proof fn lemma_strict_decode(v: VariantValue) {
    }

    fn ffi_to_variant(&self) -> (out: Variant) {
        Variant::Plane(*self)
    }

    fn ffi_from_variant(variant: &Variant) -> (r: Result<Plane, ConvertError>) {
        match variant {
            Variant::Plane(x) => Ok(*x),
            _ => Err(FromVariantError::BadType {
                expected: VariantType::Plane,
                actual: variant.get_type(),
            }.into_error(variant.clone_variant())),
        }
    }
}

impl GodotType for Plane {
    open spec fn passing_convention() -> PassingConvention {
        PassingConvention::ByValue
    }

    open spec fn godot_name() -> Seq<char> {
        "Plane"@
    }

    open spec fn usage_flags() -> u64 {
        PROPERTY_USAGE_DEFAULT
    }

    fn variant_type() -> VariantType {
        VariantType::Plane
    }

    fn convention() -> PassingConvention {
        PassingConvention::ByValue
    }

    fn property_usage() -> u64 {
        PROPERTY_USAGE_DEFAULT
    }

    fn godot_type_name() -> &'static str {
        "Plane"
    }

    fn to_ffi<'a>(&'a self) -> FfiRepr<'a, Plane> {
        FfiRepr::Owned(*self)
    }
}

impl GodotFfiVariant for Aabb {
    type Model = Aabb;

    open spec fn model(self) -> Aabb {
        self
    }

    open spec fn designated_tag() -> VariantType {
        VariantType::Aabb
    }

    open spec fn is_strict() -> bool {
        true
    }

    open spec fn encode_of(m: Aabb) -> VariantValue {
        VariantValue::Aabb(m)
    }

    open spec fn decode_spec(v: VariantValue) -> Option<Aabb> {
        match v {
            VariantValue::Aabb(x) => Some(x),
            _ => None,
        }
    }

    proof fn lemma_round_trip(m: Aabb) {
    }

    proof fn lemma_re_encode(v: VariantValue) {
    }

    proof fn lemma_encode_tag(m: Aabb) {
    }

    proof fn lemma_strict_decode(v: VariantValue) {
    }

    fn ffi_to_variant(&self) -> (out: Variant) {
        Variant::Aabb(*self)
    }

    fn ffi_from_variant(variant: &Variant) -> (r: Result<Aabb, ConvertError>) {
        match variant {
            Variant::Aabb(x) => Ok(*x),
            _ => Err(FromVariantError::BadType {
                expected: VariantType::Aabb,
                actual: variant.get_type(),
            }.into_error(variant.clone_variant())),
        }
    }
}

impl GodotType for Aabb {
    open spec fn passing_convention() -> PassingConvention {
        PassingConvention::ByValue
    }

    open spec fn godot_name() -> Seq<char> {
        "AABB"@
    }

    open spec fn usage_flags() -> u64 {
        PROPERTY_USAGE_DEFAULT
    }

    fn variant_type() -> VariantType {
        VariantType::Aabb
    }

    fn convention() -> PassingConvention {
        PassingConvention::ByValue
    }

    fn property_usage() -> u64 {
        PROPERTY_USAGE_DEFAULT
    }

    fn godot_type_name() -> &'static str {
        "AABB"
    }

    fn to_ffi<'a>(&'a self) -> FfiRepr<'a, Aabb> {
        FfiRepr::Owned(*self)
    }
}

impl GodotFfiVariant for Basis {
    type Model = Basis;

    open spec fn model(self) -> Basis {
        self
    }

    open spec fn designated_tag() -> VariantType {
        VariantType::Basis
    }

    open spec fn is_strict() -> bool {
        true
    }

    open spec fn encode_of(m: Basis) -> VariantValue {
        VariantValue::Basis(m)
    }

    open spec fn decode_spec(v: VariantValue) -> Option<Basis> {
        match v {
            VariantValue::Basis(x) => Some(x),
            _ => None,
        }
    }

    proof fn lemma_round_trip(m: Basis) {
    }

    proof fn lemma_re_encode(v: VariantValue) {
    }

    proof fn lemma_encode_tag(m: Basis) {
    }

    proof fn lemma_strict_decode(v: VariantValue) {
    }

    fn ffi_to_variant(&self) -> (out: Variant) {
        Variant::Basis(*self)
    }

    fn ffi_from_variant(variant: &Variant) -> (r: Result<Basis, ConvertError>) {
        match variant {
            Variant::Basis(x) => Ok(*x),
            _ => Err(FromVariantError::BadType {
                expected: VariantType::Basis,
                actual: variant.get_type(),
            }.into_error(variant.clone_variant())),
        }
    }
}

impl GodotType for Basis {
    open spec fn passing_convention() -> PassingConvention {
        PassingConvention::ByValue
    }

    open spec fn godot_name() -> Seq<char> {
        "Basis"@
    }

    open spec fn usage_flags() -> u64 {
        PROPERTY_USAGE_DEFAULT
    }

    fn variant_type() -> VariantType {
        VariantType::Basis
    }

    fn convention() -> PassingConvention {
        PassingConvention::ByValue
    }

    fn property_usage() -> u64 {
        PROPERTY_USAGE_DEFAULT
    }

    fn godot_type_name() -> &'static str {
        "Basis"
    }

    fn to_ffi<'a>(&'a self) -> FfiRepr<'a, Basis> {
        FfiRepr::Owned(*self)
    }
}

impl GodotFfiVariant for Transform2D {
    type Model = Transform2D;

    open spec fn model(self) -> Transform2D {
        self
    }

    open spec fn designated_tag() -> VariantType {
        VariantType::Transform2D
    }

    open spec fn is_strict() -> bool {
        true
    }

    open spec fn encode_of(m: Transform2D) -> VariantValue {
        VariantValue::Transform2D(m)
    }

    open spec fn decode_spec(v: VariantValue) -> Option<Transform2D> {
        match v {
            VariantValue::Transform2D(x) => Some(x),
            _ => None,
        }
    }

    proof fn lemma_round_trip(m: Transform2D) {
    }

    proof fn lemma_re_encode(v: VariantValue) {
    }

    proof fn lemma_encode_tag(m: Transform2D) {
    }

    proof fn lemma_strict_decode(v: VariantValue) {
    }

    fn ffi_to_variant(&self) -> (out: Variant) {
        Variant::Transform2D(*self)
    }

    fn ffi_from_variant(variant: &Variant) -> (r: Result<Transform2D, ConvertError>) {
        match variant {
            Variant::Transform2D(x) => Ok(*x),
            _ => Err(FromVariantError::BadType {
                expected: VariantType::Transform2D,
                actual: variant.get_type(),
            }.into_error(variant.clone_variant())),
        }
    }
}

impl GodotType for Transform2D {
    open spec fn passing_convention() -> PassingConvention {
        PassingConvention::ByValue
    }

    open spec fn godot_name() -> Seq<char> {
        "Transform2D"@
    }

    open spec fn usage_flags() -> u64 {
        PROPERTY_USAGE_DEFAULT
    }

    fn variant_type() -> VariantType {
        VariantType::Transform2D
    }

    fn convention() -> PassingConvention {
        PassingConvention::ByValue
    }

    fn property_usage() -> u64 {
        PROPERTY_USAGE_DEFAULT
    }

    fn godot_type_name() -> &'static str {
        "Transform2D"
    }

    fn to_ffi<'a>(&'a self) -> FfiRepr<'a, Transform2D> {
        FfiRepr::Owned(*self)
    }
}

impl GodotFfiVariant for Transform3D {
    type Model = Transform3D;

    open spec fn model(self) -> Transform3D {
        self
    }

    open spec fn designated_tag() -> VariantType {
        VariantType::Transform3D
    }

    open spec fn is_strict() -> bool {
        true
    }

    open spec fn encode_of(m: Transform3D) -> VariantValue {
        VariantValue::Transform3D(m)
    }

    open spec fn decode_spec(v: VariantValue) -> Option<Transform3D> {
        match v {
            VariantValue::Transform3D(x) => Some(x),
            _ => None,
        }
    }

    proof fn lemma_round_trip(m: Transform3D) {
    }

    proof fn lemma_re_encode(v: VariantValue) {
    }

    proof fn lemma_encode_tag(m: Transform3D) {
    }

    proof fn lemma_strict_decode(v: VariantValue) {
    }

    fn ffi_to_variant(&self) -> (out: Variant) {
        Variant::Transform3D(*self)
    }

    fn ffi_from_variant(variant: &Variant) -> (r: Result<Transform3D, ConvertError>) {
        match variant {
            Variant::Transform3D(x) => Ok(*x),
            _ => Err(FromVariantError::BadType {
                expected: VariantType::Transform3D,
                actual: variant.get_type(),
            }.into_error(variant.clone_variant())),
        }
    }
}

impl GodotType for Transform3D {
    open spec fn passing_convention() -> PassingConvention {
        PassingConvention::ByValue
    }

    open spec fn godot_name() -> Seq<char> {
        "Transform3D"@
    }

    open spec fn usage_flags() -> u64 {
        PROPERTY_USAGE_DEFAULT
    }

    fn variant_type() -> VariantType {
        VariantType::Transform3D
    }

    fn convention() -> PassingConvention {
        PassingConvention::ByValue
    }

    fn property_usage() -> u64 {
        PROPERTY_USAGE_DEFAULT
    }

    fn godot_type_name() -> &'static str {
        "Transform3D"
    }

    fn to_ffi<'a>(&'a self) -> FfiRepr<'a, Transform3D> {
        FfiRepr::Owned(*self)
    }
}

impl GodotFfiVariant for Projection {
    type Model = Projection;

    open spec fn model(self) -> Projection {
        self
    }

    open spec fn designated_tag() -> VariantType {
        VariantType::Projection
    }

    open spec fn is_strict() -> bool {
        true
    }

    open spec fn encode_of(m: Projection) -> VariantValue {
        VariantValue::Projection(m)
    }

    open spec fn decode_spec(v: VariantValue) -> Option<Projection> {
        match v {
            VariantValue::Projection(x) => Some(x),
            _ => None,
        }
    }

    proof fn lemma_round_trip(m: Projection) {
    }

    proof fn lemma_re_encode(v: VariantValue) {
    }

    proof fn lemma_encode_tag(m: Projection) {
    }

    proof fn lemma_strict_decode(v: VariantValue) {
    }

    fn ffi_to_variant(&self) -> (out: Variant) {
        Variant::Projection(*self)
    }

    fn ffi_from_variant(variant: &Variant) -> (r: Result<Projection, ConvertError>) {
        match variant {
            Variant::Projection(x) => Ok(*x),
            _ => Err(FromVariantError::BadType {
                expected: VariantType::Projection,
                actual: variant.get_type(),
            }.into_error(variant.clone_variant())),
        }
    }
}

impl GodotType for Projection {
    open spec fn passing_convention() -> PassingConvention {
        PassingConvention::ByValue
    }

    open spec fn godot_name() -> Seq<char> {
        "Projection"@
    }

    open spec fn usage_flags() -> u64 {
        PROPERTY_USAGE_DEFAULT
    }

    fn variant_type() -> VariantType {
        VariantType::Projection
    }

    fn convention() -> PassingConvention {
        PassingConvention::ByValue
    }

    fn property_usage() -> u64 {
        PROPERTY_USAGE_DEFAULT
    }

    fn godot_type_name() -> &'static str {
        "Projection"
    }

    fn to_ffi<'a>(&'a self) -> FfiRepr<'a, Projection> {
        FfiRepr::Owned(*self)
    }
}

impl GodotFfiVariant for Rid {
    type Model = Rid;

    open spec fn model(self) -> Rid {
        self
    }

    open spec fn designated_tag() -> VariantType {
        VariantType::Rid
    }

    open spec fn is_strict() -> bool {
        true
    }

    open spec fn encode_of(m: Rid) -> VariantValue {
        VariantValue::Rid(m)
    }

    open spec fn decode_spec(v: VariantValue) -> Option<Rid> {
        match v {
            VariantValue::Rid(x) => Some(x),
            _ => None,
        }
    }

    proof fn lemma_round_trip(m: Rid) {
    }

    proof fn lemma_re_encode(v: VariantValue) {
    }

    proof fn lemma_encode_tag(m: Rid) {
    }

    proof fn lemma_strict_decode(v: VariantValue) {
    }

    fn ffi_to_variant(&self) -> (out: Variant) {
        Variant::Rid(*self)
    }

    fn ffi_from_variant(variant: &Variant) -> (r: Result<Rid, ConvertError>) {
        match variant {
            Variant::Rid(x) => Ok(*x),
            _ => Err(FromVariantError::BadType {
                expected: VariantType::Rid,
                actual: variant.get_type(),
            }.into_error(variant.clone_variant())),
        }
    }
}

impl GodotType for Rid {
    open spec fn passing_convention() -> PassingConvention {
        PassingConvention::ByValue
    }

    open spec fn godot_name() -> Seq<char> {
        "RID"@
    }

    open spec fn usage_flags() -> u64 {
        PROPERTY_USAGE_DEFAULT
    }

    fn variant_type() -> VariantType {
        VariantType::Rid
    }

    fn convention() -> PassingConvention {
        PassingConvention::ByValue
    }

    fn property_usage() -> u64 {
        PROPERTY_USAGE_DEFAULT
    }

    fn godot_type_name() -> &'static str {
        "RID"
    }

    fn to_ffi<'a>(&'a self) -> FfiRepr<'a, Rid> {
        FfiRepr::Owned(*self)
    }
}

} // verus!
