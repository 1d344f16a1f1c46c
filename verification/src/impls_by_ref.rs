//! Conversions for the heap-backed builtin types, all passed by reference:
//! the FFI representation is a transient borrow of the value, valid only for
//! the duration of the enclosing call. Encoding and decoding deep-copy the
//! payload, so the container and the typed value never share storage.

use vstd::prelude::*;
use crate::builtin::{
    Callable, Color, Dictionary, GString, NodePath, PackedByteArray, PackedColorArray,
    PackedFloat32Array, PackedFloat64Array, PackedInt32Array, PackedInt64Array, PackedStringArray,
    PackedVector2Array, PackedVector3Array, Signal, StringName, Vector2, Vector3,
};
use crate::convert_error::{ConvertError, FromVariantError};
use crate::meta::{FfiRepr, GodotFfiVariant, GodotType, PassingConvention};
use crate::property::PROPERTY_USAGE_DEFAULT;
use crate::variant::{Variant, VariantValue, clone_gstring_vec, clone_scalar_vec};
use crate::variant_type::VariantType;

verus! {

impl GodotFfiVariant for GString {
    type Model = Seq<char>;

    open spec fn model(self) -> Seq<char> {
        self@
    }

    open spec fn designated_tag() -> VariantType {
        VariantType::GString
    }

    open spec fn is_strict() -> bool {
        true
    }

    open spec fn encode_of(m: Seq<char>) -> VariantValue {
        VariantValue::GString(m)
    }

    open spec fn decode_spec(v: VariantValue) -> Option<Seq<char>> {
        match v {
            VariantValue::GString(x) => Some(x),
            _ => None,
        }
    }

    proof fn lemma_round_trip(m: Seq<char>) {
    }

    proof fn lemma_re_encode(v: VariantValue) {
    }

    proof fn lemma_encode_tag(m: Seq<char>) {
    }

    proof fn lemma_strict_decode(v: VariantValue) {
    }

    fn ffi_to_variant(&self) -> (out: Variant) {
        Variant::GString(GString { value: self.value.clone() })
    }

    fn ffi_from_variant(variant: &Variant) -> (r: Result<GString, ConvertError>) {
        match variant {
            Variant::GString(s) => Ok(GString { value: s.value.clone() }),
            _ => Err(FromVariantError::BadType {
                expected: VariantType::GString,
                actual: variant.get_type(),
            }.into_error(variant.clone_variant())),
        }
    }
}

impl GodotType for GString {
    open spec fn passing_convention() -> PassingConvention {
        PassingConvention::ByReference
    }

    open spec fn godot_name() -> Seq<char> {
        "String"@
    }

    open spec fn usage_flags() -> u64 {
        PROPERTY_USAGE_DEFAULT
    }

    fn variant_type() -> VariantType {
        VariantType::GString
    }

    fn convention() -> PassingConvention {
        PassingConvention::ByReference
    }

    fn property_usage() -> u64 {
        PROPERTY_USAGE_DEFAULT
    }

    fn godot_type_name() -> &'static str {
        "String"
    }

    fn to_ffi<'a>(&'a self) -> FfiRepr<'a, GString> {
        FfiRepr::Borrowed(self)
    }
}

impl GodotFfiVariant for StringName {
    type Model = Seq<char>;

    open spec fn model(self) -> Seq<char> {
        self@
    }

    open spec fn designated_tag() -> VariantType {
        VariantType::StringName
    }

    open spec fn is_strict() -> bool {
        true
    }

    open spec fn encode_of(m: Seq<char>) -> VariantValue {
        VariantValue::StringName(m)
    }

    open spec fn decode_spec(v: VariantValue) -> Option<Seq<char>> {
        match v {
            VariantValue::StringName(x) => Some(x),
            _ => None,
        }
    }

    proof fn lemma_round_trip(m: Seq<char>) {
    }

    proof fn lemma_re_encode(v: VariantValue) {
    }

    proof fn lemma_encode_tag(m: Seq<char>) {
    }

    proof fn lemma_strict_decode(v: VariantValue) {
    }

    fn ffi_to_variant(&self) -> (out: Variant) {
        Variant::StringName(StringName { value: self.value.clone() })
    }

    fn ffi_from_variant(variant: &Variant) -> (r: Result<StringName, ConvertError>) {
        match variant {
            Variant::StringName(s) => Ok(StringName { value: s.value.clone() }),
            _ => Err(FromVariantError::BadType {
                expected: VariantType::StringName,
                actual: variant.get_type(),
            }.into_error(variant.clone_variant())),
        }
    }
}

impl GodotType for StringName {
    open spec fn passing_convention() -> PassingConvention {
        PassingConvention::ByReference
    }

    open spec fn godot_name() -> Seq<char> {
        "StringName"@
    }

    open spec fn usage_flags() -> u64 {
        PROPERTY_USAGE_DEFAULT
    }

    fn variant_type() -> VariantType {
        VariantType::StringName
    }

    fn convention() -> PassingConvention {
        PassingConvention::ByReference
    }

    fn property_usage() -> u64 {
        PROPERTY_USAGE_DEFAULT
    }

    fn godot_type_name() -> &'static str {
        "StringName"
    }

    fn to_ffi<'a>(&'a self) -> FfiRepr<'a, StringName> {
        FfiRepr::Borrowed(self)
    }
}

impl GodotFfiVariant for NodePath {
    type Model = Seq<char>;

    open spec fn model(self) -> Seq<char> {
        self@
    }

    open spec fn designated_tag() -> VariantType {
        VariantType::NodePath
    }

    open spec fn is_strict() -> bool {
        true
    }

    open spec fn encode_of(m: Seq<char>) -> VariantValue {
        VariantValue::NodePath(m)
    }

    open spec fn decode_spec(v: VariantValue) -> Option<Seq<char>> {
        match v {
            VariantValue::NodePath(x) => Some(x),
            _ => None,
        }
    }

    proof fn lemma_round_trip(m: Seq<char>) {
    }

    proof fn lemma_re_encode(v: VariantValue) {
    }

    proof fn lemma_encode_tag(m: Seq<char>) {
    }

    proof fn lemma_strict_decode(v: VariantValue) {
    }

    fn ffi_to_variant(&self) -> (out: Variant) {
        Variant::NodePath(NodePath { value: self.value.clone() })
    }

    fn ffi_from_variant(variant: &Variant) -> (r: Result<NodePath, ConvertError>) {
        match variant {
            Variant::NodePath(s) => Ok(NodePath { value: s.value.clone() }),
            _ => Err(FromVariantError::BadType {
                expected: VariantType::NodePath,
                actual: variant.get_type(),
            }.into_error(variant.clone_variant())),
        }
    }
}

impl GodotType for NodePath {
    open spec fn passing_convention() -> PassingConvention {
        PassingConvention::ByReference
    }

    open spec fn godot_name() -> Seq<char> {
        "NodePath"@
    }

    open spec fn usage_flags() -> u64 {
        PROPERTY_USAGE_DEFAULT
    }

    fn variant_type() -> VariantType {
        VariantType::NodePath
    }

    fn convention() -> PassingConvention {
        PassingConvention::ByReference
    }

    fn property_usage() -> u64 {
        PROPERTY_USAGE_DEFAULT
    }

    fn godot_type_name() -> &'static str {
        "NodePath"
    }

    fn to_ffi<'a>(&'a self) -> FfiRepr<'a, NodePath> {
        FfiRepr::Borrowed(self)
    }
}

impl GodotFfiVariant for Dictionary {
    type Model = Seq<(VariantValue, VariantValue)>;

    open spec fn model(self) -> Seq<(VariantValue, VariantValue)> {
        self@
    }

    open spec fn designated_tag() -> VariantType {
        VariantType::Dictionary
    }

    open spec fn is_strict() -> bool {
        true
    }

    open spec fn encode_of(m: Seq<(VariantValue, VariantValue)>) -> VariantValue {
        VariantValue::Dictionary(m)
    }

    open spec fn decode_spec(v: VariantValue) -> Option<Seq<(VariantValue, VariantValue)>> {
        match v {
            VariantValue::Dictionary(x) => Some(x),
            _ => None,
        }
    }

    proof fn lemma_round_trip(m: Seq<(VariantValue, VariantValue)>) {
    }

    proof fn lemma_re_encode(v: VariantValue) {
    }

    proof fn lemma_encode_tag(m: Seq<(VariantValue, VariantValue)>) {
    }

    proof fn lemma_strict_decode(v: VariantValue) {
    }

    fn ffi_to_variant(&self) -> (out: Variant) {
        Variant::Dictionary(self.deep_copy())
    }

    fn ffi_from_variant(variant: &Variant) -> (r: Result<Dictionary, ConvertError>) {
        match variant {
            Variant::Dictionary(d) => Ok(d.deep_copy()),
            _ => Err(FromVariantError::BadType {
                expected: VariantType::Dictionary,
                actual: variant.get_type(),
            }.into_error(variant.clone_variant())),
        }
    }
}

impl GodotType for Dictionary {
    open spec fn passing_convention() -> PassingConvention {
        PassingConvention::ByReference
    }

    open spec fn godot_name() -> Seq<char> {
        "Dictionary"@
    }

    open spec fn usage_flags() -> u64 {
        PROPERTY_USAGE_DEFAULT
    }

    fn variant_type() -> VariantType {
        VariantType::Dictionary
    }

    fn convention() -> PassingConvention {
        PassingConvention::ByReference
    }

    fn property_usage() -> u64 {
        PROPERTY_USAGE_DEFAULT
    }

    fn godot_type_name() -> &'static str {
        "Dictionary"
    }

    fn to_ffi<'a>(&'a self) -> FfiRepr<'a, Dictionary> {
        FfiRepr::Borrowed(self)
    }
}

impl GodotFfiVariant for PackedByteArray {
    type Model = Seq<u8>;

    open spec fn model(self) -> Seq<u8> {
        self@
    }

    open spec fn designated_tag() -> VariantType {
        VariantType::PackedByteArray
    }

    open spec fn is_strict() -> bool {
        true
    }

    open spec fn encode_of(m: Seq<u8>) -> VariantValue {
        VariantValue::PackedByteArray(m)
    }

    open spec fn decode_spec(v: VariantValue) -> Option<Seq<u8>> {
        match v {
            VariantValue::PackedByteArray(x) => Some(x),
            _ => None,
        }
    }

    proof fn lemma_round_trip(m: Seq<u8>) {
    }

    proof fn lemma_re_encode(v: VariantValue) {
    }

    proof fn lemma_encode_tag(m: Seq<u8>) {
    }

    proof fn lemma_strict_decode(v: VariantValue) {
    }

    fn ffi_to_variant(&self) -> (out: Variant) {
        Variant::PackedByteArray(PackedByteArray { data: clone_scalar_vec(&self.data) })
    }

    fn ffi_from_variant(variant: &Variant) -> (r: Result<PackedByteArray, ConvertError>) {
        match variant {
            Variant::PackedByteArray(a) => Ok(PackedByteArray { data: clone_scalar_vec(&a.data) }),
            _ => Err(FromVariantError::BadType {
                expected: VariantType::PackedByteArray,
                actual: variant.get_type(),
            }.into_error(variant.clone_variant())),
        }
    }
}

impl GodotType for PackedByteArray {
    open spec fn passing_convention() -> PassingConvention {
        PassingConvention::ByReference
    }

    open spec fn godot_name() -> Seq<char> {
        "PackedByteArray"@
    }

    open spec fn usage_flags() -> u64 {
        PROPERTY_USAGE_DEFAULT
    }

    fn variant_type() -> VariantType {
        VariantType::PackedByteArray
    }

    fn convention() -> PassingConvention {
        PassingConvention::ByReference
    }

    fn property_usage() -> u64 {
        PROPERTY_USAGE_DEFAULT
    }

    fn godot_type_name() -> &'static str {
        "PackedByteArray"
    }

    fn to_ffi<'a>(&'a self) -> FfiRepr<'a, PackedByteArray> {
        FfiRepr::Borrowed(self)
    }
}

impl GodotFfiVariant for PackedInt32Array {
    type Model = Seq<i32>;

    open spec fn model(self) -> Seq<i32> {
        self@
    }

    open spec fn designated_tag() -> VariantType {
        VariantType::PackedInt32Array
    }

    open spec fn is_strict() -> bool {
        true
    }

    open spec fn encode_of(m: Seq<i32>) -> VariantValue {
        VariantValue::PackedInt32Array(m)
    }

    open spec fn decode_spec(v: VariantValue) -> Option<Seq<i32>> {
        match v {
            VariantValue::PackedInt32Array(x) => Some(x),
            _ => None,
        }
    }

    proof fn lemma_round_trip(m: Seq<i32>) {
    }

    proof fn lemma_re_encode(v: VariantValue) {
    }

    proof fn lemma_encode_tag(m: Seq<i32>) {
    }

    proof fn lemma_strict_decode(v: VariantValue) {
    }

    fn ffi_to_variant(&self) -> (out: Variant) {
        Variant::PackedInt32Array(PackedInt32Array { data: clone_scalar_vec(&self.data) })
    }

    fn ffi_from_variant(variant: &Variant) -> (r: Result<PackedInt32Array, ConvertError>) {
        match variant {
            Variant::PackedInt32Array(a) => Ok(PackedInt32Array { data: clone_scalar_vec(&a.data) }),
            _ => Err(FromVariantError::BadType {
                expected: VariantType::PackedInt32Array,
                actual: variant.get_type(),
            }.into_error(variant.clone_variant())),
        }
    }
}

impl GodotType for PackedInt32Array {
    open spec fn passing_convention() -> PassingConvention {
        PassingConvention::ByReference
    }

    open spec fn godot_name() -> Seq<char> {
        "PackedInt32Array"@
    }

    open spec fn usage_flags() -> u64 {
        PROPERTY_USAGE_DEFAULT
    }

    fn variant_type() -> VariantType {
        VariantType::PackedInt32Array
    }

    fn convention() -> PassingConvention {
        PassingConvention::ByReference
    }

    fn property_usage() -> u64 {
        PROPERTY_USAGE_DEFAULT
    }

    fn godot_type_name() -> &'static str {
        "PackedInt32Array"
    }

    fn to_ffi<'a>(&'a self) -> FfiRepr<'a, PackedInt32Array> {
        FfiRepr::Borrowed(self)
    }
}

impl GodotFfiVariant for PackedInt64Array {
    type Model = Seq<i64>;

    open spec fn model(self) -> Seq<i64> {
        self@
    }

    open spec fn designated_tag() -> VariantType {
        VariantType::PackedInt64Array
    }

    open spec fn is_strict() -> bool {
        true
    }

    open spec fn encode_of(m: Seq<i64>) -> VariantValue {
        VariantValue::PackedInt64Array(m)
    }

    open spec fn decode_spec(v: VariantValue) -> Option<Seq<i64>> {
        match v {
            VariantValue::PackedInt64Array(x) => Some(x),
            _ => None,
        }
    }

    proof fn lemma_round_trip(m: Seq<i64>) {
    }

    proof fn lemma_re_encode(v: VariantValue) {
    }

    proof fn lemma_encode_tag(m: Seq<i64>) {
    }

    proof fn lemma_strict_decode(v: VariantValue) {
    }

    fn ffi_to_variant(&self) -> (out: Variant) {
        Variant::PackedInt64Array(PackedInt64Array { data: clone_scalar_vec(&self.data) })
    }

    fn ffi_from_variant(variant: &Variant) -> (r: Result<PackedInt64Array, ConvertError>) {
        match variant {
            Variant::PackedInt64Array(a) => Ok(PackedInt64Array { data: clone_scalar_vec(&a.data) }),
            _ => Err(FromVariantError::BadType {
                expected: VariantType::PackedInt64Array,
                actual: variant.get_type(),
            }.into_error(variant.clone_variant())),
        }
    }
}

impl GodotType for PackedInt64Array {
    open spec fn passing_convention() -> PassingConvention {
        PassingConvention::ByReference
    }

    open spec fn godot_name() -> Seq<char> {
        "PackedInt64Array"@
    }

    open spec fn usage_flags() -> u64 {
        PROPERTY_USAGE_DEFAULT
    }

    fn variant_type() -> VariantType {
        VariantType::PackedInt64Array
    }

    fn convention() -> PassingConvention {
        PassingConvention::ByReference
    }

    fn property_usage() -> u64 {
        PROPERTY_USAGE_DEFAULT
    }

    fn godot_type_name() -> &'static str {
        "PackedInt64Array"
    }

    fn to_ffi<'a>(&'a self) -> FfiRepr<'a, PackedInt64Array> {
        FfiRepr::Borrowed(self)
    }
}

impl GodotFfiVariant for PackedFloat32Array {
    type Model = Seq<u32>;

    open spec fn model(self) -> Seq<u32> {
        self@
    }

    open spec fn designated_tag() -> VariantType {
        VariantType::PackedFloat32Array
    }

    open spec fn is_strict() -> bool {
        true
    }

    open spec fn encode_of(m: Seq<u32>) -> VariantValue {
        VariantValue::PackedFloat32Array(m)
    }

    open spec fn decode_spec(v: VariantValue) -> Option<Seq<u32>> {
        match v {
            VariantValue::PackedFloat32Array(x) => Some(x),
            _ => None,
        }
    }

    proof fn lemma_round_trip(m: Seq<u32>) {
    }

    proof fn lemma_re_encode(v: VariantValue) {
    }

    proof fn lemma_encode_tag(m: Seq<u32>) {
    }

    proof fn lemma_strict_decode(v: VariantValue) {
    }

    fn ffi_to_variant(&self) -> (out: Variant) {
        Variant::PackedFloat32Array(PackedFloat32Array { data: clone_scalar_vec(&self.data) })
    }

    fn ffi_from_variant(variant: &Variant) -> (r: Result<PackedFloat32Array, ConvertError>) {
        match variant {
            Variant::PackedFloat32Array(a) => Ok(PackedFloat32Array { data: clone_scalar_vec(&a.data) }),
            _ => Err(FromVariantError::BadType {
                expected: VariantType::PackedFloat32Array,
                actual: variant.get_type(),
            }.into_error(variant.clone_variant())),
        }
    }
}

impl GodotType for PackedFloat32Array {
    open spec fn passing_convention() -> PassingConvention {
        PassingConvention::ByReference
    }

    open spec fn godot_name() -> Seq<char> {
        "PackedFloat32Array"@
    }

    open spec fn usage_flags() -> u64 {
        PROPERTY_USAGE_DEFAULT
    }

    fn variant_type() -> VariantType {
        VariantType::PackedFloat32Array
    }

    fn convention() -> PassingConvention {
        PassingConvention::ByReference
    }

    fn property_usage() -> u64 {
        PROPERTY_USAGE_DEFAULT
    }

    fn godot_type_name() -> &'static str {
        "PackedFloat32Array"
    }

    fn to_ffi<'a>(&'a self) -> FfiRepr<'a, PackedFloat32Array> {
        FfiRepr::Borrowed(self)
    }
}

impl GodotFfiVariant for PackedFloat64Array {
    type Model = Seq<u64>;

    open spec fn model(self) -> Seq<u64> {
        self@
    }

    open spec fn designated_tag() -> VariantType {
        VariantType::PackedFloat64Array
    }

    open spec fn is_strict() -> bool {
        true
    }

    open spec fn encode_of(m: Seq<u64>) -> VariantValue {
        VariantValue::PackedFloat64Array(m)
    }

    open spec fn decode_spec(v: VariantValue) -> Option<Seq<u64>> {
        match v {
            VariantValue::PackedFloat64Array(x) => Some(x),
            _ => None,
        }
    }

    proof fn lemma_round_trip(m: Seq<u64>) {
    }

    proof fn lemma_re_encode(v: VariantValue) {
    }

    proof fn lemma_encode_tag(m: Seq<u64>) {
    }

    proof fn lemma_strict_decode(v: VariantValue) {
    }

    fn ffi_to_variant(&self) -> (out: Variant) {
        Variant::PackedFloat64Array(PackedFloat64Array { data: clone_scalar_vec(&self.data) })
    }

    fn ffi_from_variant(variant: &Variant) -> (r: Result<PackedFloat64Array, ConvertError>) {
        match variant {
            Variant::PackedFloat64Array(a) => Ok(PackedFloat64Array { data: clone_scalar_vec(&a.data) }),
            _ => Err(FromVariantError::BadType {
                expected: VariantType::PackedFloat64Array,
                actual: variant.get_type(),
            }.into_error(variant.clone_variant())),
        }
    }
}

impl GodotType for PackedFloat64Array {
    open spec fn passing_convention() -> PassingConvention {
        PassingConvention::ByReference
    }

    open spec fn godot_name() -> Seq<char> {
        "PackedFloat64Array"@
    }

    open spec fn usage_flags() -> u64 {
        PROPERTY_USAGE_DEFAULT
    }

    fn variant_type() -> VariantType {
        VariantType::PackedFloat64Array
    }

    fn convention() -> PassingConvention {
        PassingConvention::ByReference
    }

    fn property_usage() -> u64 {
        PROPERTY_USAGE_DEFAULT
    }

    fn godot_type_name() -> &'static str {
        "PackedFloat64Array"
    }

    fn to_ffi<'a>(&'a self) -> FfiRepr<'a, PackedFloat64Array> {
        FfiRepr::Borrowed(self)
    }
}

impl GodotFfiVariant for PackedStringArray {
    type Model = Seq<Seq<char>>;

    open spec fn model(self) -> Seq<Seq<char>> {
        self@
    }

    open spec fn designated_tag() -> VariantType {
        VariantType::PackedStringArray
    }

    open spec fn is_strict() -> bool {
        true
    }

    open spec fn encode_of(m: Seq<Seq<char>>) -> VariantValue {
        VariantValue::PackedStringArray(m)
    }

    open spec fn decode_spec(v: VariantValue) -> Option<Seq<Seq<char>>> {
        match v {
            VariantValue::PackedStringArray(x) => Some(x),
            _ => None,
        }
    }

    proof fn lemma_round_trip(m: Seq<Seq<char>>) {
    }

    proof fn lemma_re_encode(v: VariantValue) {
    }

    proof fn lemma_encode_tag(m: Seq<Seq<char>>) {
    }

    proof fn lemma_strict_decode(v: VariantValue) {
    }

    fn ffi_to_variant(&self) -> (out: Variant) {
        Variant::PackedStringArray(PackedStringArray { data: clone_gstring_vec(&self.data) })
    }

    fn ffi_from_variant(variant: &Variant) -> (r: Result<PackedStringArray, ConvertError>) {
        match variant {
            Variant::PackedStringArray(a) => Ok(
                PackedStringArray { data: clone_gstring_vec(&a.data) },
            ),
            _ => Err(FromVariantError::BadType {
                expected: VariantType::PackedStringArray,
                actual: variant.get_type(),
            }.into_error(variant.clone_variant())),
        }
    }
}

impl GodotType for PackedStringArray {
    open spec fn passing_convention() -> PassingConvention {
        PassingConvention::ByReference
    }

    open spec fn godot_name() -> Seq<char> {
        "PackedStringArray"@
    }

    open spec fn usage_flags() -> u64 {
        PROPERTY_USAGE_DEFAULT
    }

    fn variant_type() -> VariantType {
        VariantType::PackedStringArray
    }

    fn convention() -> PassingConvention {
        PassingConvention::ByReference
    }

    fn property_usage() -> u64 {
        PROPERTY_USAGE_DEFAULT
    }

    fn godot_type_name() -> &'static str {
        "PackedStringArray"
    }

    fn to_ffi<'a>(&'a self) -> FfiRepr<'a, PackedStringArray> {
        FfiRepr::Borrowed(self)
    }
}

impl GodotFfiVariant for PackedVector2Array {
    type Model = Seq<Vector2>;

    open spec fn model(self) -> Seq<Vector2> {
        self@
    }

    open spec fn designated_tag() -> VariantType {
        VariantType::PackedVector2Array
    }

    open spec fn is_strict() -> bool {
        true
    }

    open spec fn encode_of(m: Seq<Vector2>) -> VariantValue {
        VariantValue::PackedVector2Array(m)
    }

    open spec fn decode_spec(v: VariantValue) -> Option<Seq<Vector2>> {
        match v {
            VariantValue::PackedVector2Array(x) => Some(x),
            _ => None,
        }
    }

    proof fn lemma_round_trip(m: Seq<Vector2>) {
    }

    proof fn lemma_re_encode(v: VariantValue) {
    }

    proof fn lemma_encode_tag(m: Seq<Vector2>) {
    }

    proof fn lemma_strict_decode(v: VariantValue) {
    }

    fn ffi_to_variant(&self) -> (out: Variant) {
        Variant::PackedVector2Array(PackedVector2Array { data: clone_scalar_vec(&self.data) })
    }

    fn ffi_from_variant(variant: &Variant) -> (r: Result<PackedVector2Array, ConvertError>) {
        match variant {
            Variant::PackedVector2Array(a) => Ok(PackedVector2Array { data: clone_scalar_vec(&a.data) }),
            _ => Err(FromVariantError::BadType {
                expected: VariantType::PackedVector2Array,
                actual: variant.get_type(),
            }.into_error(variant.clone_variant())),
        }
    }
}

impl GodotType for PackedVector2Array {
    open spec fn passing_convention() -> PassingConvention {
        PassingConvention::ByReference
    }

    open spec fn godot_name() -> Seq<char> {
        "PackedVector2Array"@
    }

    open spec fn usage_flags() -> u64 {
        PROPERTY_USAGE_DEFAULT
    }

    fn variant_type() -> VariantType {
        VariantType::PackedVector2Array
    }

    fn convention() -> PassingConvention {
        PassingConvention::ByReference
    }

    fn property_usage() -> u64 {
        PROPERTY_USAGE_DEFAULT
    }

    fn godot_type_name() -> &'static str {
        "PackedVector2Array"
    }

    fn to_ffi<'a>(&'a self) -> FfiRepr<'a, PackedVector2Array> {
        FfiRepr::Borrowed(self)
    }
}

impl GodotFfiVariant for PackedVector3Array {
    type Model = Seq<Vector3>;

    open spec fn model(self) -> Seq<Vector3> {
        self@
    }

    open spec fn designated_tag() -> VariantType {
        VariantType::PackedVector3Array
    }

    open spec fn is_strict() -> bool {
        true
    }

    open spec fn encode_of(m: Seq<Vector3>) -> VariantValue {
        VariantValue::PackedVector3Array(m)
    }

    open spec fn decode_spec(v: VariantValue) -> Option<Seq<Vector3>> {
        match v {
            VariantValue::PackedVector3Array(x) => Some(x),
            _ => None,
        }
    }

    proof fn lemma_round_trip(m: Seq<Vector3>) {
    }

    proof fn lemma_re_encode(v: VariantValue) {
    }

    proof fn lemma_encode_tag(m: Seq<Vector3>) {
    }

    proof fn lemma_strict_decode(v: VariantValue) {
    }

    fn ffi_to_variant(&self) -> (out: Variant) {
        Variant::PackedVector3Array(PackedVector3Array { data: clone_scalar_vec(&self.data) })
    }

    fn ffi_from_variant(variant: &Variant) -> (r: Result<PackedVector3Array, ConvertError>) {
        match variant {
            Variant::PackedVector3Array(a) => Ok(PackedVector3Array { data: clone_scalar_vec(&a.data) }),
            _ => Err(FromVariantError::BadType {
                expected: VariantType::PackedVector3Array,
                actual: variant.get_type(),
            }.into_error(variant.clone_variant())),
        }
    }
}

impl GodotType for PackedVector3Array {
    open spec fn passing_convention() -> PassingConvention {
        PassingConvention::ByReference
    }

    open spec fn godot_name() -> Seq<char> {
        "PackedVector3Array"@
    }

    open spec fn usage_flags() -> u64 {
        PROPERTY_USAGE_DEFAULT
    }

    fn variant_type() -> VariantType {
        VariantType::PackedVector3Array
    }

    fn convention() -> PassingConvention {
        PassingConvention::ByReference
    }

    fn property_usage() -> u64 {
        PROPERTY_USAGE_DEFAULT
    }

    fn godot_type_name() -> &'static str {
        "PackedVector3Array"
    }

    fn to_ffi<'a>(&'a self) -> FfiRepr<'a, PackedVector3Array> {
        FfiRepr::Borrowed(self)
    }
}

impl GodotFfiVariant for PackedColorArray {
    type Model = Seq<Color>;

    open spec fn model(self) -> Seq<Color> {
        self@
    }

    open spec fn designated_tag() -> VariantType {
        VariantType::PackedColorArray
    }

    open spec fn is_strict() -> bool {
        true
    }

    open spec fn encode_of(m: Seq<Color>) -> VariantValue {
        VariantValue::PackedColorArray(m)
    }

    open spec fn decode_spec(v: VariantValue) -> Option<Seq<Color>> {
        match v {
            VariantValue::PackedColorArray(x) => Some(x),
            _ => None,
        }
    }

    proof fn lemma_round_trip(m: Seq<Color>) {
    }

    proof fn lemma_re_encode(v: VariantValue) {
    }

    proof fn lemma_encode_tag(m: Seq<Color>) {
    }

    proof fn lemma_strict_decode(v: VariantValue) {
    }

    fn ffi_to_variant(&self) -> (out: Variant) {
        Variant::PackedColorArray(PackedColorArray { data: clone_scalar_vec(&self.data) })
    }

    fn ffi_from_variant(variant: &Variant) -> (r: Result<PackedColorArray, ConvertError>) {
        match variant {
            Variant::PackedColorArray(a) => Ok(PackedColorArray { data: clone_scalar_vec(&a.data) }),
            _ => Err(FromVariantError::BadType {
                expected: VariantType::PackedColorArray,
                actual: variant.get_type(),
            }.into_error(variant.clone_variant())),
        }
    }
}

impl GodotType for PackedColorArray {
    open spec fn passing_convention() -> PassingConvention {
        PassingConvention::ByReference
    }

    open spec fn godot_name() -> Seq<char> {
        "PackedColorArray"@
    }

    open spec fn usage_flags() -> u64 {
        PROPERTY_USAGE_DEFAULT
    }

    fn variant_type() -> VariantType {
        VariantType::PackedColorArray
    }

    fn convention() -> PassingConvention {
        PassingConvention::ByReference
    }

    fn property_usage() -> u64 {
        PROPERTY_USAGE_DEFAULT
    }

    fn godot_type_name() -> &'static str {
        "PackedColorArray"
    }

    fn to_ffi<'a>(&'a self) -> FfiRepr<'a, PackedColorArray> {
        FfiRepr::Borrowed(self)
    }
}

impl GodotFfiVariant for Signal {
    type Model = (u64, Seq<char>);

    open spec fn model(self) -> (u64, Seq<char>) {
        self@
    }

    open spec fn designated_tag() -> VariantType {
        VariantType::Signal
    }

    open spec fn is_strict() -> bool {
        true
    }

    open spec fn encode_of(m: (u64, Seq<char>)) -> VariantValue {
        VariantValue::Signal { object_id: m.0, name: m.1 }
    }

    open spec fn decode_spec(v: VariantValue) -> Option<(u64, Seq<char>)> {
        match v {
            VariantValue::Signal { object_id, name } => Some((object_id, name)),
            _ => None,
        }
    }

    proof fn lemma_round_trip(m: (u64, Seq<char>)) {
    }

    proof fn lemma_re_encode(v: VariantValue) {
    }

    proof fn lemma_encode_tag(m: (u64, Seq<char>)) {
    }

    proof fn lemma_strict_decode(v: VariantValue) {
    }

    fn ffi_to_variant(&self) -> (out: Variant) {
        Variant::Signal(Signal {
            object_id: self.object_id,
            name: StringName { value: self.name.value.clone() },
        })
    }

    fn ffi_from_variant(variant: &Variant) -> (r: Result<Signal, ConvertError>) {
        match variant {
            Variant::Signal(s) => Ok(Signal {
                object_id: s.object_id,
                name: StringName { value: s.name.value.clone() },
            }),
            _ => Err(FromVariantError::BadType {
                expected: VariantType::Signal,
                actual: variant.get_type(),
            }.into_error(variant.clone_variant())),
        }
    }
}

impl GodotType for Signal {
    open spec fn passing_convention() -> PassingConvention {
        PassingConvention::ByReference
    }

    open spec fn godot_name() -> Seq<char> {
        "Signal"@
    }

    open spec fn usage_flags() -> u64 {
        PROPERTY_USAGE_DEFAULT
    }

    fn variant_type() -> VariantType {
        VariantType::Signal
    }

    fn convention() -> PassingConvention {
        PassingConvention::ByReference
    }

    fn property_usage() -> u64 {
        PROPERTY_USAGE_DEFAULT
    }

    fn godot_type_name() -> &'static str {
        "Signal"
    }

    fn to_ffi<'a>(&'a self) -> FfiRepr<'a, Signal> {
        FfiRepr::Borrowed(self)
    }
}

impl GodotFfiVariant for Callable {
    type Model = (u64, Seq<char>);

    open spec fn model(self) -> (u64, Seq<char>) {
        self@
    }

    open spec fn designated_tag() -> VariantType {
        VariantType::Callable
    }

    open spec fn is_strict() -> bool {
        true
    }

    open spec fn encode_of(m: (u64, Seq<char>)) -> VariantValue {
        VariantValue::Callable { object_id: m.0, method: m.1 }
    }

    open spec fn decode_spec(v: VariantValue) -> Option<(u64, Seq<char>)> {
        match v {
            VariantValue::Callable { object_id, method } => Some((object_id, method)),
            _ => None,
        }
    }

    proof fn lemma_round_trip(m: (u64, Seq<char>)) {
    }

    proof fn lemma_re_encode(v: VariantValue) {
    }

    proof fn lemma_encode_tag(m: (u64, Seq<char>)) {
    }

    proof fn lemma_strict_decode(v: VariantValue) {
    }

    fn ffi_to_variant(&self) -> (out: Variant) {
        Variant::Callable(Callable {
            object_id: self.object_id,
            method: StringName { value: self.method.value.clone() },
        })
    }

    fn ffi_from_variant(variant: &Variant) -> (r: Result<Callable, ConvertError>) {
        match variant {
            Variant::Callable(s) => Ok(Callable {
                object_id: s.object_id,
                method: StringName { value: s.method.value.clone() },
            }),
            _ => Err(FromVariantError::BadType {
                expected: VariantType::Callable,
                actual: variant.get_type(),
            }.into_error(variant.clone_variant())),
        }
    }
}

impl GodotType for Callable {
    open spec fn passing_convention() -> PassingConvention {
        PassingConvention::ByReference
    }

    open spec fn godot_name() -> Seq<char> {
        "Callable"@
    }

    open spec fn usage_flags() -> u64 {
        PROPERTY_USAGE_DEFAULT
    }

    fn variant_type() -> VariantType {
        VariantType::Callable
    }

    fn convention() -> PassingConvention {
        PassingConvention::ByReference
    }

    fn property_usage() -> u64 {
        PROPERTY_USAGE_DEFAULT
    }

    fn godot_type_name() -> &'static str {
        "Callable"
    }

    fn to_ffi<'a>(&'a self) -> FfiRepr<'a, Callable> {
        FfiRepr::Borrowed(self)
    }
}

} // verus!
