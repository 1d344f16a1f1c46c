//! The conversion protocol: per-type marshalling between a typed value and a
//! `Variant`, and the per-type FFI representation contract.

use vstd::prelude::*;
use crate::builtin::StringName;
use crate::convert_error::{ConvertError, FromVariantError};
use crate::property::{PropertyHint, PropertyHintInfo, PropertyInfo};
use crate::variant::{Variant, VariantValue};
use crate::variant_type::VariantType;

verus! {

/// Whether a type's FFI representation is produced by copying or by a
/// transient borrow. Fixed per type; the call-dispatch layer must assume the
/// same convention, so both read it from this one registry.
#[derive(Clone, Copy, PartialEq, Eq, Structural, Debug)]
pub enum PassingConvention {
    ByValue,
    ByReference,
}

/// The representation a value presents at the ABI boundary: an independent
/// copy for by-value types, a borrow scoped to the enclosing call for
/// by-reference types.
#[derive(Debug)]
pub enum FfiRepr<'a, T> {
    Owned(T),
    Borrowed(&'a T),
}

/// The argument-metadata tag consumed by the call-dispatch layer.
#[derive(Clone, Copy, PartialEq, Eq, Structural, Debug)]
pub enum ParamMetadata {
    NoMetadata,
}

/// Conversion between a typed value and the `Variant` container.
///
/// `Model` is the type's mathematical value; `encode_of` and `decode_spec`
/// say, at that level, what encoding produces and which containers decode.
/// Every implementation proves the round-trip, re-encode and strict-tag laws,
/// so the trait cannot be implemented by a conversion that violates them.
pub trait GodotFfiVariant: Sized {
    /// The mathematical value of this type.
    type Model;

    /// The mathematical value of `self`.
    spec fn model(self) -> Self::Model;

    /// The one type tag designated for this type.
    spec fn designated_tag() -> VariantType;

    /// Whether decoding rejects every tag but the designated one. True for
    /// all types except the wildcard, which accepts any container.
    spec fn is_strict() -> bool;

    /// The value of the container that encoding `m` produces.
    spec fn encode_of(m: Self::Model) -> VariantValue;

    /// The value decoding recovers from a container holding `v`, or `None`
    /// if such a container is rejected.
    spec fn decode_spec(v: VariantValue) -> Option<Self::Model>;

    /// Decoding inverts encoding: a round trip recovers the value exactly.
    proof fn lemma_round_trip(m: Self::Model)
        ensures
            Self::decode_spec(Self::encode_of(m)) == Some(m),
    ;

    /// Re-encoding what was decoded reproduces the original container value,
    /// tag and content alike.
    proof fn lemma_re_encode(v: VariantValue)
        ensures
            Self::decode_spec(v) matches Some(m) ==> Self::encode_of(m) == v,
    ;

    /// For a strict type, encoding always yields the designated tag.
    proof fn lemma_encode_tag(m: Self::Model)
        ensures
            Self::is_strict() ==> Self::encode_of(m).tag() == Self::designated_tag(),
    ;

    /// For a strict type, decoding succeeds exactly on the designated tag.
    proof fn lemma_strict_decode(v: VariantValue)
        ensures
            Self::is_strict() ==> (Self::decode_spec(v) is Some <==> v.tag()
                == Self::designated_tag()),
    ;

    /// Encodes this value into a freshly constructed container. Never fails.
    fn ffi_to_variant(&self) -> (out: Variant)
        ensures
            out@ == Self::encode_of(self.model()),
    ;

    /// Decodes a container into this type after a strict tag check. On
    /// mismatch the error carries the expected tag, the observed tag, and a
    /// copy of the offending container; no partially constructed value is
    /// ever exposed.
    fn ffi_from_variant(variant: &Variant) -> (r: Result<Self, ConvertError>)
        ensures
            (match Self::decode_spec(variant@) {
                Some(m) => r matches Ok(x) && x.model() == m,
                None => r matches Err(e) && e.kind == (FromVariantError::BadType {
                    expected: Self::designated_tag(),
                    actual: variant@.tag(),
                }) && e.value@ == variant@,
            }),
    ;
}

/// The FFI representation protocol: how a typed value crosses the boundary,
/// plus the reflection metadata associated with the type.
pub trait GodotType: GodotFfiVariant {
    /// This type's entry in the passing-convention registry.
    spec fn passing_convention() -> PassingConvention;

    /// The type name used for reflection and diagnostics.
    spec fn godot_name() -> Seq<char>;

    /// The usage flags a property of this type carries by default.
    spec fn usage_flags() -> u64;

    /// The designated tag, as a runtime value.
    fn variant_type() -> (t: VariantType)
        ensures
            t == Self::designated_tag(),
    ;

    /// The passing convention, as a runtime value.
    fn convention() -> (c: PassingConvention)
        ensures
            c == Self::passing_convention(),
    ;

    /// The default property usage flags, as a runtime value.
    fn property_usage() -> (u: u64)
        ensures
            u == Self::usage_flags(),
    ;

    /// The type name used for reflection and diagnostics.
    fn godot_type_name() -> (s: &'static str)
        ensures
            s@ == Self::godot_name(),
    ;

    /// Produces this value's FFI representation without consuming it: an
    /// independent copy for a by-value type, a borrow of `self` (no new
    /// backing storage) for a by-reference type.
    fn to_ffi<'a>(&'a self) -> (r: FfiRepr<'a, Self>)
        ensures
            (match r {
                FfiRepr::Owned(v) => Self::passing_convention() == PassingConvention::ByValue
                    && v.model() == self.model(),
                FfiRepr::Borrowed(b) => Self::passing_convention()
                    == PassingConvention::ByReference && b == self,
            }),
    ;

    /// Transfers ownership of this value into its FFI representation.
    fn into_ffi(self) -> (r: Self)
        ensures
            r == self,
    {
        self
    }

    /// Reconstructs a value from a representation received from the boundary.
    fn try_from_ffi(ffi: Self) -> (r: Result<Self, ConvertError>)
        ensures
            r matches Ok(x) && x == ffi,
    {
        Ok(ffi)
    }

    /// The default argument-metadata tag for this type.
    fn param_metadata() -> (m: ParamMetadata)
        ensures
            m == ParamMetadata::NoMetadata,
    {
        ParamMetadata::NoMetadata
    }

    /// Assembles the property descriptor for a property of this type with
    /// the given name: designated tag, empty class name, no hint, and this
    /// type's usage flags.
    fn property_info(property_name: &str) -> (info: PropertyInfo)
        ensures
            info.variant_type == Self::designated_tag(),
            info.class_name@ == Seq::<char>::empty(),
            info.property_name@ == property_name@,
            info.hint_info.hint == PropertyHint::NoHint,
            info.hint_info.hint_string@ == Seq::<char>::empty(),
            info.usage == Self::usage_flags(),
    {
        PropertyInfo {
            variant_type: Self::variant_type(),
            class_name: String::new(),
            property_name: StringName::from_str(property_name),
            hint_info: PropertyHintInfo::none(),
            usage: Self::property_usage(),
        }
    }
}

} // verus!
