//! The laws of the conversion protocol, stated once over every supported
//! type. Each is proved from the per-type obligations that implementing
//! [`GodotFfiVariant`] already requires, so no conversion can be added to the
//! protocol without satisfying them.

use vstd::prelude::*;
use crate::meta::GodotFfiVariant;
use crate::variant::{Variant, VariantValue};
use crate::variant_type::VariantType;

verus! {

/// Round trip: for every supported type and every value of it, decoding what
/// encoding produced succeeds and recovers the value exactly.
pub proof fn lemma_round_trip<T: GodotFfiVariant>(m: T::Model)
    ensures
        T::decode_spec(T::encode_of(m)) == Some(m),
{
    T::lemma_round_trip(m);
}

/// Strict tag rejection: a strict type decodes a container value if and only
/// if its tag equals the type's designated tag; any other tag is rejected.
/// The executable decode then reports exactly `BadType` with the designated
/// tag as expected and the container's tag as actual.
pub proof fn lemma_strict_tag_rejection<T: GodotFfiVariant>(v: VariantValue)
    requires
        T::is_strict(),
    ensures
        T::decode_spec(v) is Some <==> v.tag() == T::designated_tag(),
{
    T::lemma_strict_decode(v);
}

/// Encoding a value of a strict type always yields a container carrying the
/// type's designated tag.
pub proof fn lemma_encode_designated_tag<T: GodotFfiVariant>(m: T::Model)
    requires
        T::is_strict(),
    ensures
        T::encode_of(m).tag() == T::designated_tag(),
{
    T::lemma_encode_tag(m);
}

/// Idempotent re-encode: whatever a type decodes from a container value,
/// encoding it again reproduces that container value, tag and content alike.
pub proof fn lemma_re_encode<T: GodotFfiVariant>(v: VariantValue)
    ensures
        T::decode_spec(v) matches Some(m) ==> T::encode_of(m) == v,
{
    T::lemma_re_encode(v);
}

/// The nil contract: encoding the unit value yields the nil container, and
/// decoding as unit succeeds exactly on a nil container. On any other tag the
/// executable decode reports `BadType` with `Nil` expected.
pub proof fn lemma_nil_contract(v: VariantValue)
    ensures
        <() as GodotFfiVariant>::encode_of(()) == VariantValue::Nil,
        <() as GodotFfiVariant>::designated_tag() == VariantType::Nil,
        <() as GodotFfiVariant>::decode_spec(v) is Some <==> v is Nil,
{
}

/// The wildcard contract: the `Variant`-to-`Variant` conversion accepts every
/// tag. Decoding returns the container value unchanged and never fails, and
/// re-encoding it reproduces the value, so a wildcard round trip is exact.
pub proof fn lemma_wildcard_contract(v: VariantValue)
    ensures
        <Variant as GodotFfiVariant>::decode_spec(v) == Some(v),
        <Variant as GodotFfiVariant>::encode_of(v) == v,
        <Variant as GodotFfiVariant>::decode_spec(<Variant as GodotFfiVariant>::encode_of(v))
            == Some(v),
{
}

} // verus!
