//! The single error surfaced by this layer: a type mismatch on decode.

use vstd::prelude::*;
use crate::variant::Variant;
use crate::variant_type::VariantType;

verus! {

/// Why a decode from a `Variant` failed.
#[derive(Clone, Copy, PartialEq, Eq, Structural, Debug)]
pub enum FromVariantError {
    /// The container's tag did not strictly match the designated tag of the
    /// type being decoded into.
    BadType { expected: VariantType, actual: VariantType },
}

/// A decode failure, carrying a copy of the offending container for
/// diagnostics by the caller.
#[derive(Debug)]
pub struct ConvertError {
    pub kind: FromVariantError,
    pub value: Variant,
}

impl FromVariantError {
    /// Attaches the offending container to this failure cause.
    pub fn into_error(self, value: Variant) -> (e: ConvertError)
        ensures
            e.kind == self,
            e.value@ == value@,
    {
        ConvertError { kind: self, value }
    }
}

impl ConvertError {
    /// The failure cause.
    pub fn kind(&self) -> (k: FromVariantError)
        ensures
            k == self.kind,
    {
        self.kind
    }

    /// The offending container, as handed to the failed decode.
    pub fn value(&self) -> (v: &Variant)
        ensures
            v@ == self.value@,
    {
        &self.value
    }
}

} // verus!
