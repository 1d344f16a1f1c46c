//! Property descriptors handed to the reflection system.

use vstd::prelude::*;
use crate::builtin::{GString, StringName};
use crate::variant_type::VariantType;

verus! {

/// Usage flag: the property is persisted.
pub const PROPERTY_USAGE_STORAGE: u64 = 2;

/// Usage flag: the property is shown in the editor.
pub const PROPERTY_USAGE_EDITOR: u64 = 4;

/// The default usage: stored and editable.
pub const PROPERTY_USAGE_DEFAULT: u64 = PROPERTY_USAGE_STORAGE | PROPERTY_USAGE_EDITOR;

/// Usage flag: nil is an acceptable value for this slot. Set only for the
/// wildcard (accept-any-type) case; typed slots reject nil.
pub const PROPERTY_USAGE_NIL_IS_VARIANT: u64 = 131072;

/// A hint refining how the editor presents a property.
#[derive(Clone, Copy, PartialEq, Eq, Structural, Debug)]
pub enum PropertyHint {
    NoHint,
}

/// A hint together with its string argument.
#[derive(Clone, PartialEq, Eq, Debug)]
pub struct PropertyHintInfo {
    pub hint: PropertyHint,
    pub hint_string: GString,
}

impl PropertyHintInfo {
    /// The absence of a hint.
    pub fn none() -> (r: PropertyHintInfo)
        ensures
            r.hint == PropertyHint::NoHint,
            r.hint_string@ == Seq::<char>::empty(),
    {
        PropertyHintInfo { hint: PropertyHint::NoHint, hint_string: GString { value: String::new() } }
    }
}

/// A descriptor of one property, consumed verbatim by the reflection system:
/// the type's designated tag, an associated class name (empty for non-object
/// types), the property's name, hint metadata, and usage flags.
#[derive(Clone, PartialEq, Eq, Debug)]
pub struct PropertyInfo {
    pub variant_type: VariantType,
    pub class_name: String,
    pub property_name: StringName,
    pub hint_info: PropertyHintInfo,
    pub usage: u64,
}

} // verus!
