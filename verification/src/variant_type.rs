//! The type tag discriminating what a `Variant` currently holds.

use vstd::prelude::*;

verus! {

/// Tag identifying the concrete type held by a `Variant`.
///
/// Every supported builtin type has exactly one designated tag; the unit
/// value maps to `Nil`. Decoding compares tags by strict equality: there is
/// no coercion between numeric kinds or between array element kinds.
#[derive(Clone, Copy, PartialEq, Eq, Structural, Debug)]
pub enum VariantType {
    Nil,
    Bool,
    Int,
    Float,
    Vector2,
    Vector2i,
    Vector3,
    Vector3i,
    Vector4,
    Vector4i,
    Quaternion,
    Color,
    Rect2,
    Rect2i,
    Plane,
    Aabb,
    Basis,
    Transform2D,
    Transform3D,
    Projection,
    Rid,
    GString,
    StringName,
    NodePath,
    Dictionary,
    PackedByteArray,
    PackedInt32Array,
    PackedInt64Array,
    PackedFloat32Array,
    PackedFloat64Array,
    PackedStringArray,
    PackedVector2Array,
    PackedVector3Array,
    PackedColorArray,
    Signal,
    Callable,
}

} // verus!
