//! Models of the engine's builtin value types.
//!
//! Plain-data types (vectors, matrices, colors, transforms) are exact structs
//! of scalar components; floating-point components are carried as IEEE bit
//! patterns (`u32`/`u64`), since the marshalling layer moves them across the
//! boundary without ever interpreting numeric content. Heap-backed types
//! (strings, dictionaries, packed arrays, signal/callable handles) own their
//! storage; cloning them yields an independent deep copy.

use vstd::prelude::*;
use crate::variant::Variant;

verus! {

/// A floating-point scalar, carried as the bit pattern of an IEEE double.
#[derive(Clone, Copy, PartialEq, Eq, Structural, Debug)]
pub struct FloatVal {
    pub bits: u64,
}

/// A two-component real vector; components are IEEE single bit patterns.
#[derive(Clone, Copy, PartialEq, Eq, Structural, Debug)]
pub struct Vector2 {
    pub x: u32,
    pub y: u32,
}

/// A two-component integer vector.
#[derive(Clone, Copy, PartialEq, Eq, Structural, Debug)]
pub struct Vector2i {
    pub x: i32,
    pub y: i32,
}

/// A three-component real vector; components are IEEE single bit patterns.
#[derive(Clone, Copy, PartialEq, Eq, Structural, Debug)]
pub struct Vector3 {
    pub x: u32,
    pub y: u32,
    pub z: u32,
}

/// A three-component integer vector.
#[derive(Clone, Copy, PartialEq, Eq, Structural, Debug)]
pub struct Vector3i {
    pub x: i32,
    pub y: i32,
    pub z: i32,
}

/// A four-component real vector; components are IEEE single bit patterns.
#[derive(Clone, Copy, PartialEq, Eq, Structural, Debug)]
pub struct Vector4 {
    pub x: u32,
    pub y: u32,
    pub z: u32,
    pub w: u32,
}

/// A four-component integer vector.
#[derive(Clone, Copy, PartialEq, Eq, Structural, Debug)]
pub struct Vector4i {
    pub x: i32,
    pub y: i32,
    pub z: i32,
    pub w: i32,
}

/// A rotation quaternion; components are IEEE single bit patterns.
#[derive(Clone, Copy, PartialEq, Eq, Structural, Debug)]
pub struct Quaternion {
    pub x: u32,
    pub y: u32,
    pub z: u32,
    pub w: u32,
}

/// An RGBA color; channels are IEEE single bit patterns.
#[derive(Clone, Copy, PartialEq, Eq, Structural, Debug)]
pub struct Color {
    pub r: u32,
    pub g: u32,
    pub b: u32,
    pub a: u32,
}

/// An axis-aligned rectangle in real coordinates.
#[derive(Clone, Copy, PartialEq, Eq, Structural, Debug)]
pub struct Rect2 {
    pub position: Vector2,
    pub size: Vector2,
}

/// An axis-aligned rectangle in integer coordinates.
#[derive(Clone, Copy, PartialEq, Eq, Structural, Debug)]
pub struct Rect2i {
    pub position: Vector2i,
    pub size: Vector2i,
}

/// A plane in Hesse normal form; `d` is an IEEE single bit pattern.
#[derive(Clone, Copy, PartialEq, Eq, Structural, Debug)]
pub struct Plane {
    pub normal: Vector3,
    pub d: u32,
}

/// An axis-aligned bounding box.
#[derive(Clone, Copy, PartialEq, Eq, Structural, Debug)]
pub struct Aabb {
    pub position: Vector3,
    pub size: Vector3,
}

/// A 3x3 matrix stored as three row vectors.
#[derive(Clone, Copy, PartialEq, Eq, Structural, Debug)]
pub struct Basis {
    pub rows_x: Vector3,
    pub rows_y: Vector3,
    pub rows_z: Vector3,
}

/// A 2D affine transform: two basis columns and an origin.
#[derive(Clone, Copy, PartialEq, Eq, Structural, Debug)]
pub struct Transform2D {
    pub a: Vector2,
    pub b: Vector2,
    pub origin: Vector2,
}

/// A 3D affine transform: a basis and an origin.
#[derive(Clone, Copy, PartialEq, Eq, Structural, Debug)]
pub struct Transform3D {
    pub basis: Basis,
    pub origin: Vector3,
}

/// A 4x4 projection matrix stored as four column vectors.
#[derive(Clone, Copy, PartialEq, Eq, Structural, Debug)]
pub struct Projection {
    pub x: Vector4,
    pub y: Vector4,
    pub z: Vector4,
    pub w: Vector4,
}

/// An opaque resource identifier.
#[derive(Clone, Copy, PartialEq, Eq, Structural, Debug)]
pub struct Rid {
    pub id: u64,
}

/// The engine's heap-backed string type.
#[derive(Clone, PartialEq, Eq, Debug)]
pub struct GString {
    pub value: String,
}

/// An interned name string.
#[derive(Clone, PartialEq, Eq, Debug)]
pub struct StringName {
    pub value: String,
}

/// A path to a node in the scene tree.
#[derive(Clone, PartialEq, Eq, Debug)]
pub struct NodePath {
    pub value: String,
}

/// An ordered association of `Variant` keys to `Variant` values.
///
/// This layer marshals a dictionary as a whole and does not interpret its
/// entries; key uniqueness and lookup are the container's own concern.
#[derive(Clone, PartialEq, Eq, Debug)]
pub struct Dictionary {
    pub entries: Vec<(Variant, Variant)>,
}

/// A contiguous array of bytes.
#[derive(Clone, PartialEq, Eq, Debug)]
pub struct PackedByteArray {
    pub data: Vec<u8>,
}

/// A contiguous array of 32-bit integers.
#[derive(Clone, PartialEq, Eq, Debug)]
pub struct PackedInt32Array {
    pub data: Vec<i32>,
}

/// A contiguous array of 64-bit integers.
#[derive(Clone, PartialEq, Eq, Debug)]
pub struct PackedInt64Array {
    pub data: Vec<i64>,
}

/// A contiguous array of IEEE single bit patterns.
#[derive(Clone, PartialEq, Eq, Debug)]
pub struct PackedFloat32Array {
    pub data: Vec<u32>,
}

/// A contiguous array of IEEE double bit patterns.
#[derive(Clone, PartialEq, Eq, Debug)]
pub struct PackedFloat64Array {
    pub data: Vec<u64>,
}

/// A contiguous array of strings.
#[derive(Clone, PartialEq, Eq, Debug)]
pub struct PackedStringArray {
    pub data: Vec<GString>,
}

/// A contiguous array of two-component real vectors.
#[derive(Clone, PartialEq, Eq, Debug)]
pub struct PackedVector2Array {
    pub data: Vec<Vector2>,
}

/// A contiguous array of three-component real vectors.
#[derive(Clone, PartialEq, Eq, Debug)]
pub struct PackedVector3Array {
    pub data: Vec<Vector3>,
}

/// A contiguous array of colors.
#[derive(Clone, PartialEq, Eq, Debug)]
pub struct PackedColorArray {
    pub data: Vec<Color>,
}

/// A handle to a named signal on an engine object.
#[derive(Clone, PartialEq, Eq, Debug)]
pub struct Signal {
    pub object_id: u64,
    pub name: StringName,
}

/// A handle to a callable method on an engine object.
#[derive(Clone, PartialEq, Eq, Debug)]
pub struct Callable {
    pub object_id: u64,
    pub method: StringName,
}

impl View for GString {
    type V = Seq<char>;

    open spec fn view(&self) -> Seq<char> {
        self.value@
    }
}

impl View for StringName {
    type V = Seq<char>;

    open spec fn view(&self) -> Seq<char> {
        self.value@
    }
}

impl View for NodePath {
    type V = Seq<char>;

    open spec fn view(&self) -> Seq<char> {
        self.value@
    }
}

impl View for PackedByteArray {
    type V = Seq<u8>;

    open spec fn view(&self) -> Seq<u8> {
        self.data@
    }
}

impl View for PackedInt32Array {
    type V = Seq<i32>;

    open spec fn view(&self) -> Seq<i32> {
        self.data@
    }
}

impl View for PackedInt64Array {
    type V = Seq<i64>;

    open spec fn view(&self) -> Seq<i64> {
        self.data@
    }
}

impl View for PackedFloat32Array {
    type V = Seq<u32>;

    open spec fn view(&self) -> Seq<u32> {
        self.data@
    }
}

impl View for PackedFloat64Array {
    type V = Seq<u64>;

    open spec fn view(&self) -> Seq<u64> {
        self.data@
    }
}

/// The sequence of character sequences held by a sequence of strings.
pub open spec fn gstrings_view(s: Seq<GString>) -> Seq<Seq<char>> {
    s.map_values(|g: GString| g@)
}

impl View for PackedStringArray {
    type V = Seq<Seq<char>>;

    open spec fn view(&self) -> Seq<Seq<char>> {
        gstrings_view(self.data@)
    }
}

impl View for PackedVector2Array {
    type V = Seq<Vector2>;

    open spec fn view(&self) -> Seq<Vector2> {
        self.data@
    }
}

impl View for PackedVector3Array {
    type V = Seq<Vector3>;

    open spec fn view(&self) -> Seq<Vector3> {
        self.data@
    }
}

impl View for PackedColorArray {
    type V = Seq<Color>;

    open spec fn view(&self) -> Seq<Color> {
        self.data@
    }
}

impl View for Signal {
    type V = (u64, Seq<char>);

    open spec fn view(&self) -> (u64, Seq<char>) {
        (self.object_id, self.name@)
    }
}

impl View for Callable {
    type V = (u64, Seq<char>);

    open spec fn view(&self) -> (u64, Seq<char>) {
        (self.object_id, self.method@)
    }
}

impl StringName {
    /// Interns the given characters as a name string.
    pub fn from_str(s: &str) -> (r: StringName)
        ensures
            r@ == s@,
    {
        StringName { value: s.to_owned() }
    }
}

} // verus!
