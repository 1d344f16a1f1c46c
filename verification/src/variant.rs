//! The dynamically tagged universal value container.

use vstd::prelude::*;
use crate::builtin::{
    Aabb, Basis, Callable, Color, Dictionary, FloatVal, GString, NodePath, PackedByteArray,
    PackedColorArray, PackedFloat32Array, PackedFloat64Array, PackedInt32Array, PackedInt64Array,
    PackedStringArray, PackedVector2Array, PackedVector3Array, Plane, Projection, Quaternion,
    Rect2, Rect2i, Rid, Signal, StringName, Transform2D, Transform3D, Vector2, Vector2i, Vector3,
    Vector3i, Vector4, Vector4i, gstrings_view,
};
use crate::variant_type::VariantType;

verus! {

broadcast use vstd::std_specs::vec::group_vec_axioms;

/// A tagged union holding any supported builtin value.
///
/// The tag returned by [`Variant::get_type`] always matches the active
/// payload; this is immediate from the representation, which stores the
/// payload in the arm named after its tag. A `Variant` owns its storage:
/// cloning produces an independent copy, deep for heap-backed kinds.
#[derive(PartialEq, Eq, Debug)]
pub enum Variant {
    Nil,
    Bool(bool),
    Int(i64),
    Float(FloatVal),
    Vector2(Vector2),
    Vector2i(Vector2i),
    Vector3(Vector3),
    Vector3i(Vector3i),
    Vector4(Vector4),
    Vector4i(Vector4i),
    Quaternion(Quaternion),
    Color(Color),
    Rect2(Rect2),
    Rect2i(Rect2i),
    Plane(Plane),
    Aabb(Aabb),
    Basis(Basis),
    Transform2D(Transform2D),
    Transform3D(Transform3D),
    Projection(Projection),
    Rid(Rid),
    GString(GString),
    StringName(StringName),
    NodePath(NodePath),
    Dictionary(Dictionary),
    PackedByteArray(PackedByteArray),
    PackedInt32Array(PackedInt32Array),
    PackedInt64Array(PackedInt64Array),
    PackedFloat32Array(PackedFloat32Array),
    PackedFloat64Array(PackedFloat64Array),
    PackedStringArray(PackedStringArray),
    PackedVector2Array(PackedVector2Array),
    PackedVector3Array(PackedVector3Array),
    PackedColorArray(PackedColorArray),
    Signal(Signal),
    Callable(Callable),
}

/// The mathematical value of a `Variant`: the same tagged alternatives with
/// heap-backed storage abstracted to sequences.
pub enum VariantValue {
    Nil,
    Bool(bool),
    Int(i64),
    Float(FloatVal),
    Vector2(Vector2),
    Vector2i(Vector2i),
    Vector3(Vector3),
    Vector3i(Vector3i),
    Vector4(Vector4),
    Vector4i(Vector4i),
    Quaternion(Quaternion),
    Color(Color),
    Rect2(Rect2),
    Rect2i(Rect2i),
    Plane(Plane),
    Aabb(Aabb),
    Basis(Basis),
    Transform2D(Transform2D),
    Transform3D(Transform3D),
    Projection(Projection),
    Rid(Rid),
    GString(Seq<char>),
    StringName(Seq<char>),
    NodePath(Seq<char>),
    Dictionary(Seq<(VariantValue, VariantValue)>),
    PackedByteArray(Seq<u8>),
    PackedInt32Array(Seq<i32>),
    PackedInt64Array(Seq<i64>),
    PackedFloat32Array(Seq<u32>),
    PackedFloat64Array(Seq<u64>),
    PackedStringArray(Seq<Seq<char>>),
    PackedVector2Array(Seq<Vector2>),
    PackedVector3Array(Seq<Vector3>),
    PackedColorArray(Seq<Color>),
    Signal { object_id: u64, name: Seq<char> },
    Callable { object_id: u64, method: Seq<char> },
}

impl VariantValue {
    /// The type tag of this value.
    pub open spec fn tag(self) -> VariantType {
        match self {
            VariantValue::Nil => VariantType::Nil,
            VariantValue::Bool(_) => VariantType::Bool,
            VariantValue::Int(_) => VariantType::Int,
            VariantValue::Float(_) => VariantType::Float,
            VariantValue::Vector2(_) => VariantType::Vector2,
            VariantValue::Vector2i(_) => VariantType::Vector2i,
            VariantValue::Vector3(_) => VariantType::Vector3,
            VariantValue::Vector3i(_) => VariantType::Vector3i,
            VariantValue::Vector4(_) => VariantType::Vector4,
            VariantValue::Vector4i(_) => VariantType::Vector4i,
            VariantValue::Quaternion(_) => VariantType::Quaternion,
            VariantValue::Color(_) => VariantType::Color,
            VariantValue::Rect2(_) => VariantType::Rect2,
            VariantValue::Rect2i(_) => VariantType::Rect2i,
            VariantValue::Plane(_) => VariantType::Plane,
            VariantValue::Aabb(_) => VariantType::Aabb,
            VariantValue::Basis(_) => VariantType::Basis,
            VariantValue::Transform2D(_) => VariantType::Transform2D,
            VariantValue::Transform3D(_) => VariantType::Transform3D,
            VariantValue::Projection(_) => VariantType::Projection,
            VariantValue::Rid(_) => VariantType::Rid,
            VariantValue::GString(_) => VariantType::GString,
            VariantValue::StringName(_) => VariantType::StringName,
            VariantValue::NodePath(_) => VariantType::NodePath,
            VariantValue::Dictionary(_) => VariantType::Dictionary,
            VariantValue::PackedByteArray(_) => VariantType::PackedByteArray,
            VariantValue::PackedInt32Array(_) => VariantType::PackedInt32Array,
            VariantValue::PackedInt64Array(_) => VariantType::PackedInt64Array,
            VariantValue::PackedFloat32Array(_) => VariantType::PackedFloat32Array,
            VariantValue::PackedFloat64Array(_) => VariantType::PackedFloat64Array,
            VariantValue::PackedStringArray(_) => VariantType::PackedStringArray,
            VariantValue::PackedVector2Array(_) => VariantType::PackedVector2Array,
            VariantValue::PackedVector3Array(_) => VariantType::PackedVector3Array,
            VariantValue::PackedColorArray(_) => VariantType::PackedColorArray,
            VariantValue::Signal { .. } => VariantType::Signal,
            VariantValue::Callable { .. } => VariantType::Callable,
        }
    }
}

/// The value held by a `Variant`.
pub open spec fn variant_view(v: Variant) -> VariantValue
    decreases v,
{
    match v {
        Variant::Nil => VariantValue::Nil,
        Variant::Bool(b) => VariantValue::Bool(b),
        Variant::Int(i) => VariantValue::Int(i),
        Variant::Float(f) => VariantValue::Float(f),
        Variant::Vector2(x) => VariantValue::Vector2(x),
        Variant::Vector2i(x) => VariantValue::Vector2i(x),
        Variant::Vector3(x) => VariantValue::Vector3(x),
        Variant::Vector3i(x) => VariantValue::Vector3i(x),
        Variant::Vector4(x) => VariantValue::Vector4(x),
        Variant::Vector4i(x) => VariantValue::Vector4i(x),
        Variant::Quaternion(x) => VariantValue::Quaternion(x),
        Variant::Color(x) => VariantValue::Color(x),
        Variant::Rect2(x) => VariantValue::Rect2(x),
        Variant::Rect2i(x) => VariantValue::Rect2i(x),
        Variant::Plane(x) => VariantValue::Plane(x),
        Variant::Aabb(x) => VariantValue::Aabb(x),
        Variant::Basis(x) => VariantValue::Basis(x),
        Variant::Transform2D(x) => VariantValue::Transform2D(x),
        Variant::Transform3D(x) => VariantValue::Transform3D(x),
        Variant::Projection(x) => VariantValue::Projection(x),
        Variant::Rid(x) => VariantValue::Rid(x),
        Variant::GString(s) => VariantValue::GString(s@),
        Variant::StringName(s) => VariantValue::StringName(s@),
        Variant::NodePath(s) => VariantValue::NodePath(s@),
        Variant::Dictionary(d) => VariantValue::Dictionary(dict_entries_view(d.entries@)),
        Variant::PackedByteArray(a) => VariantValue::PackedByteArray(a@),
        Variant::PackedInt32Array(a) => VariantValue::PackedInt32Array(a@),
        Variant::PackedInt64Array(a) => VariantValue::PackedInt64Array(a@),
        Variant::PackedFloat32Array(a) => VariantValue::PackedFloat32Array(a@),
        Variant::PackedFloat64Array(a) => VariantValue::PackedFloat64Array(a@),
        Variant::PackedStringArray(a) => VariantValue::PackedStringArray(a@),
        Variant::PackedVector2Array(a) => VariantValue::PackedVector2Array(a@),
        Variant::PackedVector3Array(a) => VariantValue::PackedVector3Array(a@),
        Variant::PackedColorArray(a) => VariantValue::PackedColorArray(a@),
        Variant::Signal(s) => VariantValue::Signal { object_id: s.object_id, name: s.name@ },
        Variant::Callable(c) => VariantValue::Callable { object_id: c.object_id, method: c.method@ },
    }
}

/// The values held by a dictionary's entry list, key and value each taken
/// to their mathematical form.
pub open spec fn dict_entries_view(s: Seq<(Variant, Variant)>) -> Seq<(VariantValue, VariantValue)>
    decreases s,
{
    if s.len() == 0 {
        Seq::empty()
    } else {
        dict_entries_view(s.drop_last()).push(
            (variant_view(s.last().0), variant_view(s.last().1)),
        )
    }
}

/// `dict_entries_view` maps entries pointwise.
pub proof fn lemma_dict_entries_view(s: Seq<(Variant, Variant)>)
    ensures
        dict_entries_view(s).len() == s.len(),
        forall|i: int| 0 <= i < s.len() ==> #[trigger] dict_entries_view(s)[i]
            == (variant_view(s[i].0), variant_view(s[i].1)),
    decreases s.len(),
{
    if s.len() > 0 {
        lemma_dict_entries_view(s.drop_last());
    }
}

impl View for Variant {
    type V = VariantValue;

    open spec fn view(&self) -> VariantValue {
        variant_view(*self)
    }
}

impl View for Dictionary {
    type V = Seq<(VariantValue, VariantValue)>;

    open spec fn view(&self) -> Seq<(VariantValue, VariantValue)> {
        dict_entries_view(self.entries@)
    }
}

impl Variant {
    /// Constructs the empty (nil) container.
    pub fn nil() -> (v: Variant)
        ensures
            v@ == VariantValue::Nil,
    {
        Variant::Nil
    }

    /// True iff this container holds the nil value.
    pub fn is_nil(&self) -> (r: bool)
        ensures
            r == (self@ is Nil),
    {
        matches!(self, Variant::Nil)
    }

    /// The tag of the currently held value.
    pub fn get_type(&self) -> (t: VariantType)
        ensures
            t == self@.tag(),
    {
        match self {
            Variant::Nil => VariantType::Nil,
            Variant::Bool(_) => VariantType::Bool,
            Variant::Int(_) => VariantType::Int,
            Variant::Float(_) => VariantType::Float,
            Variant::Vector2(_) => VariantType::Vector2,
            Variant::Vector2i(_) => VariantType::Vector2i,
            Variant::Vector3(_) => VariantType::Vector3,
            Variant::Vector3i(_) => VariantType::Vector3i,
            Variant::Vector4(_) => VariantType::Vector4,
            Variant::Vector4i(_) => VariantType::Vector4i,
            Variant::Quaternion(_) => VariantType::Quaternion,
            Variant::Color(_) => VariantType::Color,
            Variant::Rect2(_) => VariantType::Rect2,
            Variant::Rect2i(_) => VariantType::Rect2i,
            Variant::Plane(_) => VariantType::Plane,
            Variant::Aabb(_) => VariantType::Aabb,
            Variant::Basis(_) => VariantType::Basis,
            Variant::Transform2D(_) => VariantType::Transform2D,
            Variant::Transform3D(_) => VariantType::Transform3D,
            Variant::Projection(_) => VariantType::Projection,
            Variant::Rid(_) => VariantType::Rid,
            Variant::GString(_) => VariantType::GString,
            Variant::StringName(_) => VariantType::StringName,
            Variant::NodePath(_) => VariantType::NodePath,
            Variant::Dictionary(_) => VariantType::Dictionary,
            Variant::PackedByteArray(_) => VariantType::PackedByteArray,
            Variant::PackedInt32Array(_) => VariantType::PackedInt32Array,
            Variant::PackedInt64Array(_) => VariantType::PackedInt64Array,
            Variant::PackedFloat32Array(_) => VariantType::PackedFloat32Array,
            Variant::PackedFloat64Array(_) => VariantType::PackedFloat64Array,
            Variant::PackedStringArray(_) => VariantType::PackedStringArray,
            Variant::PackedVector2Array(_) => VariantType::PackedVector2Array,
            Variant::PackedVector3Array(_) => VariantType::PackedVector3Array,
            Variant::PackedColorArray(_) => VariantType::PackedColorArray,
            Variant::Signal(_) => VariantType::Signal,
            Variant::Callable(_) => VariantType::Callable,
        }
    }
}

/// Copies a vector of plain-data elements.
pub fn clone_scalar_vec<T: Copy>(v: &Vec<T>) -> (r: Vec<T>)
    ensures
        r@ == v@,
{
    let mut r: Vec<T> = Vec::new();
    let mut i: usize = 0;
    while i < v.len()
        invariant
            i <= v.len(),
            r@ == v@.take(i as int),
        decreases v.len() - i,
    {
        r.push(v[i]);
        proof {
            assert(r@ =~= v@.take(i + 1));
        }
        i = i + 1;
    }
    proof {
        assert(v@.take(v@.len() as int) =~= v@);
    }
    r
}

/// Copies a vector of strings, preserving each string's characters.
pub fn clone_gstring_vec(v: &Vec<GString>) -> (r: Vec<GString>)
    ensures
        gstrings_view(r@) == gstrings_view(v@),
{
    let mut r: Vec<GString> = Vec::new();
    let mut i: usize = 0;
    while i < v.len()
        invariant
            i <= v.len(),
            r@.len() == i,
            forall|j: int| 0 <= j < i ==> #[trigger] r@[j]@ == v@[j]@,
        decreases v.len() - i,
    {
        let g = GString { value: v[i].value.clone() };
        r.push(g);
        i = i + 1;
    }
    proof {
        assert(gstrings_view(r@) =~= gstrings_view(v@));
    }
    r
}

impl Variant {
    /// Produces an independent copy of this container: same tag, same value,
    /// deep for heap-backed kinds.
    pub fn clone_variant(&self) -> (out: Variant)
        ensures
            out@ == self@,
        decreases *self,
    {
        match self {
            Variant::Nil => Variant::Nil,
            Variant::Bool(b) => Variant::Bool(*b),
            Variant::Int(i) => Variant::Int(*i),
            Variant::Float(f) => Variant::Float(*f),
            Variant::Vector2(x) => Variant::Vector2(*x),
            Variant::Vector2i(x) => Variant::Vector2i(*x),
            Variant::Vector3(x) => Variant::Vector3(*x),
            Variant::Vector3i(x) => Variant::Vector3i(*x),
            Variant::Vector4(x) => Variant::Vector4(*x),
            Variant::Vector4i(x) => Variant::Vector4i(*x),
            Variant::Quaternion(x) => Variant::Quaternion(*x),
            Variant::Color(x) => Variant::Color(*x),
            Variant::Rect2(x) => Variant::Rect2(*x),
            Variant::Rect2i(x) => Variant::Rect2i(*x),
            Variant::Plane(x) => Variant::Plane(*x),
            Variant::Aabb(x) => Variant::Aabb(*x),
            Variant::Basis(x) => Variant::Basis(*x),
            Variant::Transform2D(x) => Variant::Transform2D(*x),
            Variant::Transform3D(x) => Variant::Transform3D(*x),
            Variant::Projection(x) => Variant::Projection(*x),
            Variant::Rid(x) => Variant::Rid(*x),
            Variant::GString(s) => Variant::GString(GString { value: s.value.clone() }),
            Variant::StringName(s) => Variant::StringName(StringName { value: s.value.clone() }),
            Variant::NodePath(s) => Variant::NodePath(NodePath { value: s.value.clone() }),
            Variant::Dictionary(d) => {
                proof {
                    assert(decreases_to!(*self => self->Dictionary_0));
                }
                Variant::Dictionary(d.deep_copy())
            },
            Variant::PackedByteArray(a) => Variant::PackedByteArray(
                PackedByteArray { data: clone_scalar_vec(&a.data) },
            ),
            Variant::PackedInt32Array(a) => Variant::PackedInt32Array(
                PackedInt32Array { data: clone_scalar_vec(&a.data) },
            ),
            Variant::PackedInt64Array(a) => Variant::PackedInt64Array(
                PackedInt64Array { data: clone_scalar_vec(&a.data) },
            ),
            Variant::PackedFloat32Array(a) => Variant::PackedFloat32Array(
                PackedFloat32Array { data: clone_scalar_vec(&a.data) },
            ),
            Variant::PackedFloat64Array(a) => Variant::PackedFloat64Array(
                PackedFloat64Array { data: clone_scalar_vec(&a.data) },
            ),
            Variant::PackedStringArray(a) => Variant::PackedStringArray(
                PackedStringArray { data: clone_gstring_vec(&a.data) },
            ),
            Variant::PackedVector2Array(a) => Variant::PackedVector2Array(
                PackedVector2Array { data: clone_scalar_vec(&a.data) },
            ),
            Variant::PackedVector3Array(a) => Variant::PackedVector3Array(
                PackedVector3Array { data: clone_scalar_vec(&a.data) },
            ),
            Variant::PackedColorArray(a) => Variant::PackedColorArray(
                PackedColorArray { data: clone_scalar_vec(&a.data) },
            ),
            Variant::Signal(s) => Variant::Signal(
                Signal { object_id: s.object_id, name: StringName { value: s.name.value.clone() } },
            ),
            Variant::Callable(c) => Variant::Callable(
                Callable {
                    object_id: c.object_id,
                    method: StringName { value: c.method.value.clone() },
                },
            ),
        }
    }
}

impl Dictionary {
    /// Produces an independent dictionary holding the same entries in the
    /// same order, each key and value deep-copied.
    pub fn deep_copy(&self) -> (out: Dictionary)
        ensures
            out@ == self@,
        decreases *self,
    {
        let mut entries: Vec<(Variant, Variant)> = Vec::new();
        let mut i: usize = 0;
        while i < self.entries.len()
            invariant
                i <= self.entries.len(),
                entries@.len() == i,
                forall|j: int| 0 <= j < i ==> #[trigger] variant_view(entries@[j].0)
                    == variant_view(self.entries@[j].0)
                    && variant_view(entries@[j].1) == variant_view(self.entries@[j].1),
            decreases self.entries.len() - i,
        {
            proof {
                assert(decreases_to!(*self => self.entries));
                assert(decreases_to!(self.entries => self.entries@));
                assert(decreases_to!(self.entries@ => self.entries@[i as int]));
                assert(decreases_to!(self.entries@[i as int] => self.entries@[i as int].0));
                assert(decreases_to!(self.entries@[i as int] => self.entries@[i as int].1));
            }
            let k = self.entries[i].0.clone_variant();
            let v = self.entries[i].1.clone_variant();
            entries.push((k, v));
            i = i + 1;
        }
        proof {
            lemma_dict_entries_view(entries@);
            lemma_dict_entries_view(self.entries@);
            assert(dict_entries_view(entries@) =~= dict_entries_view(self.entries@));
        }
        Dictionary { entries }
    }
}

impl Clone for Variant {
    /// Same as [`Variant::clone_variant`].
    fn clone(&self) -> (out: Variant)
        ensures
            out@ == self@,
    {
        self.clone_variant()
    }
}

} // verus!
