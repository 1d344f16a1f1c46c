//! Round trips, strict tag rejection, the nil and wildcard contracts, and
//! idempotent re-encoding, on concrete values.

use godot_variant::builtin::{
    Aabb, Basis, Callable, Color, Dictionary, FloatVal, GString, NodePath, PackedByteArray,
    PackedColorArray, PackedFloat32Array, PackedFloat64Array, PackedInt32Array, PackedInt64Array,
    PackedStringArray, PackedVector2Array, PackedVector3Array, Plane, Projection, Quaternion,
    Rect2, Rect2i, Rid, Signal, StringName, Transform2D, Transform3D, Vector2, Vector2i, Vector3,
    Vector3i, Vector4, Vector4i,
};
use godot_variant::convert_error::FromVariantError;
use godot_variant::meta::GodotFfiVariant;
use godot_variant::variant::Variant;
use godot_variant::variant_type::VariantType;

fn decode<T: GodotFfiVariant>(v: &Variant) -> Result<T, godot_variant::convert_error::ConvertError> {
    T::ffi_from_variant(v)
}

fn round_trip<T: GodotFfiVariant + PartialEq + std::fmt::Debug + Clone>(value: T, tag: VariantType) {
    let encoded = value.ffi_to_variant();
    assert_eq!(encoded.get_type(), tag);
    let decoded: T = decode(&encoded).unwrap();
    assert_eq!(decoded, value);
}

#[test]
fn round_trip_bool() {
    round_trip(true, VariantType::Bool);
    round_trip(false, VariantType::Bool);
}

#[test]
fn round_trip_int() {
    round_trip(0i64, VariantType::Int);
    round_trip(-123456789i64, VariantType::Int);
    round_trip(i64::MAX, VariantType::Int);
    round_trip(i64::MIN, VariantType::Int);
}

#[test]
fn round_trip_float_bits() {
    round_trip(FloatVal { bits: 2.5f64.to_bits() }, VariantType::Float);
    round_trip(FloatVal { bits: (-0.0f64).to_bits() }, VariantType::Float);
    round_trip(FloatVal { bits: f64::NAN.to_bits() }, VariantType::Float);
}

#[test]
fn round_trip_vectors() {
    round_trip(
        Vector2 { x: 1.0f32.to_bits(), y: 2.0f32.to_bits() },
        VariantType::Vector2,
    );
    round_trip(Vector2i { x: -7, y: 9 }, VariantType::Vector2i);
    round_trip(
        Vector3 { x: 1.0f32.to_bits(), y: 0, z: 3.5f32.to_bits() },
        VariantType::Vector3,
    );
    round_trip(Vector3i { x: 1, y: 2, z: 3 }, VariantType::Vector3i);
    round_trip(Vector4 { x: 0, y: 1, z: 2, w: 3 }, VariantType::Vector4);
    round_trip(Vector4i { x: -1, y: -2, z: -3, w: -4 }, VariantType::Vector4i);
    round_trip(Quaternion { x: 0, y: 0, z: 0, w: 1.0f32.to_bits() }, VariantType::Quaternion);
}

#[test]
fn round_trip_geometry() {
    let v2 = Vector2 { x: 1, y: 2 };
    let v3 = Vector3 { x: 1, y: 2, z: 3 };
    round_trip(Rect2 { position: v2, size: v2 }, VariantType::Rect2);
    round_trip(
        Rect2i { position: Vector2i { x: 0, y: 0 }, size: Vector2i { x: 4, y: 4 } },
        VariantType::Rect2i,
    );
    round_trip(Plane { normal: v3, d: 5 }, VariantType::Plane);
    round_trip(Aabb { position: v3, size: v3 }, VariantType::Aabb);
    let basis = Basis { rows_x: v3, rows_y: v3, rows_z: v3 };
    round_trip(basis, VariantType::Basis);
    round_trip(Transform2D { a: v2, b: v2, origin: v2 }, VariantType::Transform2D);
    round_trip(Transform3D { basis, origin: v3 }, VariantType::Transform3D);
    let v4 = Vector4 { x: 1, y: 2, z: 3, w: 4 };
    round_trip(Projection { x: v4, y: v4, z: v4, w: v4 }, VariantType::Projection);
    round_trip(Color { r: 1, g: 2, b: 3, a: 4 }, VariantType::Color);
    round_trip(Rid { id: 42 }, VariantType::Rid);
}

#[test]
fn round_trip_strings() {
    round_trip(GString { value: String::from("hello") }, VariantType::GString);
    round_trip(GString { value: String::new() }, VariantType::GString);
    round_trip(StringName { value: String::from("ready") }, VariantType::StringName);
    round_trip(NodePath { value: String::from("/root/Main") }, VariantType::NodePath);
}

#[test]
fn round_trip_packed_arrays() {
    round_trip(PackedByteArray { data: vec![0u8, 1, 255] }, VariantType::PackedByteArray);
    round_trip(PackedByteArray { data: vec![] }, VariantType::PackedByteArray);
    round_trip(PackedInt32Array { data: vec![-1, 0, i32::MAX] }, VariantType::PackedInt32Array);
    round_trip(PackedInt64Array { data: vec![i64::MIN, 7] }, VariantType::PackedInt64Array);
    round_trip(
        PackedFloat32Array { data: vec![1.5f32.to_bits(), 0] },
        VariantType::PackedFloat32Array,
    );
    round_trip(
        PackedFloat64Array { data: vec![2.5f64.to_bits()] },
        VariantType::PackedFloat64Array,
    );
    round_trip(
        PackedStringArray {
            data: vec![
                GString { value: String::from("a") },
                GString { value: String::new() },
            ],
        },
        VariantType::PackedStringArray,
    );
    round_trip(
        PackedVector2Array { data: vec![Vector2 { x: 1, y: 2 }] },
        VariantType::PackedVector2Array,
    );
    round_trip(
        PackedVector3Array { data: vec![Vector3 { x: 1, y: 2, z: 3 }] },
        VariantType::PackedVector3Array,
    );
    round_trip(
        PackedColorArray { data: vec![Color { r: 9, g: 8, b: 7, a: 6 }] },
        VariantType::PackedColorArray,
    );
}

#[test]
fn round_trip_handles() {
    round_trip(
        Signal { object_id: 11, name: StringName { value: String::from("pressed") } },
        VariantType::Signal,
    );
    round_trip(
        Callable { object_id: 12, method: StringName { value: String::from("_process") } },
        VariantType::Callable,
    );
}

#[test]
fn round_trip_dictionary() {
    let dict = Dictionary {
        entries: vec![
            (Variant::Int(1), Variant::Bool(true)),
            (
                Variant::GString(GString { value: String::from("key") }),
                Variant::PackedByteArray(PackedByteArray { data: vec![1, 2, 3] }),
            ),
        ],
    };
    round_trip(dict, VariantType::Dictionary);
    round_trip(Dictionary { entries: vec![] }, VariantType::Dictionary);
}

#[test]
fn round_trip_nested_dictionary() {
    let inner = Dictionary { entries: vec![(Variant::Int(2), Variant::Nil)] };
    let outer = Dictionary {
        entries: vec![(Variant::Int(1), Variant::Dictionary(inner))],
    };
    round_trip(outer, VariantType::Dictionary);
}

#[test]
fn strict_rejection_int_vs_float() {
    let float_variant = FloatVal { bits: 1.0f64.to_bits() }.ffi_to_variant();
    let err = decode::<i64>(&float_variant).unwrap_err();
    assert_eq!(
        err.kind,
        FromVariantError::BadType { expected: VariantType::Int, actual: VariantType::Float },
    );
    assert_eq!(err.value, float_variant);

    let int_variant = 3i64.ffi_to_variant();
    let err = decode::<FloatVal>(&int_variant).unwrap_err();
    assert_eq!(
        err.kind(),
        FromVariantError::BadType { expected: VariantType::Float, actual: VariantType::Int },
    );
    assert_eq!(err.value(), &int_variant);
}

#[test]
fn strict_rejection_other_pairs() {
    let b = true.ffi_to_variant();
    let err = decode::<GString>(&b).unwrap_err();
    assert_eq!(
        err.kind,
        FromVariantError::BadType { expected: VariantType::GString, actual: VariantType::Bool },
    );

    let s = StringName { value: String::from("x") }.ffi_to_variant();
    let err = decode::<NodePath>(&s).unwrap_err();
    assert_eq!(
        err.kind,
        FromVariantError::BadType { expected: VariantType::NodePath, actual: VariantType::StringName },
    );

    let a32 = PackedInt32Array { data: vec![1] }.ffi_to_variant();
    let err = decode::<PackedInt64Array>(&a32).unwrap_err();
    assert_eq!(
        err.kind,
        FromVariantError::BadType {
            expected: VariantType::PackedInt64Array,
            actual: VariantType::PackedInt32Array,
        },
    );
}

#[test]
fn nil_contract() {
    let encoded = ().ffi_to_variant();
    assert_eq!(encoded.get_type(), VariantType::Nil);
    assert!(encoded.is_nil());

    decode::<()>(&Variant::nil()).unwrap();

    let not_nil = 1i64.ffi_to_variant();
    let err = decode::<()>(&not_nil).unwrap_err();
    assert_eq!(
        err.kind,
        FromVariantError::BadType { expected: VariantType::Nil, actual: VariantType::Int },
    );
    assert_eq!(err.value, not_nil);
}

#[test]
fn wildcard_accepts_every_tag() {
    let samples = vec![
        Variant::Nil,
        Variant::Bool(false),
        Variant::Int(-5),
        Variant::Float(FloatVal { bits: 0 }),
        Variant::GString(GString { value: String::from("w") }),
        Variant::PackedInt64Array(PackedInt64Array { data: vec![4, 5] }),
        Variant::Dictionary(Dictionary {
            entries: vec![(Variant::Int(1), Variant::Int(2))],
        }),
    ];
    for v in samples {
        let encoded = v.ffi_to_variant();
        assert_eq!(encoded, v);
        let decoded: Variant = decode(&encoded).unwrap();
        assert_eq!(decoded, v);
    }
}

#[test]
fn re_encode_reproduces_variant() {
    let variants = vec![
        Variant::Int(77),
        Variant::GString(GString { value: String::from("text") }),
        Variant::PackedByteArray(PackedByteArray { data: vec![9, 9, 9] }),
        Variant::Dictionary(Dictionary {
            entries: vec![(Variant::Bool(true), Variant::Int(0))],
        }),
    ];

    let v = &variants[0];
    let re = decode::<i64>(v).unwrap().ffi_to_variant();
    assert_eq!(&re, v);
    assert_eq!(re.get_type(), v.get_type());

    let v = &variants[1];
    let re = decode::<GString>(v).unwrap().ffi_to_variant();
    assert_eq!(&re, v);

    let v = &variants[2];
    let re = decode::<PackedByteArray>(v).unwrap().ffi_to_variant();
    assert_eq!(&re, v);

    let v = &variants[3];
    let re = decode::<Dictionary>(v).unwrap().ffi_to_variant();
    assert_eq!(&re, v);
}

#[test]
fn clone_is_deep_and_equal() {
    let original = Variant::Dictionary(Dictionary {
        entries: vec![
            (
                Variant::GString(GString { value: String::from("k") }),
                Variant::PackedStringArray(PackedStringArray {
                    data: vec![GString { value: String::from("v") }],
                }),
            ),
        ],
    });
    let copy = original.clone();
    assert_eq!(copy, original);

    let copy2 = original.clone_variant();
    assert_eq!(copy2, original);
}
