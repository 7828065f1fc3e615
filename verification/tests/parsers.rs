//! Tests for the enumeration parsers, the parameter source, and the
//! bit-pattern float carrier.

use scene_params::{
    BvhSplitMethod, CoordinateSystem, Error, FloatBits, Param, ParamList, ParamValue,
    TextureMap,
};
use scene_params::float_bits::{
    F32_EIGHT_THIRTY, F32_HALF, F32_MAX, F32_MINUS_ONE, F32_NINETY, F32_ONE, F32_ONE_HUNDRED,
    F32_TEN, F32_THIRTY_FIVE, F32_THREE_SIXTY, F32_ZERO,
};

fn fb(x: f32) -> FloatBits {
    FloatBits::of(x.to_bits())
}

#[test]
fn parse_coord_sys() {
    assert_eq!(
        CoordinateSystem::from_str("cameraworld"),
        Ok(CoordinateSystem::CameraWorld)
    );
    assert_eq!(
        CoordinateSystem::from_str("camera"),
        Ok(CoordinateSystem::Camera)
    );
    assert_eq!(
        CoordinateSystem::from_str("world"),
        Ok(CoordinateSystem::World)
    );

    assert!(CoordinateSystem::from_str("").is_err());
    assert!(CoordinateSystem::from_str("foo").is_err());
}

#[test]
fn coord_sys_error_kind() {
    assert_eq!(
        CoordinateSystem::from_str("foo"),
        Err(Error::UnknownCoordinateSystem)
    );
    assert_eq!(
        CoordinateSystem::from_str("Camera"),
        Err(Error::UnknownCoordinateSystem)
    );
}

#[test]
fn parse_split_method() {
    assert_eq!(BvhSplitMethod::from_str("sah"), Ok(BvhSplitMethod::Sah));
    assert_eq!(BvhSplitMethod::from_str("middle"), Ok(BvhSplitMethod::Middle));
    assert_eq!(BvhSplitMethod::from_str("equal"), Ok(BvhSplitMethod::Equal));
    assert_eq!(BvhSplitMethod::from_str("hlbvh"), Ok(BvhSplitMethod::Hlbvh));
    assert_eq!(
        BvhSplitMethod::from_str("foo"),
        Err(Error::UnknownSplitMethod)
    );
    assert_eq!(BvhSplitMethod::from_str(""), Err(Error::UnknownSplitMethod));
}

#[test]
fn float_bit_constants_match_their_values() {
    assert_eq!(F32_ZERO, (0.0f32).to_bits());
    assert_eq!(F32_ONE, (1.0f32).to_bits());
    assert_eq!(F32_MINUS_ONE, (-1.0f32).to_bits());
    assert_eq!(F32_HALF, (0.5f32).to_bits());
    assert_eq!(F32_TEN, (10.0f32).to_bits());
    assert_eq!(F32_THIRTY_FIVE, (35.0f32).to_bits());
    assert_eq!(F32_NINETY, (90.0f32).to_bits());
    assert_eq!(F32_ONE_HUNDRED, (100.0f32).to_bits());
    assert_eq!(F32_THREE_SIXTY, (360.0f32).to_bits());
    assert_eq!(F32_EIGHT_THIRTY, (830.0f32).to_bits());
    assert_eq!(F32_MAX, f32::MAX.to_bits());
}

#[test]
fn negation_is_ieee_negation() {
    for x in [0.0f32, 1.0, -1.0, 2.0, 0.5, 360.0, f32::MAX] {
        assert_eq!(fb(x).negated(), fb(-x));
    }
}

#[test]
fn param_list_scalar_lookup_and_defaults() {
    let mut pl = ParamList::new();
    pl.push(Param {
        name: String::from("fov"),
        value: ParamValue::Float(fb(60.0)),
    });
    pl.push(Param {
        name: String::from("maxdepth"),
        value: ParamValue::Integer(9),
    });
    pl.push(Param {
        name: String::from("savefp16"),
        value: ParamValue::Boolean(false),
    });
    pl.push(Param {
        name: String::from("sensor"),
        value: ParamValue::Str(String::from("canon")),
    });

    assert_eq!(pl.float("fov", fb(90.0)), fb(60.0));
    assert_eq!(pl.float("absent", fb(90.0)), fb(90.0));
    assert_eq!(pl.integer("maxdepth", 5), 9);
    assert_eq!(pl.integer("absent", 5), 5);
    assert_eq!(pl.boolean("savefp16"), Some(false));
    assert_eq!(pl.boolean("absent"), None);
    assert_eq!(pl.string("sensor"), Some(String::from("canon")));
    assert_eq!(pl.string("absent"), None);
}

#[test]
fn param_list_kind_mismatch_falls_back_to_default() {
    let mut pl = ParamList::new();
    pl.push(Param {
        name: String::from("fov"),
        value: ParamValue::Integer(60),
    });
    // "fov" is bound, but not to a float scalar: the float accessor hands
    // back the caller's default, and the integer accessor sees the value.
    assert_eq!(pl.float("fov", fb(90.0)), fb(90.0));
    assert_eq!(pl.integer("fov", 5), 60);
    assert_eq!(pl.boolean("fov"), None);
    assert_eq!(pl.string("fov"), None);
}

#[test]
fn param_list_array_lookup() {
    let mut pl = ParamList::new();
    pl.push(Param {
        name: String::from("cropwindow"),
        value: ParamValue::Floats(vec![fb(0.1), fb(0.9), fb(0.2), fb(0.8)]),
    });
    pl.push(Param {
        name: String::from("indices"),
        value: ParamValue::Integers(vec![0, 1, 2]),
    });

    assert_eq!(
        pl.floats("cropwindow"),
        Some(&vec![fb(0.1), fb(0.9), fb(0.2), fb(0.8)])
    );
    assert_eq!(pl.floats("absent"), None);
    assert_eq!(pl.integers("indices"), Some(&vec![0, 1, 2]));
    assert_eq!(pl.integers("absent"), None);
}

#[test]
fn param_list_first_binding_wins() {
    let mut pl = ParamList::new();
    pl.push(Param {
        name: String::from("fov"),
        value: ParamValue::Float(fb(30.0)),
    });
    pl.push(Param {
        name: String::from("fov"),
        value: ParamValue::Float(fb(45.0)),
    });
    assert_eq!(pl.float("fov", fb(90.0)), fb(30.0));
}

#[test]
fn texture_map_lookup() {
    let mut map = TextureMap::new();
    map.bind(String::from("checker"), 0);
    map.bind(String::from("marble"), 7);
    assert_eq!(map.get("checker"), Some(0));
    assert_eq!(map.get("marble"), Some(7));
    assert_eq!(map.get("absent"), None);
}
