//! Typed property round trips: for every (entity, property, shape) pair of
//! the catalog, a set followed by a get of the same property reads back the
//! value just set, bit for bit where the value is a double.

use synthizer::engine::Engine;
use synthizer::generators::Generator;
use synthizer::lifecycle::Synthizer;
use synthizer::model::{Double3, Double6};
use synthizer::props::{NoiseType, PannerStrategy, Protocol};
use synthizer::sources::{SpatializedSource, Source};

#[test]
fn looping_round_trips_true_and_false() {
    let mut e = Engine::new();
    let guard = Synthizer::new(&mut e).unwrap();
    let ctx = guard.new_context(&mut e).unwrap();
    let gen = ctx.new_buffer_generator(&mut e).unwrap();
    assert_eq!(gen.get_looping(&e).unwrap(), false);
    gen.set_looping(&mut e, true).unwrap();
    assert_eq!(gen.get_looping(&e).unwrap(), true);
    gen.set_looping(&mut e, false).unwrap();
    assert_eq!(gen.get_looping(&e).unwrap(), false);
    // the boolean is encoded as exactly 1 or 0 on the wire
    gen.set_looping(&mut e, true).unwrap();
    let (status, raw) = e.raw_get_i(gen.handle().value(), synthizer::props::PROP_LOOPING);
    assert_eq!(status, 0);
    assert_eq!(raw, 1);
}

#[test]
fn noise_type_round_trip() {
    let mut e = Engine::new();
    let guard = Synthizer::new(&mut e).unwrap();
    let ctx = guard.new_context(&mut e).unwrap();
    let gen = ctx.new_noise_generator(&mut e, 2).unwrap();
    assert_eq!(gen.get_noise_type(&e).unwrap(), NoiseType::Uniform.code());
    gen.set_noise_type(&mut e, NoiseType::FilteredBrown.code()).unwrap();
    assert_eq!(gen.get_noise_type(&e).unwrap(), NoiseType::FilteredBrown.code());
}

#[test]
fn panner_strategy_round_trip() {
    let mut e = Engine::new();
    let guard = Synthizer::new(&mut e).unwrap();
    let ctx = guard.new_context(&mut e).unwrap();
    let panned = ctx.new_panned_source(&mut e).unwrap();
    panned.set_panner_strategy(&mut e, PannerStrategy::Stereo.code()).unwrap();
    assert_eq!(panned.get_panner_strategy(&e).unwrap(), PannerStrategy::Stereo.code());
    let s3d = ctx.new_source3d(&mut e).unwrap();
    s3d.set_panner_strategy(&mut e, PannerStrategy::HRTF.code()).unwrap();
    assert_eq!(s3d.get_panner_strategy(&e).unwrap(), PannerStrategy::HRTF.code());
}

#[test]
fn gain_round_trips_on_every_source_kind() {
    let mut e = Engine::new();
    let guard = Synthizer::new(&mut e).unwrap();
    let ctx = guard.new_context(&mut e).unwrap();
    let value = 0.25_f64;

    let direct = ctx.new_direct_source(&mut e).unwrap();
    assert_eq!(f64::from_bits(direct.get_gain(&e).unwrap()), 1.0);
    direct.set_gain(&mut e, value.to_bits()).unwrap();
    assert_eq!(f64::from_bits(direct.get_gain(&e).unwrap()), value);

    let panned = ctx.new_panned_source(&mut e).unwrap();
    panned.set_gain(&mut e, value.to_bits()).unwrap();
    assert_eq!(f64::from_bits(panned.get_gain(&e).unwrap()), value);

    let s3d = ctx.new_source3d(&mut e).unwrap();
    s3d.set_gain(&mut e, value.to_bits()).unwrap();
    assert_eq!(f64::from_bits(s3d.get_gain(&e).unwrap()), value);
}

#[test]
fn panned_source_double_properties_round_trip() {
    let mut e = Engine::new();
    let guard = Synthizer::new(&mut e).unwrap();
    let ctx = guard.new_context(&mut e).unwrap();
    let panned = ctx.new_panned_source(&mut e).unwrap();
    panned.set_azimuth(&mut e, 90.0_f64.to_bits()).unwrap();
    panned.set_elevation(&mut e, (-15.5_f64).to_bits()).unwrap();
    panned.set_panning_scalar(&mut e, 0.75_f64.to_bits()).unwrap();
    assert_eq!(f64::from_bits(panned.get_azimuth(&e).unwrap()), 90.0);
    assert_eq!(f64::from_bits(panned.get_elevation(&e).unwrap()), -15.5);
    assert_eq!(f64::from_bits(panned.get_panning_scalar(&e).unwrap()), 0.75);
}

#[test]
fn buffer_generator_position_round_trip() {
    let mut e = Engine::new();
    let guard = Synthizer::new(&mut e).unwrap();
    let ctx = guard.new_context(&mut e).unwrap();
    let gen = ctx.new_buffer_generator(&mut e).unwrap();
    gen.set_position(&mut e, 12.125_f64.to_bits()).unwrap();
    assert_eq!(f64::from_bits(gen.get_position(&e).unwrap()), 12.125);
}

#[test]
fn source3d_position_round_trip_is_exact() {
    let mut e = Engine::new();
    let guard = Synthizer::new(&mut e).unwrap();
    let ctx = guard.new_context(&mut e).unwrap();
    let s3d = ctx.new_source3d(&mut e).unwrap();
    let position = Double3 { x: 1.0_f64.to_bits(), y: 2.0_f64.to_bits(), z: 3.0_f64.to_bits() };
    s3d.set_position(&mut e, position).unwrap();
    let back = s3d.get_position(&e).unwrap();
    assert_eq!(f64::from_bits(back.x), 1.0);
    assert_eq!(f64::from_bits(back.y), 2.0);
    assert_eq!(f64::from_bits(back.z), 3.0);
}

#[test]
fn source3d_orientation_round_trip_is_exact() {
    let mut e = Engine::new();
    let guard = Synthizer::new(&mut e).unwrap();
    let ctx = guard.new_context(&mut e).unwrap();
    let s3d = ctx.new_source3d(&mut e).unwrap();
    let orientation = Double6 {
        x1: 0.0_f64.to_bits(),
        y1: 0.0_f64.to_bits(),
        z1: (-1.0_f64).to_bits(),
        x2: 0.0_f64.to_bits(),
        y2: 1.0_f64.to_bits(),
        z2: 0.0_f64.to_bits(),
    };
    s3d.set_orientation(&mut e, orientation).unwrap();
    let back = s3d.get_orientation(&e).unwrap();
    assert_eq!(f64::from_bits(back.z1), -1.0);
    assert_eq!(f64::from_bits(back.y2), 1.0);
    assert_eq!(back, orientation);
}

#[test]
fn source3d_distance_properties_round_trip() {
    let mut e = Engine::new();
    let guard = Synthizer::new(&mut e).unwrap();
    let ctx = guard.new_context(&mut e).unwrap();
    let s3d = ctx.new_source3d(&mut e).unwrap();
    s3d.set_distance_model(&mut e, 2.0_f64.to_bits()).unwrap();
    s3d.set_distance_ref(&mut e, 1.5_f64.to_bits()).unwrap();
    s3d.set_distance_max(&mut e, 100.0_f64.to_bits()).unwrap();
    s3d.set_rolloff(&mut e, 0.5_f64.to_bits()).unwrap();
    s3d.set_closeness_boost(&mut e, 6.0_f64.to_bits()).unwrap();
    s3d.set_closeness_boost_distance(&mut e, 2.25_f64.to_bits()).unwrap();
    assert_eq!(f64::from_bits(s3d.get_distance_model(&e).unwrap()), 2.0);
    assert_eq!(f64::from_bits(s3d.get_distance_ref(&e).unwrap()), 1.5);
    assert_eq!(f64::from_bits(s3d.get_distance_max(&e).unwrap()), 100.0);
    assert_eq!(f64::from_bits(s3d.get_rolloff(&e).unwrap()), 0.5);
    assert_eq!(f64::from_bits(s3d.get_closeness_boost(&e).unwrap()), 6.0);
    assert_eq!(f64::from_bits(s3d.get_closeness_boost_distance(&e).unwrap()), 2.25);
}

#[test]
fn buffer_metadata_queries() {
    let mut e = Engine::new();
    let _guard = Synthizer::new(&mut e).unwrap();
    let buffer = synthizer::buffer::Buffer::new(&mut e, Protocol::File, "sound.wav", "").unwrap();
    assert_eq!(buffer.get_channels(&e).unwrap(), 1);
    assert_eq!(buffer.get_length_in_samples(&e).unwrap(), 0);
    assert_eq!(f64::from_bits(buffer.get_length_in_seconds(&e).unwrap()), 0.0);
}
