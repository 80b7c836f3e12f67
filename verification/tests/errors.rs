//! Failure translation: every rejected call carries the engine's raw code,
//! and strings with embedded null bytes never reach the engine.

use synthizer::engine::Engine;
use synthizer::lifecycle::Synthizer;
use synthizer::model::{
    STATUS_INVALID_HANDLE, STATUS_INVALID_PROPERTY, STATUS_INVALID_STRING,
    STATUS_NOT_INITIALIZED, STATUS_WRONG_TYPE,
};
use synthizer::generators::Generator;
use synthizer::props::{DistanceModel, LogLevel, NoiseType, PannerStrategy, Protocol};
use synthizer::sources::Source;

#[test]
fn embedded_nul_in_path_rejected() {
    let mut e = Engine::new();
    let _guard = Synthizer::new(&mut e).unwrap();
    let r = synthizer::buffer::Buffer::new(&mut e, Protocol::File, "bad\0path.wav", "");
    assert_eq!(r.unwrap_err().code(), STATUS_INVALID_STRING);
}

#[test]
fn embedded_nul_in_options_rejected() {
    let mut e = Engine::new();
    let guard = Synthizer::new(&mut e).unwrap();
    let ctx = guard.new_context(&mut e).unwrap();
    let r = ctx.new_streaming_generator(&mut e, Protocol::File, "a.ogg", "k=\0v");
    assert_eq!(r.unwrap_err().code(), STATUS_INVALID_STRING);
}

#[test]
fn buffer_creation_requires_initialized_engine() {
    let mut e = Engine::new();
    let r = synthizer::buffer::Buffer::new(&mut e, Protocol::File, "a.wav", "");
    assert_eq!(r.unwrap_err().code(), STATUS_NOT_INITIALIZED);
}

#[test]
fn buffer_query_on_released_buffer_rejected() {
    let mut e = Engine::new();
    let _guard = Synthizer::new(&mut e).unwrap();
    let buffer = synthizer::buffer::Buffer::new(&mut e, Protocol::File, "a.wav", "").unwrap();
    let (status, _) = e.raw_buffer_get_channels(9999);
    assert_eq!(status, STATUS_INVALID_HANDLE);
    buffer.release(&mut e).unwrap();
}

#[test]
fn error_carries_raw_code_unchanged() {
    let mut e = Engine::new();
    let guard = Synthizer::new(&mut e).unwrap();
    guard.shutdown(&mut e).unwrap();
    let again = Synthizer::new(&mut e).unwrap();
    let err = Synthizer::new(&mut e).unwrap_err();
    assert_eq!(err.code(), synthizer::model::STATUS_ALREADY_INITIALIZED);
    assert_eq!(err.clone().code(), err.code());
    again.shutdown(&mut e).unwrap();
}

#[test]
fn property_outside_catalog_rejected() {
    let mut e = Engine::new();
    let guard = Synthizer::new(&mut e).unwrap();
    let ctx = guard.new_context(&mut e).unwrap();
    let source = ctx.new_direct_source(&mut e).unwrap();
    // a direct source has no looping property, and its gain is not an
    // integer property
    let (status, _) = e.raw_get_i(source.handle().value(), synthizer::props::PROP_LOOPING);
    assert_eq!(status, STATUS_INVALID_PROPERTY);
    let status = e.raw_set_i(source.handle().value(), synthizer::props::PROP_GAIN, 1);
    assert_eq!(status, STATUS_INVALID_PROPERTY);
}

#[test]
fn buffer_slot_rejects_non_buffer_target() {
    let mut e = Engine::new();
    let guard = Synthizer::new(&mut e).unwrap();
    let ctx = guard.new_context(&mut e).unwrap();
    let gen = ctx.new_buffer_generator(&mut e).unwrap();
    let status = e.raw_set_o(
        gen.handle().value(),
        synthizer::props::PROP_BUFFER,
        ctx.handle().value(),
    );
    assert_eq!(status, STATUS_WRONG_TYPE);
}

#[test]
fn enum_codes_match_the_engine_contract() {
    assert_eq!(PannerStrategy::HRTF.code(), 0);
    assert_eq!(PannerStrategy::Stereo.code(), 1);
    assert_eq!(DistanceModel::Disabled.code(), 0);
    assert_eq!(DistanceModel::Inverse.code(), 3);
    assert_eq!(NoiseType::Uniform.code(), 0);
    assert_eq!(NoiseType::VM.code(), 1);
    assert_eq!(NoiseType::FilteredBrown.code(), 2);
    assert!(matches!(LogLevel::Warn, LogLevel::Warn));
}

#[test]
fn enum_codes_decode_back() {
    assert_eq!(PannerStrategy::from_code(1), Some(PannerStrategy::Stereo));
    assert_eq!(PannerStrategy::from_code(99), None);
    assert_eq!(DistanceModel::from_code(2), Some(DistanceModel::Exponential));
    assert_eq!(DistanceModel::from_code(-1), None);
    assert_eq!(NoiseType::from_code(NoiseType::FilteredBrown.code()), Some(NoiseType::FilteredBrown));
    assert_eq!(NoiseType::from_code(7), None);
}
