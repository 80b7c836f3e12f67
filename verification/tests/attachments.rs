//! Source/generator wiring: attach, detach, and the "not present" failure
//! on detaching a pair that is not attached.

use synthizer::engine::Engine;
use synthizer::generators::Generator;
use synthizer::lifecycle::Synthizer;
use synthizer::model::{STATUS_NOT_PRESENT, STATUS_WRONG_TYPE};
use synthizer::sources::Source;

#[test]
fn second_remove_reports_not_present() {
    let mut e = Engine::new();
    let guard = Synthizer::new(&mut e).unwrap();
    let ctx = guard.new_context(&mut e).unwrap();
    let source = ctx.new_direct_source(&mut e).unwrap();
    let gen = ctx.new_buffer_generator(&mut e).unwrap();

    source.add_generator(&mut e, &gen).unwrap();
    source.remove_generator(&mut e, &gen).unwrap();
    let second = source.remove_generator(&mut e, &gen);
    assert_eq!(second.unwrap_err().code(), STATUS_NOT_PRESENT);
}

#[test]
fn attach_is_idempotent() {
    let mut e = Engine::new();
    let guard = Synthizer::new(&mut e).unwrap();
    let ctx = guard.new_context(&mut e).unwrap();
    let source = ctx.new_panned_source(&mut e).unwrap();
    let gen = ctx.new_noise_generator(&mut e, 1).unwrap();

    source.add_generator(&mut e, &gen).unwrap();
    source.add_generator(&mut e, &gen).unwrap();
    assert!(e.is_attached(source.handle().value(), gen.handle().value()));
    source.remove_generator(&mut e, &gen).unwrap();
    assert!(!e.is_attached(source.handle().value(), gen.handle().value()));
}

#[test]
fn every_source_kind_accepts_every_generator_kind() {
    let mut e = Engine::new();
    let guard = Synthizer::new(&mut e).unwrap();
    let ctx = guard.new_context(&mut e).unwrap();
    let s3d = ctx.new_source3d(&mut e).unwrap();
    let streaming = ctx
        .new_streaming_generator(&mut e, synthizer::props::Protocol::File, "a.ogg", "")
        .unwrap();
    let noise = ctx.new_noise_generator(&mut e, 1).unwrap();
    s3d.add_generator(&mut e, &streaming).unwrap();
    s3d.add_generator(&mut e, &noise).unwrap();
    s3d.remove_generator(&mut e, &streaming).unwrap();
    s3d.remove_generator(&mut e, &noise).unwrap();
}

#[test]
fn attach_rejects_wrong_kinds() {
    let mut e = Engine::new();
    let guard = Synthizer::new(&mut e).unwrap();
    let ctx = guard.new_context(&mut e).unwrap();
    let source = ctx.new_direct_source(&mut e).unwrap();
    let gen = ctx.new_buffer_generator(&mut e).unwrap();
    // a context is neither a source nor a generator
    let status = e.raw_source_add_generator(ctx.handle().value(), gen.handle().value());
    assert_eq!(status, STATUS_WRONG_TYPE);
    let status = e.raw_source_add_generator(source.handle().value(), ctx.handle().value());
    assert_eq!(status, STATUS_WRONG_TYPE);
}
