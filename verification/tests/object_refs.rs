//! Handle ownership: each reference is released exactly once, and a
//! buffer shared between a wrapper and a generator's buffer slot is freed
//! only when every owner has let go.

use synthizer::engine::Engine;
use synthizer::generators::Generator;
use synthizer::lifecycle::Synthizer;
use synthizer::model::STATUS_INVALID_HANDLE;
use synthizer::props::Protocol;

#[test]
fn release_frees_exactly_once() {
    let mut e = Engine::new();
    let guard = Synthizer::new(&mut e).unwrap();
    let ctx = guard.new_context(&mut e).unwrap();
    let h = ctx.handle().value();
    assert_eq!(e.refcount_of(h), Some(1));
    ctx.release(&mut e).unwrap();
    assert_eq!(e.refcount_of(h), Some(0));
    // the wrapper is gone; even a raw second free cannot reach a live
    // reference
    assert_eq!(e.raw_handle_free(h), STATUS_INVALID_HANDLE);
    assert_eq!(e.refcount_of(h), Some(0));
    guard.shutdown(&mut e).unwrap();
}

#[test]
fn buffer_slot_round_trip_shares_one_object() {
    let mut e = Engine::new();
    let guard = Synthizer::new(&mut e).unwrap();
    let ctx = guard.new_context(&mut e).unwrap();
    let gen = ctx.new_buffer_generator(&mut e).unwrap();
    let buffer = synthizer::buffer::Buffer::new(&mut e, Protocol::File, "a.wav", "").unwrap();
    let b = buffer.handle().value();
    assert_eq!(e.refcount_of(b), Some(1));

    // the slot takes a reference of its own; the caller keeps the wrapper
    gen.set_buffer(&mut e, &buffer).unwrap();
    assert_eq!(e.refcount_of(b), Some(2));

    // the retrieved wrapper names the same object and owns a third
    // reference
    let retrieved = gen.get_buffer(&mut e).unwrap();
    assert_eq!(retrieved.handle().value(), b);
    assert_eq!(e.refcount_of(b), Some(3));

    // the two wrappers release independently, without a double free
    retrieved.release(&mut e).unwrap();
    assert_eq!(e.refcount_of(b), Some(2));
    buffer.release(&mut e).unwrap();
    assert_eq!(e.refcount_of(b), Some(1));

    // the generator's death lets go of the slot's reference
    gen.release(&mut e).unwrap();
    assert_eq!(e.refcount_of(b), Some(0));
}

#[test]
fn empty_buffer_slot_reads_null() {
    let mut e = Engine::new();
    let guard = Synthizer::new(&mut e).unwrap();
    let ctx = guard.new_context(&mut e).unwrap();
    let gen = ctx.new_buffer_generator(&mut e).unwrap();
    let retrieved = gen.get_buffer(&mut e).unwrap();
    assert_eq!(retrieved.handle().value(), 0);
}

#[test]
fn duplicate_owns_independent_reference() {
    let mut e = Engine::new();
    let guard = Synthizer::new(&mut e).unwrap();
    let ctx = guard.new_context(&mut e).unwrap();
    let gen = ctx.new_buffer_generator(&mut e).unwrap();
    let h = gen.handle().value();
    let twin = gen.handle().duplicate(&mut e).unwrap();
    assert_eq!(twin.value(), h);
    assert_eq!(e.refcount_of(h), Some(2));
    twin.release(&mut e).unwrap();
    assert_eq!(e.refcount_of(h), Some(1));
    gen.release(&mut e).unwrap();
    assert_eq!(e.refcount_of(h), Some(0));
}

#[test]
fn stale_handle_access_rejected() {
    let mut e = Engine::new();
    let guard = Synthizer::new(&mut e).unwrap();
    let ctx = guard.new_context(&mut e).unwrap();
    let gen = ctx.new_buffer_generator(&mut e).unwrap();
    let h = gen.handle().value();
    gen.release(&mut e).unwrap();
    let (status, _) = e.raw_get_i(h, synthizer::props::PROP_LOOPING);
    assert_eq!(status, STATUS_INVALID_HANDLE);
    assert_eq!(e.raw_set_d(h, synthizer::props::PROP_POSITION, 0), STATUS_INVALID_HANDLE);
}
