//! Engine lifecycle: the guard brackets initialize and shutdown, and no
//! entity can be created before the guard exists.

use synthizer::engine::Engine;
use synthizer::lifecycle::{configure_logging_backend, set_log_level, Synthizer};
use synthizer::model::{STATUS_ALREADY_INITIALIZED, STATUS_NOT_INITIALIZED};
use synthizer::props::{LogLevel, LoggingBackend};

#[test]
fn guard_initializes_engine() {
    let mut e = Engine::new();
    assert!(!e.is_initialized());
    let guard = Synthizer::new(&mut e).unwrap();
    assert!(e.is_initialized());
    guard.shutdown(&mut e).unwrap();
    assert!(!e.is_initialized());
}

#[test]
fn second_guard_rejected() {
    let mut e = Engine::new();
    let guard = Synthizer::new(&mut e).unwrap();
    let second = Synthizer::new(&mut e);
    assert_eq!(second.unwrap_err().code(), STATUS_ALREADY_INITIALIZED);
    guard.shutdown(&mut e).unwrap();
}

#[test]
fn context_requires_initialized_engine() {
    let mut e = Engine::new();
    let (status, handle) = e.raw_create_context();
    assert_eq!(status, STATUS_NOT_INITIALIZED);
    assert_eq!(handle, 0);
}

#[test]
fn context_created_under_guard() {
    let mut e = Engine::new();
    let guard = Synthizer::new(&mut e).unwrap();
    let ctx = guard.new_context(&mut e).unwrap();
    assert!(ctx.handle().value() != 0);
    ctx.release(&mut e).unwrap();
    guard.shutdown(&mut e).unwrap();
}

#[test]
fn shutdown_then_reinitialize() {
    let mut e = Engine::new();
    let guard = Synthizer::new(&mut e).unwrap();
    guard.shutdown(&mut e).unwrap();
    let again = Synthizer::new(&mut e).unwrap();
    assert!(e.is_initialized());
    again.shutdown(&mut e).unwrap();
}

#[test]
fn logging_configuration_accepted_before_initialize() {
    let mut e = Engine::new();
    configure_logging_backend(&mut e, LoggingBackend::Stderr).unwrap();
    set_log_level(&mut e, LogLevel::Debug);
    let guard = Synthizer::new(&mut e).unwrap();
    guard.shutdown(&mut e).unwrap();
}
