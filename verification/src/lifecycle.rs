//! The engine lifecycle guard and logging configuration.
//!
//! [`Synthizer`] brackets the engine's life: constructing it initializes the
//! engine, and [`Synthizer::shutdown`] shuts it down. Exactly one guard
//! should exist per engine — a second construction fails with the engine's
//! "already initialized" code. The engine itself does not protect against
//! handles outliving a shutdown, so `shutdown` makes the ordering explicit:
//! it requires every handle to have been released first, and under that
//! requirement it cannot fail.

use vstd::prelude::*;
use crate::context::Context;
use crate::engine::Engine;
use crate::error::{translate, SynthizerError};
use crate::model::{
    no_live_handles, spec_create, spec_initialize, spec_shutdown, ObjectState, STATUS_OK,
};
use crate::props::{LogLevel, LoggingBackend};

verus! {

/// Forwards the logging backend selection to the engine. Accepted before
/// initialization; this layer does not interpret log content.
pub fn configure_logging_backend(e: &mut Engine, backend: LoggingBackend) -> (r: Result<
    (),
    SynthizerError,
>)
    ensures
        r is Ok,
        final(e)@ == (crate::model::EngineView { log_backend: Some(backend), ..old(e)@ }),
{
    let s = e.raw_configure_logging_backend(backend);
    translate(s)
}

/// Forwards the logging severity threshold to the engine. Accepted before
/// initialization.
pub fn set_log_level(e: &mut Engine, level: LogLevel)
    ensures
        final(e)@ == (crate::model::EngineView { log_level: Some(level), ..old(e)@ }),
{
    e.raw_set_log_level(level);
}

/// The engine lifecycle guard: its construction initializes the engine and
/// its consumption by [`Synthizer::shutdown`] shuts the engine down.
#[derive(Debug)]
pub struct Synthizer;

impl Synthizer {
    /// Initializes the engine and returns the guard; fails with the
    /// engine's code if it is already initialized.
    pub fn new(e: &mut Engine) -> (r: Result<Synthizer, SynthizerError>)
        ensures
            ({
                let (st, v2) = spec_initialize(old(e)@);
                final(e)@ == v2 && (match r {
                    Ok(_) => st == STATUS_OK,
                    Err(er) => st != STATUS_OK && er.spec_code() == st,
                })
            }),
            r is Ok <==> !old(e)@.initialized,
    {
        let s = e.raw_initialize();
        match translate(s) {
            Ok(_) => Ok(Synthizer),
            Err(er) => Err(er),
        }
    }

    /// Creates a context. The guard's existence is what makes this call
    /// possible: no context can be constructed before the engine is
    /// initialized.
    pub fn new_context(&self, e: &mut Engine) -> (r: Result<Context, SynthizerError>)
        ensures
            ({
                let (st, h, v2) = spec_create(old(e)@, None, ObjectState::Context);
                final(e)@ == v2 && (match r {
                    Ok(c) => st == STATUS_OK && c.id() == h,
                    Err(er) => st != STATUS_OK && er.spec_code() == st,
                })
            }),
    {
        Context::new(e)
    }

    /// Consumes the guard and shuts the engine down. The engine will not
    /// protect against handles outliving it, so every handle must have been
    /// released first; under that requirement shutdown cannot fail — a
    /// shutdown failure has no recovery path.
    pub fn shutdown(self, e: &mut Engine) -> (r: Result<(), SynthizerError>)
        requires
            old(e)@.initialized,
            no_live_handles(old(e)@),
        ensures
            r is Ok,
            final(e)@ == spec_shutdown(old(e)@).1,
            !final(e)@.initialized,
    {
        let s = e.raw_shutdown();
        translate(s)
    }
}

} // verus!
