//! Contexts: the root entity every generator and source is created under.

use vstd::prelude::*;
use vstd::string::StringSliceAdditionalSpecFns;
use crate::engine::Engine;
use crate::error::{translate, translated, SynthizerError};
use crate::generators::{BufferGenerator, Generator, NoiseGenerator, StreamingGenerator};
use crate::handle::Handle;
use crate::marshal::has_interior_nul;
use crate::model::{
    initial_buffer_generator, initial_direct_source, initial_noise_generator,
    initial_panned_source, initial_source3d, spec_create, spec_free, ObjectState,
    STATUS_INVALID_STRING, STATUS_OK,
};
use crate::props::Protocol;
use crate::sources::{DirectSource, PannedSource, Source, Source3D};

verus! {

/// One engine-side listener and mixing space; the parent of every other
/// entity but buffers.
#[derive(Debug)]
pub struct Context(Handle);

impl Context {
    /// The handle value this context wraps.
    pub closed spec fn id(&self) -> u64 {
        self.0.id()
    }

    /// The handle this context wraps.
    pub fn handle(&self) -> (h: &Handle)
        ensures
            h.id() == self.id(),
    {
        &self.0
    }

    pub(crate) fn new(e: &mut Engine) -> (r: Result<Context, SynthizerError>)
        ensures
            ({
                let (st, h, v2) = spec_create(old(e)@, None, ObjectState::Context);
                final(e)@ == v2 && (match r {
                    Ok(c) => st == STATUS_OK && c.id() == h,
                    Err(er) => st != STATUS_OK && er.spec_code() == st,
                })
            }),
    {
        let (s, h) = e.raw_create_context();
        match translate(s) {
            Ok(_) => Ok(Context(Handle::from_raw(h))),
            Err(er) => Err(er),
        }
    }

    /// Creates a generator streaming from the named resource under this
    /// context.
    pub fn new_streaming_generator(
        &self,
        e: &mut Engine,
        protocol: Protocol,
        path: &str,
        options: &str,
    ) -> (r: Result<StreamingGenerator, SynthizerError>)
        ensures
            ({
                let (st, h, v2) = spec_create(old(e)@, Some(self.id()), ObjectState::StreamingGenerator);
                if has_interior_nul(path.spec_bytes()) || has_interior_nul(options.spec_bytes()) {
                    &&& final(e)@ == old(e)@
                    &&& r matches Err(er) && er.spec_code() == STATUS_INVALID_STRING
                } else {
                    &&& final(e)@ == v2
                    &&& (match r {
                        Ok(g) => st == STATUS_OK && g.id() == h,
                        Err(er) => st != STATUS_OK && er.spec_code() == st,
                    })
                }
            }),
    {
        StreamingGenerator::new(e, self, protocol, path, options)
    }

    /// Creates a buffer generator under this context, its buffer slot
    /// empty.
    pub fn new_buffer_generator(&self, e: &mut Engine) -> (r: Result<
        BufferGenerator,
        SynthizerError,
    >)
        ensures
            ({
                let (st, h, v2) = spec_create(old(e)@, Some(self.id()), initial_buffer_generator());
                final(e)@ == v2 && (match r {
                    Ok(g) => st == STATUS_OK && g.id() == h,
                    Err(er) => st != STATUS_OK && er.spec_code() == st,
                })
            }),
    {
        BufferGenerator::new(e, self)
    }

    /// Creates a noise generator under this context.
    pub fn new_noise_generator(&self, e: &mut Engine, channels: u32) -> (r: Result<
        NoiseGenerator,
        SynthizerError,
    >)
        ensures
            ({
                let (st, h, v2) = spec_create(old(e)@, Some(self.id()), initial_noise_generator());
                final(e)@ == v2 && (match r {
                    Ok(g) => st == STATUS_OK && g.id() == h,
                    Err(er) => st != STATUS_OK && er.spec_code() == st,
                })
            }),
    {
        NoiseGenerator::new(e, self, channels)
    }

    /// Creates a direct source under this context.
    pub fn new_direct_source(&self, e: &mut Engine) -> (r: Result<DirectSource, SynthizerError>)
        ensures
            ({
                let (st, h, v2) = spec_create(old(e)@, Some(self.id()), initial_direct_source());
                final(e)@ == v2 && (match r {
                    Ok(x) => st == STATUS_OK && x.id() == h,
                    Err(er) => st != STATUS_OK && er.spec_code() == st,
                })
            }),
    {
        DirectSource::new(e, self)
    }

    /// Creates a panned source under this context.
    pub fn new_panned_source(&self, e: &mut Engine) -> (r: Result<PannedSource, SynthizerError>)
        ensures
            ({
                let (st, h, v2) = spec_create(old(e)@, Some(self.id()), initial_panned_source());
                final(e)@ == v2 && (match r {
                    Ok(x) => st == STATUS_OK && x.id() == h,
                    Err(er) => st != STATUS_OK && er.spec_code() == st,
                })
            }),
    {
        PannedSource::new(e, self)
    }

    /// Creates a 3D source under this context.
    pub fn new_source3d(&self, e: &mut Engine) -> (r: Result<Source3D, SynthizerError>)
        ensures
            ({
                let (st, h, v2) = spec_create(old(e)@, Some(self.id()), initial_source3d());
                final(e)@ == v2 && (match r {
                    Ok(x) => st == STATUS_OK && x.id() == h,
                    Err(er) => st != STATUS_OK && er.spec_code() == st,
                })
            }),
    {
        Source3D::new(e, self)
    }

    /// Consumes the wrapper and releases its reference.
    pub fn release(self, e: &mut Engine) -> (r: Result<(), SynthizerError>)
        ensures
            ({
                let (st, v2) = spec_free(old(e)@, self.id());
                final(e)@ == v2 && translated(r, st, ())
            }),
    {
        self.0.release(e)
    }
}

} // verus!
