//! Generators: entities that produce audio for a source to play.
//!
//! `Generator` is the capability "exposes a handle usable as a generator";
//! it carries no behavior of its own and exists so that a source's attach
//! and detach operations can be generic over every concrete generator kind.

use vstd::prelude::*;
use vstd::string::StringSliceAdditionalSpecFns;
use crate::buffer::Buffer;
use crate::context::Context;
use crate::engine::Engine;
use crate::error::{translate, translated, SynthizerError};
use crate::handle::Handle;
use crate::marshal::{has_interior_nul, marshal, marshal_protocol};
use crate::model::{
    initial_buffer_generator, initial_noise_generator, spec_create, spec_free, spec_get_d,
    spec_get_i, spec_get_o, spec_set_d, spec_set_i, spec_set_o, ObjectState,
    STATUS_INVALID_STRING, STATUS_OK,
};
use crate::props::{Protocol, PROP_BUFFER, PROP_LOOPING, PROP_NOISE_TYPE, PROP_POSITION};

verus! {

/// The capability "exposes a handle usable as a generator".
pub trait Generator {
    /// The handle value this generator wraps.
    spec fn id(&self) -> u64;

    /// The handle this generator wraps.
    fn handle(&self) -> (h: &Handle)
        ensures
            h.id() == self.id(),
    ;
}

/// A generator that decodes straight from a stream, created from a resource
/// locator and carrying no properties of its own.
#[derive(Debug)]
pub struct StreamingGenerator(Handle);

impl StreamingGenerator {
    pub(crate) fn new(
        e: &mut Engine,
        context: &Context,
        protocol: Protocol,
        path: &str,
        options: &str,
    ) -> (r: Result<StreamingGenerator, SynthizerError>)
        ensures
            ({
                let (st, h, v2) = spec_create(
                    old(e)@,
                    Some(context.id()),
                    ObjectState::StreamingGenerator,
                );
                if has_interior_nul(path.spec_bytes()) || has_interior_nul(options.spec_bytes()) {
                    &&& final(e)@ == old(e)@
                    &&& r matches Err(er) && er.spec_code() == STATUS_INVALID_STRING
                } else {
                    &&& final(e)@ == v2
                    &&& (match r {
                        Ok(g) => st == STATUS_OK && g.id() == h,
                        Err(er) => st != STATUS_OK && er.spec_code() == st,
                    })
                }
            }),
    {
        let tag = marshal_protocol(protocol);
        let path_buf = match marshal(path.as_bytes()) {
            None => {
                return Err(SynthizerError::from_code(STATUS_INVALID_STRING));
            },
            Some(v) => v,
        };
        let options_buf = match marshal(options.as_bytes()) {
            None => {
                return Err(SynthizerError::from_code(STATUS_INVALID_STRING));
            },
            Some(v) => v,
        };
        let (s, h) = e.raw_create_streaming_generator(
            context.handle().value(),
            tag.as_slice(),
            path_buf.as_slice(),
            options_buf.as_slice(),
        );
        match translate(s) {
            Ok(_) => Ok(StreamingGenerator(Handle::from_raw(h))),
            Err(er) => Err(er),
        }
    }

    /// Consumes the wrapper and releases its reference.
    pub fn release(self, e: &mut Engine) -> (r: Result<(), SynthizerError>)
        ensures
            ({
                let (st, v2) = spec_free(old(e)@, self.id());
                final(e)@ == v2 && translated(r, st, ())
            }),
    {
        self.0.release(e)
    }
}

impl Generator for StreamingGenerator {
    closed spec fn id(&self) -> u64 {
        self.0.id()
    }

    fn handle(&self) -> (h: &Handle) {
        &self.0
    }
}

/// A generator that plays a buffer, with a buffer slot, a playback position
/// and a looping flag.
#[derive(Debug)]
pub struct BufferGenerator(Handle);

impl BufferGenerator {
    pub(crate) fn new(e: &mut Engine, context: &Context) -> (r: Result<
        BufferGenerator,
        SynthizerError,
    >)
        ensures
            ({
                let (st, h, v2) = spec_create(
                    old(e)@,
                    Some(context.id()),
                    initial_buffer_generator(),
                );
                final(e)@ == v2 && (match r {
                    Ok(g) => st == STATUS_OK && g.id() == h,
                    Err(er) => st != STATUS_OK && er.spec_code() == st,
                })
            }),
    {
        let (s, h) = e.raw_create_buffer_generator(context.handle().value());
        match translate(s) {
            Ok(_) => Ok(BufferGenerator(Handle::from_raw(h))),
            Err(er) => Err(er),
        }
    }

    /// Reads the buffer slot. On success the returned wrapper owns a fresh
    /// reference to the same underlying buffer — or the null handle if the
    /// slot is empty — so it and the original owner release independently.
    pub fn get_buffer(&self, e: &mut Engine) -> (r: Result<Buffer, SynthizerError>)
        ensures
            ({
                let (st, b, v2) = spec_get_o(old(e)@, self.id(), PROP_BUFFER);
                final(e)@ == v2 && (match r {
                    Ok(buf) => st == STATUS_OK && buf.id() == b,
                    Err(er) => st != STATUS_OK && er.spec_code() == st,
                })
            }),
    {
        match self.0.get_o(e, PROP_BUFFER) {
            Ok(h) => Ok(Buffer::from_handle(h)),
            Err(er) => Err(er),
        }
    }

    /// Writes the buffer slot. The slot takes a reference of its own on the
    /// buffer; the caller keeps ownership of `buffer`.
    pub fn set_buffer(&self, e: &mut Engine, buffer: &Buffer) -> (r: Result<(), SynthizerError>)
        ensures
            ({
                let (st, v2) = spec_set_o(old(e)@, self.id(), PROP_BUFFER, buffer.id());
                final(e)@ == v2 && translated(r, st, ())
            }),
    {
        self.0.set_o(e, PROP_BUFFER, buffer.handle())
    }

    /// Reads the playback position, as IEEE-754 bits.
    pub fn get_position(&self, e: &Engine) -> (r: Result<u64, SynthizerError>)
        ensures
            ({
                let (st, x) = spec_get_d(e@, self.id(), PROP_POSITION);
                translated(r, st, x)
            }),
    {
        self.0.get_d(e, PROP_POSITION)
    }

    /// Writes the playback position, as IEEE-754 bits.
    pub fn set_position(&self, e: &mut Engine, value_bits: u64) -> (r: Result<(), SynthizerError>)
        ensures
            ({
                let (st, v2) = spec_set_d(old(e)@, self.id(), PROP_POSITION, value_bits);
                final(e)@ == v2 && translated(r, st, ())
            }),
    {
        self.0.set_d(e, PROP_POSITION, value_bits)
    }

    /// Reads the looping flag: the stored integer 1 means looping, any
    /// other value means not.
    pub fn get_looping(&self, e: &Engine) -> (r: Result<bool, SynthizerError>)
        ensures
            ({
                let (st, x) = spec_get_i(e@, self.id(), PROP_LOOPING);
                match r {
                    Ok(b) => st == STATUS_OK && b == (x == 1),
                    Err(er) => st != STATUS_OK && er.spec_code() == st,
                }
            }),
    {
        match self.0.get_i(e, PROP_LOOPING) {
            Ok(v) => Ok(v == 1),
            Err(er) => Err(er),
        }
    }

    /// Writes the looping flag, encoded as 1 or 0.
    pub fn set_looping(&self, e: &mut Engine, looping: bool) -> (r: Result<(), SynthizerError>)
        ensures
            ({
                let (st, v2) = spec_set_i(
                    old(e)@,
                    self.id(),
                    PROP_LOOPING,
                    if looping {
                        1i32
                    } else {
                        0i32
                    },
                );
                final(e)@ == v2 && translated(r, st, ())
            }),
    {
        let v: i32 = if looping {
            1
        } else {
            0
        };
        self.0.set_i(e, PROP_LOOPING, v)
    }

    /// Consumes the wrapper and releases its reference; the last release
    /// also lets go of the reference the buffer slot held.
    pub fn release(self, e: &mut Engine) -> (r: Result<(), SynthizerError>)
        ensures
            ({
                let (st, v2) = spec_free(old(e)@, self.id());
                final(e)@ == v2 && translated(r, st, ())
            }),
    {
        self.0.release(e)
    }
}

impl Generator for BufferGenerator {
    closed spec fn id(&self) -> u64 {
        self.0.id()
    }

    fn handle(&self) -> (h: &Handle) {
        &self.0
    }
}

/// A generator that produces noise of a configurable type.
#[derive(Debug)]
pub struct NoiseGenerator(Handle);

impl NoiseGenerator {
    pub(crate) fn new(e: &mut Engine, context: &Context, channels: u32) -> (r: Result<
        NoiseGenerator,
        SynthizerError,
    >)
        ensures
            ({
                let (st, h, v2) = spec_create(old(e)@, Some(context.id()), initial_noise_generator());
                final(e)@ == v2 && (match r {
                    Ok(g) => st == STATUS_OK && g.id() == h,
                    Err(er) => st != STATUS_OK && er.spec_code() == st,
                })
            }),
    {
        let (s, h) = e.raw_create_noise_generator(context.handle().value(), channels);
        match translate(s) {
            Ok(_) => Ok(NoiseGenerator(Handle::from_raw(h))),
            Err(er) => Err(er),
        }
    }

    /// Reads the noise type's integer encoding.
    pub fn get_noise_type(&self, e: &Engine) -> (r: Result<i32, SynthizerError>)
        ensures
            ({
                let (st, x) = spec_get_i(e@, self.id(), PROP_NOISE_TYPE);
                translated(r, st, x)
            }),
    {
        self.0.get_i(e, PROP_NOISE_TYPE)
    }

    /// Writes the noise type's integer encoding.
    pub fn set_noise_type(&self, e: &mut Engine, value: i32) -> (r: Result<(), SynthizerError>)
        ensures
            ({
                let (st, v2) = spec_set_i(old(e)@, self.id(), PROP_NOISE_TYPE, value);
                final(e)@ == v2 && translated(r, st, ())
            }),
    {
        self.0.set_i(e, PROP_NOISE_TYPE, value)
    }

    /// Consumes the wrapper and releases its reference.
    pub fn release(self, e: &mut Engine) -> (r: Result<(), SynthizerError>)
        ensures
            ({
                let (st, v2) = spec_free(old(e)@, self.id());
                final(e)@ == v2 && translated(r, st, ())
            }),
    {
        self.0.release(e)
    }
}

impl Generator for NoiseGenerator {
    closed spec fn id(&self) -> u64 {
        self.0.id()
    }

    fn handle(&self) -> (h: &Handle) {
        &self.0
    }
}

} // verus!
