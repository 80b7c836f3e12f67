//! Buffers: decoded audio owned by the engine.
//!
//! A buffer is created from a resource locator (protocol tag, path, options)
//! and queried through dedicated metadata calls rather than the property
//! protocol. Decoding itself is the engine's business; this layer marshals
//! the locator, checks the status, and owns the handle.

use vstd::prelude::*;
use vstd::string::StringSliceAdditionalSpecFns;
use crate::engine::Engine;
use crate::error::{translate, translate_value, translated, SynthizerError};
use crate::handle::Handle;
use crate::marshal::{has_interior_nul, marshal, marshal_protocol};
use crate::model::{
    buffer_query_status, spec_create, spec_free, ObjectState, BUFFER_CHANNELS,
    BUFFER_LENGTH_IN_SAMPLES, BUFFER_LENGTH_IN_SECONDS_BITS, STATUS_INVALID_STRING, STATUS_OK,
};
use crate::props::Protocol;

verus! {

/// Decoded audio owned by the engine, wrapped around one handle.
#[derive(Debug)]
pub struct Buffer(Handle);

impl Buffer {
    /// The handle value this buffer wraps.
    pub closed spec fn id(&self) -> u64 {
        self.0.id()
    }

    /// The handle this buffer wraps.
    pub fn handle(&self) -> (h: &Handle)
        ensures
            h.id() == self.id(),
    {
        &self.0
    }

    pub(crate) fn from_handle(h: Handle) -> (b: Buffer)
        ensures
            b.id() == h.id(),
    {
        Buffer(h)
    }

    /// Decodes the stream named by the locator into a new buffer. A path or
    /// options string with an embedded null byte is rejected before the
    /// call.
    pub fn new(e: &mut Engine, protocol: Protocol, path: &str, options: &str) -> (r: Result<
        Buffer,
        SynthizerError,
    >)
        ensures
            ({
                let (st, h, v2) = spec_create(old(e)@, None, ObjectState::Buffer);
                if has_interior_nul(path.spec_bytes()) || has_interior_nul(options.spec_bytes()) {
                    &&& final(e)@ == old(e)@
                    &&& r matches Err(er) && er.spec_code() == STATUS_INVALID_STRING
                } else {
                    &&& final(e)@ == v2
                    &&& (match r {
                        Ok(b) => st == STATUS_OK && b.id() == h,
                        Err(er) => st != STATUS_OK && er.spec_code() == st,
                    })
                }
            }),
    {
        let tag = marshal_protocol(protocol);
        let path_buf = match marshal(path.as_bytes()) {
            None => {
                return Err(SynthizerError::from_code(STATUS_INVALID_STRING));
            },
            Some(v) => v,
        };
        let options_buf = match marshal(options.as_bytes()) {
            None => {
                return Err(SynthizerError::from_code(STATUS_INVALID_STRING));
            },
            Some(v) => v,
        };
        let (s, h) = e.raw_create_buffer_from_stream(
            tag.as_slice(),
            path_buf.as_slice(),
            options_buf.as_slice(),
        );
        match translate(s) {
            Ok(_) => Ok(Buffer(Handle::from_raw(h))),
            Err(er) => Err(er),
        }
    }

    /// The stream's channel count.
    pub fn get_channels(&self, e: &Engine) -> (r: Result<u32, SynthizerError>)
        ensures
            translated(r, buffer_query_status(e@, self.id()), BUFFER_CHANNELS),
    {
        let (s, c) = e.raw_buffer_get_channels(self.0.value());
        translate_value(s, c)
    }

    /// The stream's length in samples.
    pub fn get_length_in_samples(&self, e: &Engine) -> (r: Result<u32, SynthizerError>)
        ensures
            translated(r, buffer_query_status(e@, self.id()), BUFFER_LENGTH_IN_SAMPLES),
    {
        let (s, n) = e.raw_buffer_get_length_in_samples(self.0.value());
        translate_value(s, n)
    }

    /// The stream's length in seconds, as IEEE-754 bits.
    pub fn get_length_in_seconds(&self, e: &Engine) -> (r: Result<u64, SynthizerError>)
        ensures
            translated(r, buffer_query_status(e@, self.id()), BUFFER_LENGTH_IN_SECONDS_BITS),
    {
        let (s, n) = e.raw_buffer_get_length_in_seconds(self.0.value());
        translate_value(s, n)
    }

    /// Consumes the wrapper and releases its reference.
    pub fn release(self, e: &mut Engine) -> (r: Result<(), SynthizerError>)
        ensures
            ({
                let (st, v2) = spec_free(old(e)@, self.id());
                final(e)@ == v2 && translated(r, st, ())
            }),
    {
        self.0.release(e)
    }
}

} // verus!
