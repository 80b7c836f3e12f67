//! The owned handle and the typed property protocol.
//!
//! A [`Handle`] wraps one non-null engine-side resource identifier and owns
//! exactly one outstanding reference to it. It cannot be copied or cloned:
//! duplicating the wrapper without the engine incrementing its reference
//! count is exactly the bug this layer exists to rule out. [`Handle::release`]
//! consumes the wrapper, so each handle's reference is released at most once
//! by construction; [`Handle::duplicate`] is the only way to a second owner,
//! and it takes its own reference first.
//!
//! The property accessors are the five shapes of the typed property
//! protocol. They validate nothing about the property/shape pairing — the
//! engine's catalog is the arbiter — and translate every status through
//! [`crate::error::translate`]; out-parameters are read only on success.

use vstd::prelude::*;
use crate::engine::Engine;
use crate::error::{translate, translate_value, translated, SynthizerError};
use crate::model::{
    spec_free, spec_get_d, spec_get_d3, spec_get_d6, spec_get_i, spec_get_o, spec_inc_ref,
    spec_set_d, spec_set_d3, spec_set_d6, spec_set_i, spec_set_o, Double3, Double6, STATUS_OK,
};

verus! {

/// An owned, non-null resource identifier: one outstanding engine-side
/// reference, released exactly once when the wrapper is consumed.
#[derive(Debug)]
pub struct Handle(u64);

impl Handle {
    /// The raw identifier this wrapper owns.
    pub closed spec fn id(&self) -> u64 {
        self.0
    }

    /// The raw identifier this wrapper owns.
    pub fn value(&self) -> (v: u64)
        ensures
            v == self.id(),
    {
        self.0
    }

    /// Wraps a raw identifier the engine just handed out, taking ownership
    /// of the one reference it carries.
    pub(crate) fn from_raw(h: u64) -> (r: Handle)
        ensures
            r.id() == h,
    {
        Handle(h)
    }

    /// Releases this wrapper's reference. Consuming `self` is what makes a
    /// second release of the same reference impossible; the engine rejects
    /// a release of a handle that is no longer live.
    pub fn release(self, e: &mut Engine) -> (r: Result<(), SynthizerError>)
        ensures
            ({
                let (st, v2) = spec_free(old(e)@, self.id());
                final(e)@ == v2 && translated(r, st, ())
            }),
    {
        let s = e.raw_handle_free(self.0);
        translate(s)
    }

    /// Takes a fresh reference on the same object, so the new wrapper and
    /// this one are independent owners.
    pub fn duplicate(&self, e: &mut Engine) -> (r: Result<Handle, SynthizerError>)
        ensures
            ({
                let (st, v2) = spec_inc_ref(old(e)@, self.id());
                final(e)@ == v2 && (match r {
                    Ok(h) => st == STATUS_OK && h.id() == self.id(),
                    Err(er) => st != STATUS_OK && er.spec_code() == st,
                })
            }),
    {
        let s = e.raw_handle_inc_ref(self.0);
        match translate(s) {
            Ok(_) => Ok(Handle(self.0)),
            Err(er) => Err(er),
        }
    }

    /// Integer-scalar property read.
    pub(crate) fn get_i(&self, e: &Engine, property: i32) -> (r: Result<i32, SynthizerError>)
        ensures
            ({
                let (st, x) = spec_get_i(e@, self.id(), property);
                translated(r, st, x)
            }),
    {
        let (s, x) = e.raw_get_i(self.0, property);
        translate_value(s, x)
    }

    /// Integer-scalar property write.
    pub(crate) fn set_i(&self, e: &mut Engine, property: i32, value: i32) -> (r: Result<
        (),
        SynthizerError,
    >)
        ensures
            ({
                let (st, v2) = spec_set_i(old(e)@, self.id(), property, value);
                final(e)@ == v2 && translated(r, st, ())
            }),
    {
        let s = e.raw_set_i(self.0, property, value);
        translate(s)
    }

    /// Double-scalar property read, as IEEE-754 bits.
    pub(crate) fn get_d(&self, e: &Engine, property: i32) -> (r: Result<u64, SynthizerError>)
        ensures
            ({
                let (st, x) = spec_get_d(e@, self.id(), property);
                translated(r, st, x)
            }),
    {
        let (s, x) = e.raw_get_d(self.0, property);
        translate_value(s, x)
    }

    /// Double-scalar property write, as IEEE-754 bits.
    pub(crate) fn set_d(&self, e: &mut Engine, property: i32, value: u64) -> (r: Result<
        (),
        SynthizerError,
    >)
        ensures
            ({
                let (st, v2) = spec_set_d(old(e)@, self.id(), property, value);
                final(e)@ == v2 && translated(r, st, ())
            }),
    {
        let s = e.raw_set_d(self.0, property, value);
        translate(s)
    }

    /// 3-vector property read, one logical value.
    pub(crate) fn get_d3(&self, e: &Engine, property: i32) -> (r: Result<Double3, SynthizerError>)
        ensures
            ({
                let (st, x) = spec_get_d3(e@, self.id(), property);
                translated(r, st, x)
            }),
    {
        let (s, x) = e.raw_get_d3(self.0, property);
        translate_value(s, x)
    }

    /// 3-vector property write, one logical value.
    pub(crate) fn set_d3(&self, e: &mut Engine, property: i32, value: Double3) -> (r: Result<
        (),
        SynthizerError,
    >)
        ensures
            ({
                let (st, v2) = spec_set_d3(old(e)@, self.id(), property, value);
                final(e)@ == v2 && translated(r, st, ())
            }),
    {
        let s = e.raw_set_d3(self.0, property, value);
        translate(s)
    }

    /// 6-vector property read, one logical value.
    pub(crate) fn get_d6(&self, e: &Engine, property: i32) -> (r: Result<Double6, SynthizerError>)
        ensures
            ({
                let (st, x) = spec_get_d6(e@, self.id(), property);
                translated(r, st, x)
            }),
    {
        let (s, x) = e.raw_get_d6(self.0, property);
        translate_value(s, x)
    }

    /// 6-vector property write, one logical value.
    pub(crate) fn set_d6(&self, e: &mut Engine, property: i32, value: Double6) -> (r: Result<
        (),
        SynthizerError,
    >)
        ensures
            ({
                let (st, v2) = spec_set_d6(old(e)@, self.id(), property, value);
                final(e)@ == v2 && translated(r, st, ())
            }),
    {
        let s = e.raw_set_d6(self.0, property, value);
        translate(s)
    }

    /// Object-reference property read. On success the returned wrapper owns
    /// a fresh reference to the slot's target — or the null handle if the
    /// slot is empty.
    pub(crate) fn get_o(&self, e: &mut Engine, property: i32) -> (r: Result<Handle, SynthizerError>)
        ensures
            ({
                let (st, b, v2) = spec_get_o(old(e)@, self.id(), property);
                final(e)@ == v2 && (match r {
                    Ok(h) => st == STATUS_OK && h.id() == b,
                    Err(er) => st != STATUS_OK && er.spec_code() == st,
                })
            }),
    {
        let (s, b) = e.raw_get_o(self.0, property);
        match translate(s) {
            Ok(_) => Ok(Handle(b)),
            Err(er) => Err(er),
        }
    }

    /// Object-reference property write. The slot takes a reference of its
    /// own; the caller keeps ownership of `value`.
    pub(crate) fn set_o(&self, e: &mut Engine, property: i32, value: &Handle) -> (r: Result<
        (),
        SynthizerError,
    >)
        ensures
            ({
                let (st, v2) = spec_set_o(old(e)@, self.id(), property, value.id());
                final(e)@ == v2 && translated(r, st, ())
            }),
    {
        let s = e.raw_set_o(self.0, property, value.0);
        translate(s)
    }
}

} // verus!
