//! Sources and the `Source` capability traits.
//!
//! `Source` is a capability, not a base class: any entity that exposes a
//! handle usable as a source satisfies it, and all shared operations —
//! attaching and detaching generators, gain — live once in the trait's
//! default bodies, routed through the entity's own handle.
//! `SpatializedSource` refines it with the panner strategy for the source
//! kinds that are spatialized. The traits carry no storage.

use vstd::prelude::*;
use crate::context::Context;
use crate::engine::Engine;
use crate::error::{translate, translated, SynthizerError};
use crate::generators::Generator;
use crate::handle::Handle;
use crate::model::{
    initial_direct_source, initial_panned_source, initial_source3d, spec_add_generator,
    spec_create, spec_free, spec_get_d, spec_get_d3, spec_get_d6, spec_get_i,
    spec_remove_generator, spec_set_d, spec_set_d3, spec_set_d6, spec_set_i, Double3, Double6,
    STATUS_OK,
};
use crate::props::{
    PROP_AZIMUTH, PROP_CLOSENESS_BOOST, PROP_CLOSENESS_BOOST_DISTANCE, PROP_DISTANCE_MAX,
    PROP_DISTANCE_MODEL, PROP_DISTANCE_REF, PROP_ELEVATION, PROP_GAIN, PROP_PANNER_STRATEGY,
    PROP_PANNING_SCALAR, PROP_POSITION, PROP_ORIENTATION, PROP_ROLLOFF,
};

verus! {

/// The capability "exposes a handle usable as a source", with the shared
/// operations every source supports.
pub trait Source {
    /// The handle value this source wraps.
    spec fn id(&self) -> u64;

    /// The handle this source wraps.
    fn handle(&self) -> (h: &Handle)
        ensures
            h.id() == self.id(),
    ;

    /// Attaches a generator to this source; attaching an already-attached
    /// pair succeeds and changes nothing.
    fn add_generator<G: Generator>(&self, e: &mut Engine, generator: &G) -> (r: Result<
        (),
        SynthizerError,
    >)
        ensures
            ({
                let (st, v2) = spec_add_generator(old(e)@, self.id(), generator.id());
                final(e)@ == v2 && translated(r, st, ())
            }),
    {
        let s = e.raw_source_add_generator(self.handle().value(), generator.handle().value());
        translate(s)
    }

    /// Detaches a generator from this source; detaching a pair that is not
    /// attached fails with the engine's "not present" code.
    fn remove_generator<G: Generator>(&self, e: &mut Engine, generator: &G) -> (r: Result<
        (),
        SynthizerError,
    >)
        ensures
            ({
                let (st, v2) = spec_remove_generator(old(e)@, self.id(), generator.id());
                final(e)@ == v2 && translated(r, st, ())
            }),
    {
        let s = e.raw_source_remove_generator(self.handle().value(), generator.handle().value());
        translate(s)
    }

    /// Reads the gain, as IEEE-754 bits.
    fn get_gain(&self, e: &Engine) -> (r: Result<u64, SynthizerError>)
        ensures
            ({
                let (st, x) = spec_get_d(e@, self.id(), PROP_GAIN);
                translated(r, st, x)
            }),
    {
        self.handle().get_d(e, PROP_GAIN)
    }

    /// Writes the gain, as IEEE-754 bits.
    fn set_gain(&self, e: &mut Engine, gain_bits: u64) -> (r: Result<(), SynthizerError>)
        ensures
            ({
                let (st, v2) = spec_set_d(old(e)@, self.id(), PROP_GAIN, gain_bits);
                final(e)@ == v2 && translated(r, st, ())
            }),
    {
        self.handle().set_d(e, PROP_GAIN, gain_bits)
    }
}

/// A source that is spatialized, refining [`Source`] with the panner
/// strategy.
pub trait SpatializedSource: Source {
    /// Reads the panner strategy's integer encoding.
    fn get_panner_strategy(&self, e: &Engine) -> (r: Result<i32, SynthizerError>)
        ensures
            ({
                let (st, x) = spec_get_i(e@, self.id(), PROP_PANNER_STRATEGY);
                translated(r, st, x)
            }),
    {
        self.handle().get_i(e, PROP_PANNER_STRATEGY)
    }

    /// Writes the panner strategy's integer encoding.
    fn set_panner_strategy(&self, e: &mut Engine, value: i32) -> (r: Result<(), SynthizerError>)
        ensures
            ({
                let (st, v2) = spec_set_i(old(e)@, self.id(), PROP_PANNER_STRATEGY, value);
                final(e)@ == v2 && translated(r, st, ())
            }),
    {
        self.handle().set_i(e, PROP_PANNER_STRATEGY, value)
    }
}

/// A source that plays its generators unspatialized.
#[derive(Debug)]
pub struct DirectSource(Handle);

impl DirectSource {
    pub(crate) fn new(e: &mut Engine, context: &Context) -> (r: Result<DirectSource, SynthizerError>)
        ensures
            ({
                let (st, h, v2) = spec_create(old(e)@, Some(context.id()), initial_direct_source());
                final(e)@ == v2 && (match r {
                    Ok(x) => st == STATUS_OK && x.id() == h,
                    Err(er) => st != STATUS_OK && er.spec_code() == st,
                })
            }),
    {
        let (s, h) = e.raw_create_direct_source(context.handle().value());
        match translate(s) {
            Ok(_) => Ok(DirectSource(Handle::from_raw(h))),
            Err(er) => Err(er),
        }
    }

    /// Consumes the wrapper and releases its reference.
    pub fn release(self, e: &mut Engine) -> (r: Result<(), SynthizerError>)
        ensures
            ({
                let (st, v2) = spec_free(old(e)@, self.id());
                final(e)@ == v2 && translated(r, st, ())
            }),
    {
        self.0.release(e)
    }
}

impl Source for DirectSource {
    closed spec fn id(&self) -> u64 {
        self.0.id()
    }

    fn handle(&self) -> (h: &Handle) {
        &self.0
    }
}

/// A source spatialized by azimuth, elevation and a panning scalar.
#[derive(Debug)]
pub struct PannedSource(Handle);

impl PannedSource {
    pub(crate) fn new(e: &mut Engine, context: &Context) -> (r: Result<PannedSource, SynthizerError>)
        ensures
            ({
                let (st, h, v2) = spec_create(old(e)@, Some(context.id()), initial_panned_source());
                final(e)@ == v2 && (match r {
                    Ok(x) => st == STATUS_OK && x.id() == h,
                    Err(er) => st != STATUS_OK && er.spec_code() == st,
                })
            }),
    {
        let (s, h) = e.raw_create_panned_source(context.handle().value());
        match translate(s) {
            Ok(_) => Ok(PannedSource(Handle::from_raw(h))),
            Err(er) => Err(er),
        }
    }

    /// Reads the azimuth, as IEEE-754 bits.
    pub fn get_azimuth(&self, e: &Engine) -> (r: Result<u64, SynthizerError>)
        ensures
            ({
                let (st, x) = spec_get_d(e@, self.id(), PROP_AZIMUTH);
                translated(r, st, x)
            }),
    {
        self.0.get_d(e, PROP_AZIMUTH)
    }

    /// Writes the azimuth, as IEEE-754 bits.
    pub fn set_azimuth(&self, e: &mut Engine, value_bits: u64) -> (r: Result<(), SynthizerError>)
        ensures
            ({
                let (st, v2) = spec_set_d(old(e)@, self.id(), PROP_AZIMUTH, value_bits);
                final(e)@ == v2 && translated(r, st, ())
            }),
    {
        self.0.set_d(e, PROP_AZIMUTH, value_bits)
    }

    /// Reads the elevation, as IEEE-754 bits.
    pub fn get_elevation(&self, e: &Engine) -> (r: Result<u64, SynthizerError>)
        ensures
            ({
                let (st, x) = spec_get_d(e@, self.id(), PROP_ELEVATION);
                translated(r, st, x)
            }),
    {
        self.0.get_d(e, PROP_ELEVATION)
    }

    /// Writes the elevation, as IEEE-754 bits.
    pub fn set_elevation(&self, e: &mut Engine, value_bits: u64) -> (r: Result<(), SynthizerError>)
        ensures
            ({
                let (st, v2) = spec_set_d(old(e)@, self.id(), PROP_ELEVATION, value_bits);
                final(e)@ == v2 && translated(r, st, ())
            }),
    {
        self.0.set_d(e, PROP_ELEVATION, value_bits)
    }

    /// Reads the panning scalar, as IEEE-754 bits.
    pub fn get_panning_scalar(&self, e: &Engine) -> (r: Result<u64, SynthizerError>)
        ensures
            ({
                let (st, x) = spec_get_d(e@, self.id(), PROP_PANNING_SCALAR);
                translated(r, st, x)
            }),
    {
        self.0.get_d(e, PROP_PANNING_SCALAR)
    }

    /// Writes the panning scalar, as IEEE-754 bits.
    pub fn set_panning_scalar(&self, e: &mut Engine, value_bits: u64) -> (r: Result<
        (),
        SynthizerError,
    >)
        ensures
            ({
                let (st, v2) = spec_set_d(old(e)@, self.id(), PROP_PANNING_SCALAR, value_bits);
                final(e)@ == v2 && translated(r, st, ())
            }),
    {
        self.0.set_d(e, PROP_PANNING_SCALAR, value_bits)
    }

    /// Consumes the wrapper and releases its reference.
    pub fn release(self, e: &mut Engine) -> (r: Result<(), SynthizerError>)
        ensures
            ({
                let (st, v2) = spec_free(old(e)@, self.id());
                final(e)@ == v2 && translated(r, st, ())
            }),
    {
        self.0.release(e)
    }
}

impl Source for PannedSource {
    closed spec fn id(&self) -> u64 {
        self.0.id()
    }

    fn handle(&self) -> (h: &Handle) {
        &self.0
    }
}

impl SpatializedSource for PannedSource {

}

/// A source spatialized by a position and orientation in 3D space.
#[derive(Debug)]
pub struct Source3D(Handle);

impl Source3D {
    pub(crate) fn new(e: &mut Engine, context: &Context) -> (r: Result<Source3D, SynthizerError>)
        ensures
            ({
                let (st, h, v2) = spec_create(old(e)@, Some(context.id()), initial_source3d());
                final(e)@ == v2 && (match r {
                    Ok(x) => st == STATUS_OK && x.id() == h,
                    Err(er) => st != STATUS_OK && er.spec_code() == st,
                })
            }),
    {
        let (s, h) = e.raw_create_source3d(context.handle().value());
        match translate(s) {
            Ok(_) => Ok(Source3D(Handle::from_raw(h))),
            Err(er) => Err(er),
        }
    }

    /// Reads the 3D position as one logical value.
    pub fn get_position(&self, e: &Engine) -> (r: Result<Double3, SynthizerError>)
        ensures
            ({
                let (st, x) = spec_get_d3(e@, self.id(), PROP_POSITION);
                translated(r, st, x)
            }),
    {
        self.0.get_d3(e, PROP_POSITION)
    }

    /// Writes the 3D position as one logical value.
    pub fn set_position(&self, e: &mut Engine, position: Double3) -> (r: Result<(), SynthizerError>)
        ensures
            ({
                let (st, v2) = spec_set_d3(old(e)@, self.id(), PROP_POSITION, position);
                final(e)@ == v2 && translated(r, st, ())
            }),
    {
        self.0.set_d3(e, PROP_POSITION, position)
    }

    /// Reads the orientation ("at" then "up") as one logical value.
    pub fn get_orientation(&self, e: &Engine) -> (r: Result<Double6, SynthizerError>)
        ensures
            ({
                let (st, x) = spec_get_d6(e@, self.id(), PROP_ORIENTATION);
                translated(r, st, x)
            }),
    {
        self.0.get_d6(e, PROP_ORIENTATION)
    }

    /// Writes the orientation ("at" then "up") as one logical value.
    pub fn set_orientation(&self, e: &mut Engine, orientation: Double6) -> (r: Result<
        (),
        SynthizerError,
    >)
        ensures
            ({
                let (st, v2) = spec_set_d6(old(e)@, self.id(), PROP_ORIENTATION, orientation);
                final(e)@ == v2 && translated(r, st, ())
            }),
    {
        self.0.set_d6(e, PROP_ORIENTATION, orientation)
    }

    /// Reads the distance model, as IEEE-754 bits.
    pub fn get_distance_model(&self, e: &Engine) -> (r: Result<u64, SynthizerError>)
        ensures
            ({
                let (st, x) = spec_get_d(e@, self.id(), PROP_DISTANCE_MODEL);
                translated(r, st, x)
            }),
    {
        self.0.get_d(e, PROP_DISTANCE_MODEL)
    }

    /// Writes the distance model, as IEEE-754 bits.
    pub fn set_distance_model(&self, e: &mut Engine, value_bits: u64) -> (r: Result<
        (),
        SynthizerError,
    >)
        ensures
            ({
                let (st, v2) = spec_set_d(old(e)@, self.id(), PROP_DISTANCE_MODEL, value_bits);
                final(e)@ == v2 && translated(r, st, ())
            }),
    {
        self.0.set_d(e, PROP_DISTANCE_MODEL, value_bits)
    }

    /// Reads the reference distance, as IEEE-754 bits.
    pub fn get_distance_ref(&self, e: &Engine) -> (r: Result<u64, SynthizerError>)
        ensures
            ({
                let (st, x) = spec_get_d(e@, self.id(), PROP_DISTANCE_REF);
                translated(r, st, x)
            }),
    {
        self.0.get_d(e, PROP_DISTANCE_REF)
    }

    /// Writes the reference distance, as IEEE-754 bits.
    pub fn set_distance_ref(&self, e: &mut Engine, value_bits: u64) -> (r: Result<
        (),
        SynthizerError,
    >)
        ensures
            ({
                let (st, v2) = spec_set_d(old(e)@, self.id(), PROP_DISTANCE_REF, value_bits);
                final(e)@ == v2 && translated(r, st, ())
            }),
    {
        self.0.set_d(e, PROP_DISTANCE_REF, value_bits)
    }

    /// Reads the maximum distance, as IEEE-754 bits.
    pub fn get_distance_max(&self, e: &Engine) -> (r: Result<u64, SynthizerError>)
        ensures
            ({
                let (st, x) = spec_get_d(e@, self.id(), PROP_DISTANCE_MAX);
                translated(r, st, x)
            }),
    {
        self.0.get_d(e, PROP_DISTANCE_MAX)
    }

    /// Writes the maximum distance, as IEEE-754 bits.
    pub fn set_distance_max(&self, e: &mut Engine, value_bits: u64) -> (r: Result<
        (),
        SynthizerError,
    >)
        ensures
            ({
                let (st, v2) = spec_set_d(old(e)@, self.id(), PROP_DISTANCE_MAX, value_bits);
                final(e)@ == v2 && translated(r, st, ())
            }),
    {
        self.0.set_d(e, PROP_DISTANCE_MAX, value_bits)
    }

    /// Reads the rolloff, as IEEE-754 bits.
    pub fn get_rolloff(&self, e: &Engine) -> (r: Result<u64, SynthizerError>)
        ensures
            ({
                let (st, x) = spec_get_d(e@, self.id(), PROP_ROLLOFF);
                translated(r, st, x)
            }),
    {
        self.0.get_d(e, PROP_ROLLOFF)
    }

    /// Writes the rolloff, as IEEE-754 bits.
    pub fn set_rolloff(&self, e: &mut Engine, value_bits: u64) -> (r: Result<(), SynthizerError>)
        ensures
            ({
                let (st, v2) = spec_set_d(old(e)@, self.id(), PROP_ROLLOFF, value_bits);
                final(e)@ == v2 && translated(r, st, ())
            }),
    {
        self.0.set_d(e, PROP_ROLLOFF, value_bits)
    }

    /// Reads the closeness boost, as IEEE-754 bits.
    pub fn get_closeness_boost(&self, e: &Engine) -> (r: Result<u64, SynthizerError>)
        ensures
            ({
                let (st, x) = spec_get_d(e@, self.id(), PROP_CLOSENESS_BOOST);
                translated(r, st, x)
            }),
    {
        self.0.get_d(e, PROP_CLOSENESS_BOOST)
    }

    /// Writes the closeness boost, as IEEE-754 bits.
    pub fn set_closeness_boost(&self, e: &mut Engine, value_bits: u64) -> (r: Result<
        (),
        SynthizerError,
    >)
        ensures
            ({
                let (st, v2) = spec_set_d(old(e)@, self.id(), PROP_CLOSENESS_BOOST, value_bits);
                final(e)@ == v2 && translated(r, st, ())
            }),
    {
        self.0.set_d(e, PROP_CLOSENESS_BOOST, value_bits)
    }

    /// Reads the closeness boost distance, as IEEE-754 bits.
    pub fn get_closeness_boost_distance(&self, e: &Engine) -> (r: Result<u64, SynthizerError>)
        ensures
            ({
                let (st, x) = spec_get_d(e@, self.id(), PROP_CLOSENESS_BOOST_DISTANCE);
                translated(r, st, x)
            }),
    {
        self.0.get_d(e, PROP_CLOSENESS_BOOST_DISTANCE)
    }

    /// Writes the closeness boost distance, as IEEE-754 bits.
    pub fn set_closeness_boost_distance(&self, e: &mut Engine, value_bits: u64) -> (r: Result<
        (),
        SynthizerError,
    >)
        ensures
            ({
                let (st, v2) = spec_set_d(
                    old(e)@,
                    self.id(),
                    PROP_CLOSENESS_BOOST_DISTANCE,
                    value_bits,
                );
                final(e)@ == v2 && translated(r, st, ())
            }),
    {
        self.0.set_d(e, PROP_CLOSENESS_BOOST_DISTANCE, value_bits)
    }

    /// Consumes the wrapper and releases its reference.
    pub fn release(self, e: &mut Engine) -> (r: Result<(), SynthizerError>)
        ensures
            ({
                let (st, v2) = spec_free(old(e)@, self.id());
                final(e)@ == v2 && translated(r, st, ())
            }),
    {
        self.0.release(e)
    }
}

impl Source for Source3D {
    closed spec fn id(&self) -> u64 {
        self.0.id()
    }

    fn handle(&self) -> (h: &Handle) {
        &self.0
    }
}

impl SpatializedSource for Source3D {

}

} // verus!
