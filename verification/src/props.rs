//! Property IDs and the enumerated values the engine understands.
//!
//! A property ID is an enumerated integer naming a gettable/settable
//! attribute of an entity. The valid set and its integer encoding are fixed
//! by the engine contract and must match exactly on both sides of the call
//! boundary; every constant below is therefore the single source of truth
//! for one name, used both by the entity wrappers and by the engine model's
//! property catalog.

use vstd::prelude::*;

verus! {

pub const PROP_AZIMUTH: i32 = 1;

pub const PROP_BUFFER: i32 = 2;

pub const PROP_CLOSENESS_BOOST: i32 = 3;

pub const PROP_CLOSENESS_BOOST_DISTANCE: i32 = 4;

pub const PROP_DISTANCE_MAX: i32 = 5;

pub const PROP_DISTANCE_MODEL: i32 = 6;

pub const PROP_DISTANCE_REF: i32 = 7;

pub const PROP_ELEVATION: i32 = 8;

pub const PROP_GAIN: i32 = 9;

pub const PROP_PANNER_STRATEGY: i32 = 10;

pub const PROP_PANNING_SCALAR: i32 = 11;

pub const PROP_POSITION: i32 = 12;

pub const PROP_ORIENTATION: i32 = 13;

pub const PROP_ROLLOFF: i32 = 14;

pub const PROP_LOOPING: i32 = 15;

pub const PROP_NOISE_TYPE: i32 = 16;

/// How a panned or 3D source is spatialized.
#[derive(Clone, Copy, Debug, PartialEq, Eq, Structural)]
pub enum PannerStrategy {
    HRTF,
    Stereo,
    Count,
}

impl PannerStrategy {
    /// The engine's integer encoding of this strategy.
    pub open spec fn spec_code(self) -> i32 {
        match self {
            PannerStrategy::HRTF => 0,
            PannerStrategy::Stereo => 1,
            PannerStrategy::Count => 2,
        }
    }

    /// The engine's integer encoding of this strategy.
    pub fn code(self) -> (c: i32)
        ensures
            c == self.spec_code(),
    {
        match self {
            PannerStrategy::HRTF => 0,
            PannerStrategy::Stereo => 1,
            PannerStrategy::Count => 2,
        }
    }

    /// The strategy a code names, if any.
    pub open spec fn spec_from_code(code: i32) -> Option<PannerStrategy> {
        if code == 0 {
            Some(PannerStrategy::HRTF)
        } else if code == 1 {
            Some(PannerStrategy::Stereo)
        } else if code == 2 {
            Some(PannerStrategy::Count)
        } else {
            None
        }
    }

    /// The strategy a code names, if any.
    pub fn from_code(code: i32) -> (r: Option<PannerStrategy>)
        ensures
            r == PannerStrategy::spec_from_code(code),
    {
        if code == 0 {
            Some(PannerStrategy::HRTF)
        } else if code == 1 {
            Some(PannerStrategy::Stereo)
        } else if code == 2 {
            Some(PannerStrategy::Count)
        } else {
            None
        }
    }
}

/// How distance attenuates a 3D source. `Disabled` applies no attenuation.
#[derive(Clone, Copy, Debug, PartialEq, Eq, Structural)]
pub enum DistanceModel {
    Disabled,
    Linear,
    Exponential,
    Inverse,
    Count,
}

impl DistanceModel {
    /// The engine's integer encoding of this model.
    pub open spec fn spec_code(self) -> i32 {
        match self {
            DistanceModel::Disabled => 0,
            DistanceModel::Linear => 1,
            DistanceModel::Exponential => 2,
            DistanceModel::Inverse => 3,
            DistanceModel::Count => 4,
        }
    }

    /// The engine's integer encoding of this model.
    pub fn code(self) -> (c: i32)
        ensures
            c == self.spec_code(),
    {
        match self {
            DistanceModel::Disabled => 0,
            DistanceModel::Linear => 1,
            DistanceModel::Exponential => 2,
            DistanceModel::Inverse => 3,
            DistanceModel::Count => 4,
        }
    }

    /// The model a code names, if any.
    pub open spec fn spec_from_code(code: i32) -> Option<DistanceModel> {
        if code == 0 {
            Some(DistanceModel::Disabled)
        } else if code == 1 {
            Some(DistanceModel::Linear)
        } else if code == 2 {
            Some(DistanceModel::Exponential)
        } else if code == 3 {
            Some(DistanceModel::Inverse)
        } else if code == 4 {
            Some(DistanceModel::Count)
        } else {
            None
        }
    }

    /// The model a code names, if any.
    pub fn from_code(code: i32) -> (r: Option<DistanceModel>)
        ensures
            r == DistanceModel::spec_from_code(code),
    {
        if code == 0 {
            Some(DistanceModel::Disabled)
        } else if code == 1 {
            Some(DistanceModel::Linear)
        } else if code == 2 {
            Some(DistanceModel::Exponential)
        } else if code == 3 {
            Some(DistanceModel::Inverse)
        } else if code == 4 {
            Some(DistanceModel::Count)
        } else {
            None
        }
    }
}

/// The kind of noise a noise generator produces.
#[derive(Clone, Copy, Debug, PartialEq, Eq, Structural)]
pub enum NoiseType {
    Uniform,
    VM,
    FilteredBrown,
    Count,
}

impl NoiseType {
    /// The engine's integer encoding of this noise type.
    pub open spec fn spec_code(self) -> i32 {
        match self {
            NoiseType::Uniform => 0,
            NoiseType::VM => 1,
            NoiseType::FilteredBrown => 2,
            NoiseType::Count => 3,
        }
    }

    /// The engine's integer encoding of this noise type.
    pub fn code(self) -> (c: i32)
        ensures
            c == self.spec_code(),
    {
        match self {
            NoiseType::Uniform => 0,
            NoiseType::VM => 1,
            NoiseType::FilteredBrown => 2,
            NoiseType::Count => 3,
        }
    }

    /// The noise type a code names, if any.
    pub open spec fn spec_from_code(code: i32) -> Option<NoiseType> {
        if code == 0 {
            Some(NoiseType::Uniform)
        } else if code == 1 {
            Some(NoiseType::VM)
        } else if code == 2 {
            Some(NoiseType::FilteredBrown)
        } else if code == 3 {
            Some(NoiseType::Count)
        } else {
            None
        }
    }

    /// The noise type a code names, if any.
    pub fn from_code(code: i32) -> (r: Option<NoiseType>)
        ensures
            r == NoiseType::spec_from_code(code),
    {
        if code == 0 {
            Some(NoiseType::Uniform)
        } else if code == 1 {
            Some(NoiseType::VM)
        } else if code == 2 {
            Some(NoiseType::FilteredBrown)
        } else if code == 3 {
            Some(NoiseType::Count)
        } else {
            None
        }
    }
}

/// The protocol tag of a resource locator handed to stream-backed
/// constructors. Currently the only variant is a filesystem path.
#[derive(Clone, Copy, Debug, PartialEq, Eq, Structural)]
pub enum Protocol {
    File,
}

/// Where the engine writes its log output.
#[derive(Clone, Copy, Debug, PartialEq, Eq, Structural)]
pub enum LoggingBackend {
    Stderr,
}

/// Severity threshold forwarded to the engine's logging configuration.
#[derive(Clone, Copy, Debug, PartialEq, Eq, Structural)]
pub enum LogLevel {
    Error,
    Warn,
    Info,
    Debug,
}

} // verus!
