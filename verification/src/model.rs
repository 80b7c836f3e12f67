//! The mathematical model of the engine's observable state.
//!
//! The engine is a black box behind a call boundary: it accepts
//! (handle, property, value) triples and answers with a status code. This
//! module pins down, as pure specification functions, exactly what each call
//! observes and changes: which status it answers on which state, how
//! reference counts move, and how property slots are read and written. The
//! executable [`crate::engine::Engine`] is verified to refine these
//! transitions call for call, and the laws in [`crate::laws`] are proved
//! directly over them.
//!
//! Stream-backed work (decoding, mixing, output) stays out of scope: the
//! model answers fixed metadata for buffers and carries double-valued
//! properties as uninterpreted IEEE-754 bit patterns.

use vstd::prelude::*;
use crate::props::{
    LogLevel, LoggingBackend, PROP_AZIMUTH, PROP_BUFFER, PROP_CLOSENESS_BOOST,
    PROP_CLOSENESS_BOOST_DISTANCE, PROP_DISTANCE_MAX, PROP_DISTANCE_MODEL, PROP_DISTANCE_REF,
    PROP_ELEVATION, PROP_GAIN, PROP_LOOPING, PROP_NOISE_TYPE, PROP_ORIENTATION,
    PROP_PANNER_STRATEGY, PROP_PANNING_SCALAR, PROP_POSITION, PROP_ROLLOFF,
};

verus! {

/// The engine answered success.
pub const STATUS_OK: i32 = 0;

/// A call was made before the engine was initialized, or after it was shut
/// down.
pub const STATUS_NOT_INITIALIZED: i32 = 1;

/// `initialize` was called while the engine was already initialized.
pub const STATUS_ALREADY_INITIALIZED: i32 = 2;

/// The handle names no live object: it was never bound, or its last
/// reference was already released.
pub const STATUS_INVALID_HANDLE: i32 = 3;

/// The handle is live but names an object of the wrong kind for this call.
pub const STATUS_WRONG_TYPE: i32 = 4;

/// The (object kind, property, shape) triple is not in the engine's
/// catalog.
pub const STATUS_INVALID_PROPERTY: i32 = 5;

/// The generator is not attached to the source it was to be removed from.
pub const STATUS_NOT_PRESENT: i32 = 6;

/// A marshaled string held an embedded null byte; the call was rejected
/// before reaching the engine.
pub const STATUS_INVALID_STRING: i32 = 7;

/// The engine's handle space is exhausted; no further object can be bound.
pub const STATUS_NO_SPACE: i32 = 8;

/// A reference count is saturated and cannot be incremented further.
pub const STATUS_REF_OVERFLOW: i32 = 9;

/// The largest handle value the engine ever binds. Handle `0` is reserved
/// as the null handle and is never bound.
pub const HANDLE_MAX: u64 = 0xFFFF_FFFF;

/// Channel count the model reports for every buffer: the model does not
/// decode streams, so every buffer reads as mono.
pub const BUFFER_CHANNELS: u32 = 1;

/// Sample length the model reports for every buffer.
pub const BUFFER_LENGTH_IN_SAMPLES: u32 = 0;

/// Second length the model reports for every buffer, as IEEE-754 bits
/// (the bit pattern of 0.0).
pub const BUFFER_LENGTH_IN_SECONDS_BITS: u64 = 0;

/// IEEE-754 bit pattern of 1.0, the engine's default gain.
pub const DEFAULT_GAIN_BITS: u64 = 0x3FF0_0000_0000_0000;

/// One 3-vector property value, each lane an IEEE-754 bit pattern.
#[derive(Clone, Copy, Debug, PartialEq, Eq, Structural)]
pub struct Double3 {
    pub x: u64,
    pub y: u64,
    pub z: u64,
}

/// One 6-vector property value: two 3-vectors, "at" then "up", each lane an
/// IEEE-754 bit pattern.
#[derive(Clone, Copy, Debug, PartialEq, Eq, Structural)]
pub struct Double6 {
    pub x1: u64,
    pub y1: u64,
    pub z1: u64,
    pub x2: u64,
    pub y2: u64,
    pub z2: u64,
}

/// The property store of one engine-side object, by kind. Each variant
/// carries exactly the slots of that kind's property catalog; double-valued
/// slots hold IEEE-754 bit patterns the engine never interprets here.
#[derive(Clone, Copy, Debug, PartialEq, Eq, Structural)]
pub enum ObjectState {
    Context,
    Buffer,
    StreamingGenerator,
    BufferGenerator { buffer: Option<u64>, position_bits: u64, looping: i32 },
    NoiseGenerator { noise_type: i32 },
    DirectSource { gain_bits: u64 },
    PannedSource {
        gain_bits: u64,
        panner_strategy: i32,
        azimuth_bits: u64,
        elevation_bits: u64,
        panning_scalar_bits: u64,
    },
    Source3D {
        gain_bits: u64,
        panner_strategy: i32,
        position: Double3,
        orientation: Double6,
        distance_model_bits: u64,
        distance_ref_bits: u64,
        distance_max_bits: u64,
        rolloff_bits: u64,
        closeness_boost_bits: u64,
        closeness_boost_distance_bits: u64,
    },
}

/// One engine-side object: its outstanding reference count and its
/// property store. A count of zero means the object is dead; the engine
/// never rebinds its handle.
#[derive(Clone, Copy, Debug, PartialEq, Eq, Structural)]
pub struct Object {
    pub refcount: u64,
    pub state: ObjectState,
}

/// The engine's observable state: whether it is initialized, the logging
/// configuration, every object ever bound (keyed by handle), the next
/// handle to bind, and the set of (source, generator) attachments.
#[verifier::ext_equal]
pub struct EngineView {
    pub initialized: bool,
    pub log_backend: Option<LoggingBackend>,
    pub log_level: Option<LogLevel>,
    pub next: u64,
    pub objects: Map<u64, Object>,
    pub links: Set<(u64, u64)>,
}

/// The engine state of a freshly loaded process: uninitialized, nothing
/// bound, handles starting at 1.
pub open spec fn initial_view() -> EngineView {
    EngineView {
        initialized: false,
        log_backend: None,
        log_level: None,
        next: 1,
        objects: Map::empty(),
        links: Set::empty(),
    }
}

/// Well-formedness of an engine state: handles are bound contiguously from
/// 1 up to (but excluding) `next`, and the handle space is bounded.
pub open spec fn view_wf(v: EngineView) -> bool {
    &&& 1 <= v.next <= HANDLE_MAX + 1
    &&& forall|h: u64| #[trigger] v.objects.contains_key(h) <==> 1 <= h && h < v.next
}

/// The handle names an object whose reference count is still positive.
pub open spec fn live(v: EngineView, h: u64) -> bool {
    v.objects.contains_key(h) && v.objects[h].refcount > 0
}

pub open spec fn is_context(s: ObjectState) -> bool {
    s is Context
}

pub open spec fn is_buffer(s: ObjectState) -> bool {
    s is Buffer
}

/// The object exposes a handle usable as a generator.
pub open spec fn is_generator(s: ObjectState) -> bool {
    s is StreamingGenerator || s is BufferGenerator || s is NoiseGenerator
}

/// The object exposes a handle usable as a source.
pub open spec fn is_source(s: ObjectState) -> bool {
    s is DirectSource || s is PannedSource || s is Source3D
}

/// `v` with the object at `h` replaced.
pub open spec fn with_object(v: EngineView, h: u64, o: Object) -> EngineView {
    EngineView { objects: v.objects.insert(h, o), ..v }
}

/// `v` with the reference count at `h` replaced, the state kept.
pub open spec fn with_rc(v: EngineView, h: u64, rc: u64) -> EngineView {
    with_object(v, h, Object { refcount: rc, state: v.objects[h].state })
}

/// `v` with the property store at `h` replaced, the count kept.
pub open spec fn with_state(v: EngineView, h: u64, s: ObjectState) -> EngineView {
    with_object(v, h, Object { refcount: v.objects[h].refcount, state: s })
}

// ---------------------------------------------------------------------------
// Lifecycle
// ---------------------------------------------------------------------------

/// `initialize`: brings the engine up; fails if it already is up.
pub open spec fn spec_initialize(v: EngineView) -> (i32, EngineView) {
    if v.initialized {
        (STATUS_ALREADY_INITIALIZED, v)
    } else {
        (STATUS_OK, EngineView { initialized: true, ..v })
    }
}

/// `shutdown`: brings the engine down; fails if it is not up. The engine
/// itself does not protect against live handles outliving the shutdown —
/// ordering is the caller's contract, made explicit on
/// [`crate::lifecycle::Synthizer::shutdown`].
pub open spec fn spec_shutdown(v: EngineView) -> (i32, EngineView) {
    if !v.initialized {
        (STATUS_NOT_INITIALIZED, v)
    } else {
        (STATUS_OK, EngineView { initialized: false, ..v })
    }
}

/// No object holds an outstanding reference.
pub open spec fn no_live_handles(v: EngineView) -> bool {
    forall|h: u64| #[trigger] v.objects.contains_key(h) ==> v.objects[h].refcount == 0
}

// ---------------------------------------------------------------------------
// Object creation and reference counting
// ---------------------------------------------------------------------------

/// The status `create` answers on state `v` with the given parent
/// requirement, before any allocation is attempted.
pub open spec fn create_status(v: EngineView, parent: Option<u64>) -> i32 {
    if !v.initialized {
        STATUS_NOT_INITIALIZED
    } else if parent matches Some(c) && !live(v, c) {
        STATUS_INVALID_HANDLE
    } else if parent matches Some(c) && !is_context(v.objects[c].state) {
        STATUS_WRONG_TYPE
    } else if v.next > HANDLE_MAX {
        STATUS_NO_SPACE
    } else {
        STATUS_OK
    }
}

/// `create`: binds the next handle to a new object with one outstanding
/// reference and the given initial property store. Most entities require a
/// live context as parent; buffers require none.
pub open spec fn spec_create(v: EngineView, parent: Option<u64>, state: ObjectState) -> (
    i32,
    u64,
    EngineView,
) {
    let s = create_status(v, parent);
    if s != STATUS_OK {
        (s, 0u64, v)
    } else {
        (
            STATUS_OK,
            v.next,
            EngineView {
                next: (v.next + 1) as u64,
                objects: v.objects.insert(v.next, Object { refcount: 1, state }),
                ..v
            },
        )
    }
}

/// `handle_free`: releases one outstanding reference. When the last
/// reference goes, the object dies; a dying buffer generator also releases
/// the reference its buffer slot held.
pub open spec fn spec_free(v: EngineView, h: u64) -> (i32, EngineView) {
    if !v.initialized {
        (STATUS_NOT_INITIALIZED, v)
    } else if !live(v, h) {
        (STATUS_INVALID_HANDLE, v)
    } else {
        let rc = v.objects[h].refcount;
        let v1 = with_rc(v, h, (rc - 1) as u64);
        if rc > 1 {
            (STATUS_OK, v1)
        } else {
            match v.objects[h].state {
                ObjectState::BufferGenerator { buffer: Some(b), .. } => if live(v1, b) {
                    (STATUS_OK, with_rc(v1, b, (v1.objects[b].refcount - 1) as u64))
                } else {
                    (STATUS_OK, v1)
                },
                _ => (STATUS_OK, v1),
            }
        }
    }
}

/// `handle_inc_ref`: adds one outstanding reference to a live object, so
/// that two wrappers may own the same object independently.
pub open spec fn spec_inc_ref(v: EngineView, h: u64) -> (i32, EngineView) {
    if !v.initialized {
        (STATUS_NOT_INITIALIZED, v)
    } else if !live(v, h) {
        (STATUS_INVALID_HANDLE, v)
    } else if v.objects[h].refcount == u64::MAX {
        (STATUS_REF_OVERFLOW, v)
    } else {
        (STATUS_OK, with_rc(v, h, (v.objects[h].refcount + 1) as u64))
    }
}

// ---------------------------------------------------------------------------
// The property catalog, per shape
// ---------------------------------------------------------------------------

/// Integer-scalar read: `Some` exactly on the (kind, property) pairs of the
/// catalog's integer column.
pub open spec fn state_get_int(s: ObjectState, p: i32) -> Option<i32> {
    match s {
        ObjectState::BufferGenerator { looping, .. } => if p == PROP_LOOPING {
            Some(looping)
        } else {
            None
        },
        ObjectState::NoiseGenerator { noise_type } => if p == PROP_NOISE_TYPE {
            Some(noise_type)
        } else {
            None
        },
        ObjectState::PannedSource { panner_strategy, .. } => if p == PROP_PANNER_STRATEGY {
            Some(panner_strategy)
        } else {
            None
        },
        ObjectState::Source3D { panner_strategy, .. } => if p == PROP_PANNER_STRATEGY {
            Some(panner_strategy)
        } else {
            None
        },
        _ => None,
    }
}

/// Integer-scalar write; `Some` on exactly the pairs [`state_get_int`]
/// reads.
pub open spec fn state_set_int(s: ObjectState, p: i32, val: i32) -> Option<ObjectState> {
    match s {
        ObjectState::BufferGenerator { buffer, position_bits, looping } => if p == PROP_LOOPING {
            Some(ObjectState::BufferGenerator { buffer, position_bits, looping: val })
        } else {
            None
        },
        ObjectState::NoiseGenerator { .. } => if p == PROP_NOISE_TYPE {
            Some(ObjectState::NoiseGenerator { noise_type: val })
        } else {
            None
        },
        ObjectState::PannedSource {
            gain_bits,
            panner_strategy,
            azimuth_bits,
            elevation_bits,
            panning_scalar_bits,
        } => if p == PROP_PANNER_STRATEGY {
            Some(
                ObjectState::PannedSource {
                    gain_bits,
                    panner_strategy: val,
                    azimuth_bits,
                    elevation_bits,
                    panning_scalar_bits,
                },
            )
        } else {
            None
        },
        ObjectState::Source3D {
            gain_bits,
            panner_strategy,
            position,
            orientation,
            distance_model_bits,
            distance_ref_bits,
            distance_max_bits,
            rolloff_bits,
            closeness_boost_bits,
            closeness_boost_distance_bits,
        } => if p == PROP_PANNER_STRATEGY {
            Some(
                ObjectState::Source3D {
                    gain_bits,
                    panner_strategy: val,
                    position,
                    orientation,
                    distance_model_bits,
                    distance_ref_bits,
                    distance_max_bits,
                    rolloff_bits,
                    closeness_boost_bits,
                    closeness_boost_distance_bits,
                },
            )
        } else {
            None
        },
        _ => None,
    }
}

/// Double-scalar read, as IEEE-754 bits: `Some` exactly on the catalog's
/// double column.
pub open spec fn state_get_dbl(s: ObjectState, p: i32) -> Option<u64> {
    match s {
        ObjectState::BufferGenerator { position_bits, .. } => if p == PROP_POSITION {
            Some(position_bits)
        } else {
            None
        },
        ObjectState::DirectSource { gain_bits } => if p == PROP_GAIN {
            Some(gain_bits)
        } else {
            None
        },
        ObjectState::PannedSource {
            gain_bits,
            azimuth_bits,
            elevation_bits,
            panning_scalar_bits,
            ..
        } => if p == PROP_GAIN {
            Some(gain_bits)
        } else if p == PROP_AZIMUTH {
            Some(azimuth_bits)
        } else if p == PROP_ELEVATION {
            Some(elevation_bits)
        } else if p == PROP_PANNING_SCALAR {
            Some(panning_scalar_bits)
        } else {
            None
        },
        ObjectState::Source3D {
            gain_bits,
            distance_model_bits,
            distance_ref_bits,
            distance_max_bits,
            rolloff_bits,
            closeness_boost_bits,
            closeness_boost_distance_bits,
            ..
        } => if p == PROP_GAIN {
            Some(gain_bits)
        } else if p == PROP_DISTANCE_MODEL {
            Some(distance_model_bits)
        } else if p == PROP_DISTANCE_REF {
            Some(distance_ref_bits)
        } else if p == PROP_DISTANCE_MAX {
            Some(distance_max_bits)
        } else if p == PROP_ROLLOFF {
            Some(rolloff_bits)
        } else if p == PROP_CLOSENESS_BOOST {
            Some(closeness_boost_bits)
        } else if p == PROP_CLOSENESS_BOOST_DISTANCE {
            Some(closeness_boost_distance_bits)
        } else {
            None
        },
        _ => None,
    }
}

/// Double-scalar write; `Some` on exactly the pairs [`state_get_dbl`]
/// reads.
pub open spec fn state_set_dbl(s: ObjectState, p: i32, val: u64) -> Option<ObjectState> {
    match s {
        ObjectState::BufferGenerator { buffer, position_bits, looping } => if p == PROP_POSITION {
            Some(ObjectState::BufferGenerator { buffer, position_bits: val, looping })
        } else {
            None
        },
        ObjectState::DirectSource { .. } => if p == PROP_GAIN {
            Some(ObjectState::DirectSource { gain_bits: val })
        } else {
            None
        },
        ObjectState::PannedSource {
            gain_bits,
            panner_strategy,
            azimuth_bits,
            elevation_bits,
            panning_scalar_bits,
        } => if p == PROP_GAIN {
            Some(
                ObjectState::PannedSource {
                    gain_bits: val,
                    panner_strategy,
                    azimuth_bits,
                    elevation_bits,
                    panning_scalar_bits,
                },
            )
        } else if p == PROP_AZIMUTH {
            Some(
                ObjectState::PannedSource {
                    gain_bits,
                    panner_strategy,
                    azimuth_bits: val,
                    elevation_bits,
                    panning_scalar_bits,
                },
            )
        } else if p == PROP_ELEVATION {
            Some(
                ObjectState::PannedSource {
                    gain_bits,
                    panner_strategy,
                    azimuth_bits,
                    elevation_bits: val,
                    panning_scalar_bits,
                },
            )
        } else if p == PROP_PANNING_SCALAR {
            Some(
                ObjectState::PannedSource {
                    gain_bits,
                    panner_strategy,
                    azimuth_bits,
                    elevation_bits,
                    panning_scalar_bits: val,
                },
            )
        } else {
            None
        },
        ObjectState::Source3D {
            gain_bits,
            panner_strategy,
            position,
            orientation,
            distance_model_bits,
            distance_ref_bits,
            distance_max_bits,
            rolloff_bits,
            closeness_boost_bits,
            closeness_boost_distance_bits,
        } => if p == PROP_GAIN {
            Some(
                ObjectState::Source3D {
                    gain_bits: val,
                    panner_strategy,
                    position,
                    orientation,
                    distance_model_bits,
                    distance_ref_bits,
                    distance_max_bits,
                    rolloff_bits,
                    closeness_boost_bits,
                    closeness_boost_distance_bits,
                },
            )
        } else if p == PROP_DISTANCE_MODEL {
            Some(
                ObjectState::Source3D {
                    gain_bits,
                    panner_strategy,
                    position,
                    orientation,
                    distance_model_bits: val,
                    distance_ref_bits,
                    distance_max_bits,
                    rolloff_bits,
                    closeness_boost_bits,
                    closeness_boost_distance_bits,
                },
            )
        } else if p == PROP_DISTANCE_REF {
            Some(
                ObjectState::Source3D {
                    gain_bits,
                    panner_strategy,
                    position,
                    orientation,
                    distance_model_bits,
                    distance_ref_bits: val,
                    distance_max_bits,
                    rolloff_bits,
                    closeness_boost_bits,
                    closeness_boost_distance_bits,
                },
            )
        } else if p == PROP_DISTANCE_MAX {
            Some(
                ObjectState::Source3D {
                    gain_bits,
                    panner_strategy,
                    position,
                    orientation,
                    distance_model_bits,
                    distance_ref_bits,
                    distance_max_bits: val,
                    rolloff_bits,
                    closeness_boost_bits,
                    closeness_boost_distance_bits,
                },
            )
        } else if p == PROP_ROLLOFF {
            Some(
                ObjectState::Source3D {
                    gain_bits,
                    panner_strategy,
                    position,
                    orientation,
                    distance_model_bits,
                    distance_ref_bits,
                    distance_max_bits,
                    rolloff_bits: val,
                    closeness_boost_bits,
                    closeness_boost_distance_bits,
                },
            )
        } else if p == PROP_CLOSENESS_BOOST {
            Some(
                ObjectState::Source3D {
                    gain_bits,
                    panner_strategy,
                    position,
                    orientation,
                    distance_model_bits,
                    distance_ref_bits,
                    distance_max_bits,
                    rolloff_bits,
                    closeness_boost_bits: val,
                    closeness_boost_distance_bits,
                },
            )
        } else if p == PROP_CLOSENESS_BOOST_DISTANCE {
            Some(
                ObjectState::Source3D {
                    gain_bits,
                    panner_strategy,
                    position,
                    orientation,
                    distance_model_bits,
                    distance_ref_bits,
                    distance_max_bits,
                    rolloff_bits,
                    closeness_boost_bits,
                    closeness_boost_distance_bits: val,
                },
            )
        } else {
            None
        },
        _ => None,
    }
}

/// 3-vector read: `Some` exactly on the catalog's 3-vector column.
pub open spec fn state_get_d3(s: ObjectState, p: i32) -> Option<Double3> {
    match s {
        ObjectState::Source3D { position, .. } => if p == PROP_POSITION {
            Some(position)
        } else {
            None
        },
        _ => None,
    }
}

/// 3-vector write; `Some` on exactly the pairs [`state_get_d3`] reads.
pub open spec fn state_set_d3(s: ObjectState, p: i32, val: Double3) -> Option<ObjectState> {
    match s {
        ObjectState::Source3D {
            gain_bits,
            panner_strategy,
            position,
            orientation,
            distance_model_bits,
            distance_ref_bits,
            distance_max_bits,
            rolloff_bits,
            closeness_boost_bits,
            closeness_boost_distance_bits,
        } => if p == PROP_POSITION {
            Some(
                ObjectState::Source3D {
                    gain_bits,
                    panner_strategy,
                    position: val,
                    orientation,
                    distance_model_bits,
                    distance_ref_bits,
                    distance_max_bits,
                    rolloff_bits,
                    closeness_boost_bits,
                    closeness_boost_distance_bits,
                },
            )
        } else {
            None
        },
        _ => None,
    }
}

/// 6-vector read: `Some` exactly on the catalog's 6-vector column.
pub open spec fn state_get_d6(s: ObjectState, p: i32) -> Option<Double6> {
    match s {
        ObjectState::Source3D { orientation, .. } => if p == PROP_ORIENTATION {
            Some(orientation)
        } else {
            None
        },
        _ => None,
    }
}

/// 6-vector write; `Some` on exactly the pairs [`state_get_d6`] reads.
pub open spec fn state_set_d6(s: ObjectState, p: i32, val: Double6) -> Option<ObjectState> {
    match s {
        ObjectState::Source3D {
            gain_bits,
            panner_strategy,
            position,
            orientation,
            distance_model_bits,
            distance_ref_bits,
            distance_max_bits,
            rolloff_bits,
            closeness_boost_bits,
            closeness_boost_distance_bits,
        } => if p == PROP_ORIENTATION {
            Some(
                ObjectState::Source3D {
                    gain_bits,
                    panner_strategy,
                    position,
                    orientation: val,
                    distance_model_bits,
                    distance_ref_bits,
                    distance_max_bits,
                    rolloff_bits,
                    closeness_boost_bits,
                    closeness_boost_distance_bits,
                },
            )
        } else {
            None
        },
        _ => None,
    }
}

/// Object-reference read: `Some(slot)` exactly on the catalog's
/// object-reference column; the slot itself may be empty.
pub open spec fn state_get_obj(s: ObjectState, p: i32) -> Option<Option<u64>> {
    match s {
        ObjectState::BufferGenerator { buffer, .. } => if p == PROP_BUFFER {
            Some(buffer)
        } else {
            None
        },
        _ => None,
    }
}

/// Object-reference write; `Some` on exactly the pairs [`state_get_obj`]
/// reads.
pub open spec fn state_set_obj(s: ObjectState, p: i32, val: u64) -> Option<ObjectState> {
    match s {
        ObjectState::BufferGenerator { buffer, position_bits, looping } => if p == PROP_BUFFER {
            Some(ObjectState::BufferGenerator { buffer: Some(val), position_bits, looping })
        } else {
            None
        },
        _ => None,
    }
}

// ---------------------------------------------------------------------------
// The typed property protocol, over whole engine states
// ---------------------------------------------------------------------------

/// The status every property access answers before its shape-specific work:
/// the engine must be up, the handle live, and (checked by the caller per
/// shape) the property in the object's catalog.
pub open spec fn access_status(v: EngineView, h: u64) -> i32 {
    if !v.initialized {
        STATUS_NOT_INITIALIZED
    } else if !live(v, h) {
        STATUS_INVALID_HANDLE
    } else {
        STATUS_OK
    }
}

/// `get_i`: integer-scalar property read.
pub open spec fn spec_get_i(v: EngineView, h: u64, p: i32) -> (i32, i32) {
    let s = access_status(v, h);
    if s != STATUS_OK {
        (s, 0i32)
    } else {
        match state_get_int(v.objects[h].state, p) {
            Some(x) => (STATUS_OK, x),
            None => (STATUS_INVALID_PROPERTY, 0i32),
        }
    }
}

/// `set_i`: integer-scalar property write.
pub open spec fn spec_set_i(v: EngineView, h: u64, p: i32, val: i32) -> (i32, EngineView) {
    let s = access_status(v, h);
    if s != STATUS_OK {
        (s, v)
    } else {
        match state_set_int(v.objects[h].state, p, val) {
            Some(ns) => (STATUS_OK, with_state(v, h, ns)),
            None => (STATUS_INVALID_PROPERTY, v),
        }
    }
}

/// `get_d`: double-scalar property read, answered as IEEE-754 bits.
pub open spec fn spec_get_d(v: EngineView, h: u64, p: i32) -> (i32, u64) {
    let s = access_status(v, h);
    if s != STATUS_OK {
        (s, 0u64)
    } else {
        match state_get_dbl(v.objects[h].state, p) {
            Some(x) => (STATUS_OK, x),
            None => (STATUS_INVALID_PROPERTY, 0u64),
        }
    }
}

/// `set_d`: double-scalar property write.
pub open spec fn spec_set_d(v: EngineView, h: u64, p: i32, val: u64) -> (i32, EngineView) {
    let s = access_status(v, h);
    if s != STATUS_OK {
        (s, v)
    } else {
        match state_set_dbl(v.objects[h].state, p, val) {
            Some(ns) => (STATUS_OK, with_state(v, h, ns)),
            None => (STATUS_INVALID_PROPERTY, v),
        }
    }
}

/// `get_d3`: 3-vector property read, one logical value.
pub open spec fn spec_get_d3(v: EngineView, h: u64, p: i32) -> (i32, Double3) {
    let s = access_status(v, h);
    if s != STATUS_OK {
        (s, Double3 { x: 0, y: 0, z: 0 })
    } else {
        match state_get_d3(v.objects[h].state, p) {
            Some(x) => (STATUS_OK, x),
            None => (STATUS_INVALID_PROPERTY, Double3 { x: 0, y: 0, z: 0 }),
        }
    }
}

/// `set_d3`: 3-vector property write, one logical value.
pub open spec fn spec_set_d3(v: EngineView, h: u64, p: i32, val: Double3) -> (i32, EngineView) {
    let s = access_status(v, h);
    if s != STATUS_OK {
        (s, v)
    } else {
        match state_set_d3(v.objects[h].state, p, val) {
            Some(ns) => (STATUS_OK, with_state(v, h, ns)),
            None => (STATUS_INVALID_PROPERTY, v),
        }
    }
}

/// `get_d6`: 6-vector property read, one logical value.
pub open spec fn spec_get_d6(v: EngineView, h: u64, p: i32) -> (i32, Double6) {
    let s = access_status(v, h);
    if s != STATUS_OK {
        (s, Double6 { x1: 0, y1: 0, z1: 0, x2: 0, y2: 0, z2: 0 })
    } else {
        match state_get_d6(v.objects[h].state, p) {
            Some(x) => (STATUS_OK, x),
            None => (STATUS_INVALID_PROPERTY, Double6 { x1: 0, y1: 0, z1: 0, x2: 0, y2: 0, z2: 0 }),
        }
    }
}

/// `set_d6`: 6-vector property write, one logical value.
pub open spec fn spec_set_d6(v: EngineView, h: u64, p: i32, val: Double6) -> (i32, EngineView) {
    let s = access_status(v, h);
    if s != STATUS_OK {
        (s, v)
    } else {
        match state_set_d6(v.objects[h].state, p, val) {
            Some(ns) => (STATUS_OK, with_state(v, h, ns)),
            None => (STATUS_INVALID_PROPERTY, v),
        }
    }
}

/// `get_o`: object-reference property read. An empty slot answers the null
/// handle and changes nothing; a filled slot hands out one new reference to
/// its target, so the caller owns the handle it receives.
pub open spec fn spec_get_o(v: EngineView, h: u64, p: i32) -> (i32, u64, EngineView) {
    let s = access_status(v, h);
    if s != STATUS_OK {
        (s, 0u64, v)
    } else {
        match state_get_obj(v.objects[h].state, p) {
            Some(slot) => match slot {
                None => (STATUS_OK, 0u64, v),
                Some(b) => {
                    let (s2, v2) = spec_inc_ref(v, b);
                    if s2 != STATUS_OK {
                        (s2, 0u64, v)
                    } else {
                        (STATUS_OK, b, v2)
                    }
                },
            },
            None => (STATUS_INVALID_PROPERTY, 0u64, v),
        }
    }
}

/// `set_o`: object-reference property write. The slot takes a reference of
/// its own on the new target — the caller keeps its ownership — and
/// releases the reference it held on any previous target.
pub open spec fn spec_set_o(v: EngineView, h: u64, p: i32, target: u64) -> (i32, EngineView) {
    let s = access_status(v, h);
    if s != STATUS_OK {
        (s, v)
    } else if state_get_obj(v.objects[h].state, p) is None {
        (STATUS_INVALID_PROPERTY, v)
    } else if !live(v, target) {
        (STATUS_INVALID_HANDLE, v)
    } else if !is_buffer(v.objects[target].state) {
        (STATUS_WRONG_TYPE, v)
    } else {
        let (s2, v2) = spec_inc_ref(v, target);
        if s2 != STATUS_OK {
            (s2, v)
        } else {
            let old_slot = state_get_obj(v.objects[h].state, p)->Some_0;
            let v3 = match old_slot {
                Some(b0) => if live(v2, b0) {
                    with_rc(v2, b0, (v2.objects[b0].refcount - 1) as u64)
                } else {
                    v2
                },
                None => v2,
            };
            (STATUS_OK, with_state(v3, h, state_set_obj(v3.objects[h].state, p, target)->Some_0))
        }
    }
}

// ---------------------------------------------------------------------------
// Sources and generators
// ---------------------------------------------------------------------------

/// `source_add_generator`: attaches a generator to a source. Attaching an
/// already-attached pair succeeds and changes nothing.
pub open spec fn spec_add_generator(v: EngineView, src: u64, gen: u64) -> (i32, EngineView) {
    if !v.initialized {
        (STATUS_NOT_INITIALIZED, v)
    } else if !live(v, src) || !live(v, gen) {
        (STATUS_INVALID_HANDLE, v)
    } else if !is_source(v.objects[src].state) || !is_generator(v.objects[gen].state) {
        (STATUS_WRONG_TYPE, v)
    } else {
        (STATUS_OK, EngineView { links: v.links.insert((src, gen)), ..v })
    }
}

/// `source_remove_generator`: detaches a generator from a source; removing
/// a pair that is not attached answers "not present" rather than succeeding
/// silently.
pub open spec fn spec_remove_generator(v: EngineView, src: u64, gen: u64) -> (i32, EngineView) {
    if !v.initialized {
        (STATUS_NOT_INITIALIZED, v)
    } else if !live(v, src) || !live(v, gen) {
        (STATUS_INVALID_HANDLE, v)
    } else if !is_source(v.objects[src].state) || !is_generator(v.objects[gen].state) {
        (STATUS_WRONG_TYPE, v)
    } else if !v.links.contains((src, gen)) {
        (STATUS_NOT_PRESENT, v)
    } else {
        (STATUS_OK, EngineView { links: v.links.remove((src, gen)), ..v })
    }
}

// ---------------------------------------------------------------------------
// Buffer metadata queries
// ---------------------------------------------------------------------------

/// The status every buffer metadata query answers: the engine must be up,
/// the handle live and a buffer.
pub open spec fn buffer_query_status(v: EngineView, h: u64) -> i32 {
    if !v.initialized {
        STATUS_NOT_INITIALIZED
    } else if !live(v, h) {
        STATUS_INVALID_HANDLE
    } else if !is_buffer(v.objects[h].state) {
        STATUS_WRONG_TYPE
    } else {
        STATUS_OK
    }
}

// ---------------------------------------------------------------------------
// Initial property stores
// ---------------------------------------------------------------------------

pub open spec fn initial_buffer_generator() -> ObjectState {
    ObjectState::BufferGenerator { buffer: None, position_bits: 0, looping: 0 }
}

pub open spec fn initial_noise_generator() -> ObjectState {
    ObjectState::NoiseGenerator { noise_type: 0 }
}

pub open spec fn initial_direct_source() -> ObjectState {
    ObjectState::DirectSource { gain_bits: DEFAULT_GAIN_BITS }
}

pub open spec fn initial_panned_source() -> ObjectState {
    ObjectState::PannedSource {
        gain_bits: DEFAULT_GAIN_BITS,
        panner_strategy: 0,
        azimuth_bits: 0,
        elevation_bits: 0,
        panning_scalar_bits: 0,
    }
}

pub open spec fn initial_source3d() -> ObjectState {
    ObjectState::Source3D {
        gain_bits: DEFAULT_GAIN_BITS,
        panner_strategy: 0,
        position: Double3 { x: 0, y: 0, z: 0 },
        orientation: Double6 { x1: 0, y1: 0, z1: 0, x2: 0, y2: 0, z2: 0 },
        distance_model_bits: 0,
        distance_ref_bits: 0,
        distance_max_bits: 0,
        rolloff_bits: 0,
        closeness_boost_bits: 0,
        closeness_boost_distance_bits: 0,
    }
}

} // verus!
