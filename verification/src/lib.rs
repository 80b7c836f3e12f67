//! A safety layer over a handle-based native audio engine.
//!
//! Every engine-side entity (context, buffer, generator, source) is referenced
//! only through an integer handle, and all state access happens through a
//! small set of typed get/set property calls keyed by enumerated property IDs.
//! The engine itself is a black box that accepts (handle, property, value)
//! and answers with a status code; this crate supplies
//!
//! - a verified model of the engine's observable state ([`engine::Engine`]),
//!   the reference against which every call is specified,
//! - an owned, release-exactly-once [`handle::Handle`] over that state,
//! - the typed property protocol (integer, double, 3-vector, 6-vector and
//!   object-reference shapes) layered on raw get/set calls,
//! - the entity wrappers and the `Generator`/`Source` capability traits,
//! - the engine lifecycle guard bracketing initialize and shutdown.
//!
//! Double-valued properties cross this layer as IEEE-754 bit patterns
//! (`u64`); the layer never interprets them, it only carries them.

pub mod buffer;
pub mod context;
pub mod engine;
pub mod error;
pub mod generators;
pub mod handle;
pub mod laws;
pub mod lifecycle;
pub mod marshal;
pub mod model;
pub mod props;
pub mod sources;

pub use buffer::Buffer;
pub use context::Context;
pub use engine::Engine;
pub use error::SynthizerError;
pub use generators::{BufferGenerator, Generator, NoiseGenerator, StreamingGenerator};
pub use handle::Handle;
pub use lifecycle::{configure_logging_backend, set_log_level, Synthizer};
pub use props::{DistanceModel, LogLevel, LoggingBackend, NoiseType, PannerStrategy, Protocol};
pub use sources::{DirectSource, PannedSource, SpatializedSource, Source, Source3D};
