//! Safety-oriented binding layer for an effect-plugin host: handle
//! lifecycle management, the arbitrary-parameter lifecycle dispatcher,
//! parameter definitions, and the small geometry helpers that come with
//! them.
//!
//! The heart of the crate is the arbitrary-parameter protocol: the host
//! drives a plugin-defined value type through new / dispose / copy /
//! flatten / unflatten / interpolate / compare / print / scan requests,
//! across a boundary where every memory block is host-owned and
//! referenced by an opaque handle.  [`host`] models that handle service
//! and the move-only ownership wrappers over it; [`value`] states the
//! capability set a value type must prove; [`arb`] executes the
//! protocol with an exact contract per request kind; [`int_value`] is a
//! ready-made value type whose encodings are proved to round-trip.

pub mod arb;
pub mod error;
pub mod event;
pub mod geom;
pub mod host;
pub mod params;
pub mod int_value;
pub mod value;

pub use arb::{ArbParamsExtra, ArbRequest, ArbResponse};
pub use error::Error;
pub use geom::{Point, Rect};
pub use host::{ByteStore, FlatHandle, Handle, TypedStore};
pub use int_value::IntValue;
pub use value::{ArbCompare, ArbitraryData, Weight};
