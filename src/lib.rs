//! Safe, resource-tracking wrappers around the handle-based NORM
//! (NACK-Oriented Reliable Multicast) engine.
//!
//! The engine is reached only through the entry points of the [`Native`]
//! trait. Every wrapper states, over the engine's call log, exactly which
//! entry points it invokes and what it returns for each reply.
use vstd::prelude::*;

pub mod error;
pub mod types;
pub mod native;
pub mod recorder;
pub mod node;
pub mod object;
pub mod session;
pub mod event;
pub mod instance;
pub mod multicast;

pub use error::Error;
pub use native::{Call, Native, RawEvent};
pub use recorder::Recorder;
pub use node::Node;
pub use object::Object;
pub use session::Session;
pub use event::Event;
pub use instance::{EventIterator, Instance};
pub use multicast::{MulticastConfig, MulticastExt, SessionOption};
pub use types::{
    AckingStatus, EventType, FlushMode, NackingMode, ObjectType, ProbingMode, RepairBoundary,
    SyncPolicy, TrackingStatus,
};

verus! {

/// Major version of the engine interface this library is written against.
pub const VERSION_MAJOR: u32 = 1;

/// Minor version of the engine interface this library is written against.
pub const VERSION_MINOR: u32 = 5;

/// Patch level of the engine interface this library is written against.
pub const VERSION_PATCH: u32 = 9;

/// The engine version as `(major, minor, patch)`.
pub fn version() -> (r: (u32, u32, u32))
    ensures
        r == (VERSION_MAJOR, VERSION_MINOR, VERSION_PATCH),
{
    (VERSION_MAJOR, VERSION_MINOR, VERSION_PATCH)
}

} // verus!
