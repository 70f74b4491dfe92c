//! Events, decoded from the engine's records.
use vstd::prelude::*;
use crate::native::RawEvent;
use crate::types::EventType;

verus! {

/// One engine occurrence: its kind and the handles it concerns, as the
/// engine reported them (the invalid sentinel where it concerns none). The
/// handles are borrowed: wrap them with `from_handle_unowned`.
#[derive(Debug, Clone, Copy, PartialEq, Eq, Structural)]
pub struct Event {
    /// The event's kind.
    pub event_type: EventType,
    /// The session the event belongs to.
    pub session: u64,
    /// The remote node the event concerns.
    pub sender: u64,
    /// The object the event concerns.
    pub object: u64,
}

impl Event {
    /// The event a native record stands for.
    pub open spec fn spec_from_raw(raw: RawEvent) -> Event {
        Event {
            event_type: EventType::from_raw(raw.kind),
            session: raw.session,
            sender: raw.sender,
            object: raw.object,
        }
    }

    /// Decodes a native record; an unknown kind becomes `Invalid`.
    pub fn from_raw(raw: RawEvent) -> (r: Event)
        ensures
            r == Event::spec_from_raw(raw),
    {
        Event {
            event_type: EventType::from(raw.kind),
            session: raw.session,
            sender: raw.sender,
            object: raw.object,
        }
    }
}

/// The event a poll's reply stands for, if there was one.
pub open spec fn event_of(raw: Option<RawEvent>) -> Option<Event> {
    match raw {
        Some(r) => Some(Event::spec_from_raw(r)),
        None => None,
    }
}

} // verus!
