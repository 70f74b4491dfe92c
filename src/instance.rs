//! The top-level engine instance and its event sequence.
use vstd::prelude::*;
use crate::error::Error;
use crate::event::{event_of, Event};
use crate::native::{c_text, is_c_text, CallModel, Native, NORM_INSTANCE_INVALID};
use crate::session::{done, Session};

verus! {

/// One engine instance. Disposing of it with [`Instance::destroy`] tears
/// down every session created under it.
#[derive(Debug)]
pub struct Instance {
    handle: u64,
}

/// `d` is one poll of `instance` with the given `wait`, answered by `r`.
pub open spec fn polled(d: Seq<CallModel>, instance: u64, wait: bool, r: Option<Event>) -> bool {
    &&& d.len() == 1
    &&& d[0] is GetNextEvent
    &&& d[0]->GetNextEvent_instance == instance
    &&& d[0]->GetNextEvent_wait == wait
    &&& r == event_of(d[0]->GetNextEvent_result)
}

impl Instance {
    /// The native handle.
    pub closed spec fn spec_handle(&self) -> u64 {
        self.handle
    }

    /// Creates an engine instance; `InvalidHandle` when the engine returns
    /// its invalid sentinel.
    pub fn new<E: Native>(e: &mut E, priority_boost: bool) -> (r: Result<Instance, Error>)
        ensures
            final(e).calls() == old(e).calls().push(
                CallModel::CreateInstance {
                    priority_boost,
                    result: match r {
                        Ok(i) => i.spec_handle(),
                        Err(_) => NORM_INSTANCE_INVALID,
                    },
                },
            ),
            r is Ok ==> r->Ok_0.spec_handle() != NORM_INSTANCE_INVALID,
            r is Err ==> r == Err::<Instance, Error>(Error::InvalidHandle),
    {
        let handle = e.create_instance(priority_boost);
        if handle == NORM_INSTANCE_INVALID {
            Err(Error::InvalidHandle)
        } else {
            Ok(Instance { handle })
        }
    }

    /// The native handle.
    pub fn handle(&self) -> (r: u64)
        ensures
            r == self.spec_handle(),
    {
        self.handle
    }

    /// Stops the instance's protocol thread without destroying it.
    pub fn stop<E: Native>(&self, e: &mut E)
        ensures
            final(e).calls() == old(e).calls().push(CallModel::StopInstance { instance: self.spec_handle() }),
    {
        e.stop_instance(self.handle)
    }

    /// Restarts a stopped instance; `OperationFailed` when the engine refuses.
    pub fn restart<E: Native>(&self, e: &mut E) -> (r: Result<(), Error>)
        ensures
            final(e).calls() == old(e).calls().push(
                CallModel::RestartInstance { instance: self.spec_handle(), result: r is Ok },
            ),
            done(r, r is Ok),
    {
        if e.restart_instance(self.handle) {
            Ok(())
        } else {
            Err(Error::failed("Failed to restart NORM instance"))
        }
    }

    /// Suspends the instance's protocol thread; `OperationFailed` when the
    /// engine refuses.
    pub fn suspend<E: Native>(&self, e: &mut E) -> (r: Result<(), Error>)
        ensures
            final(e).calls() == old(e).calls().push(
                CallModel::SuspendInstance { instance: self.spec_handle(), result: r is Ok },
            ),
            done(r, r is Ok),
    {
        if e.suspend_instance(self.handle) {
            Ok(())
        } else {
            Err(Error::failed("Failed to suspend NORM instance"))
        }
    }

    /// Resumes a suspended instance.
    pub fn resume<E: Native>(&self, e: &mut E)
        ensures
            final(e).calls() == old(e).calls().push(CallModel::ResumeInstance { instance: self.spec_handle() }),
    {
        e.resume_instance(self.handle)
    }

    /// Sets the directory received files are stored in, which file reception
    /// needs; `InvalidString` for a path with a NUL, without asking the
    /// engine; `OperationFailed` when the engine refuses.
    pub fn set_cache_directory<E: Native>(&self, e: &mut E, cache_path: &str) -> (r: Result<(), Error>)
        ensures
            !c_text(cache_path@) ==> final(e).calls() == old(e).calls()
                && r == Err::<(), Error>(Error::InvalidString),
            c_text(cache_path@) ==> final(e).calls() == old(e).calls().push(
                CallModel::SetCacheDirectory { instance: self.spec_handle(), path: cache_path@, result: r is Ok },
            ) && done(r, r is Ok),
    {
        if !is_c_text(cache_path) {
            return Err(Error::InvalidString);
        }
        if e.set_cache_directory(self.handle, cache_path) {
            Ok(())
        } else {
            Err(Error::failed("Failed to set cache directory"))
        }
    }

    /// Polls once. A pending event is decoded and returned; with nothing
    /// pending the answer is `None`, never an error. With `wait` the engine
    /// blocks until an event comes or the instance is torn down.
    pub fn next_event<E: Native>(&self, e: &mut E, wait: bool) -> (r: Result<Option<Event>, Error>)
        ensures
            extends_by_poll(old(e).calls(), final(e).calls()),
            r is Ok,
            polled(final(e).calls().skip(old(e).calls().len() as int), self.spec_handle(), wait, r->Ok_0),
    {
        let raw = e.get_next_event(self.handle, wait);
        assert(e.calls().skip(old(e).calls().len() as int) =~= seq![e.calls().last()]);
        assert(e.calls().drop_last() =~= old(e).calls());
        match raw {
            Some(record) => Ok(Some(Event::from_raw(record))),
            None => Ok(None),
        }
    }

    /// The instance's events as a lazy sequence that waits for each one and
    /// ends the first time a poll yields nothing.
    pub fn events(&self) -> (r: EventIterator)
        ensures
            r.spec_instance() == self.spec_handle(),
            !r.spec_finished(),
    {
        EventIterator { instance: self.handle, finished: false }
    }

    /// Creates a session of this instance on `address:port`; see [`Session::new`].
    pub fn create_session<E: Native>(&self, e: &mut E, session_address: &str, session_port: u16, local_node_id: u32) -> (r: Result<Session, Error>)
        ensures
            !c_text(session_address@) ==> final(e).calls() == old(e).calls()
                && r == Err::<Session, Error>(Error::InvalidString),
            c_text(session_address@) ==> {
                let h = match r {
                    Ok(s) => s.spec_handle(),
                    Err(_) => crate::native::NORM_SESSION_INVALID,
                };
                &&& final(e).calls() == old(e).calls().push(
                    CallModel::CreateSession {
                        instance: self.spec_handle(),
                        address: session_address@,
                        port: session_port,
                        local_node_id,
                        result: h,
                    },
                )
                &&& r is Ok ==> h != crate::native::NORM_SESSION_INVALID
                &&& r is Err ==> r == Err::<Session, Error>(Error::InvalidHandle)
            },
    {
        Session::new(e, self.handle, session_address, session_port, local_node_id)
    }

    /// A descriptor that becomes readable when an event is pending, for use
    /// with an outside readiness loop.
    pub fn descriptor<E: Native>(&self, e: &mut E) -> (r: i32)
        ensures
            final(e).calls() == old(e).calls().push(
                CallModel::GetDescriptor { instance: self.spec_handle(), result: r },
            ),
    {
        e.get_descriptor(self.handle)
    }

    /// Sends the engine's debug output to a file; `InvalidString` for a path
    /// with a NUL, without asking the engine; `OperationFailed` when refused.
    pub fn open_debug_log<E: Native>(&self, e: &mut E, path: &str) -> (r: Result<(), Error>)
        ensures
            !c_text(path@) ==> final(e).calls() == old(e).calls()
                && r == Err::<(), Error>(Error::InvalidString),
            c_text(path@) ==> final(e).calls() == old(e).calls().push(
                CallModel::OpenDebugLog { instance: self.spec_handle(), path: path@, result: r is Ok },
            ) && done(r, r is Ok),
    {
        if !is_c_text(path) {
            return Err(Error::InvalidString);
        }
        if e.open_debug_log(self.handle, path) {
            Ok(())
        } else {
            Err(Error::failed("Failed to open debug log file"))
        }
    }

    /// Closes the debug log.
    pub fn close_debug_log<E: Native>(&self, e: &mut E)
        ensures
            final(e).calls() == old(e).calls().push(CallModel::CloseDebugLog { instance: self.spec_handle() }),
    {
        e.close_debug_log(self.handle)
    }

    /// Ends the instance: the engine tears it down with every session under
    /// it. The wrapper is consumed.
    pub fn destroy<E: Native>(self, e: &mut E)
        ensures
            final(e).calls() == old(e).calls().push(CallModel::DestroyInstance { instance: self.spec_handle() }),
    {
        e.destroy_instance(self.handle)
    }
}

/// `new` is `old` followed by exactly one invocation.
pub open spec fn extends_by_poll(old: Seq<CallModel>, new: Seq<CallModel>) -> bool {
    new.len() == old.len() + 1 && new.drop_last() == old
}

/// The events of an instance, pulled one at a time. Once a poll yields
/// nothing the sequence is over and the engine is not polled again.
#[derive(Debug)]
pub struct EventIterator {
    instance: u64,
    finished: bool,
}

impl EventIterator {
    /// The instance polled.
    pub closed spec fn spec_instance(&self) -> u64 {
        self.instance
    }

    /// Whether a poll has yielded nothing.
    pub closed spec fn spec_finished(&self) -> bool {
        self.finished
    }

    /// The next event: waits for it, and ends the sequence for good the
    /// first time the poll yields none.
    pub fn next<E: Native>(&mut self, e: &mut E) -> (r: Option<Event>)
        ensures
            final(self).spec_instance() == old(self).spec_instance(),
            old(self).spec_finished() ==> {
                &&& final(e).calls() == old(e).calls()
                &&& r is None
                &&& final(self).spec_finished()
            },
            !old(self).spec_finished() ==> {
                &&& extends_by_poll(old(e).calls(), final(e).calls())
                &&& polled(final(e).calls().skip(old(e).calls().len() as int), old(self).spec_instance(), true, r)
                &&& final(self).spec_finished() == (r is None)
            },
    {
        if self.finished {
            return None;
        }
        let raw = e.get_next_event(self.instance, true);
        assert(e.calls().skip(old(e).calls().len() as int) =~= seq![e.calls().last()]);
        assert(e.calls().drop_last() =~= old(e).calls());
        match raw {
            Some(record) => Some(Event::from_raw(record)),
            None => {
                self.finished = true;
                None
            },
        }
    }
}

} // verus!
