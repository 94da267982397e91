//! The capture lifecycle: a state machine `Idle -> Starting -> Running ->
//! Stopping -> Idle` around one exclusively owned live handle, together
//! with the session's observer registry. Everything that touches the
//! device — opening it, reading frames, joining the background loop — is
//! the owner's work; the owner reports each outcome back as an event, and
//! this type decides every transition.

use vstd::prelude::*;
use crate::errors::CaptureError;
use crate::registry::ObserverRegistry;

verus! {

/// The lifecycle states of a capture session.
#[derive(Debug, Clone, Copy, PartialEq, Eq, Structural)]
pub enum CaptureState {
    /// No session exists.
    Idle,
    /// A session is being opened; the handle is not live yet.
    Starting,
    /// The background read loop is delivering frames.
    Running,
    /// The session was told to stop and the loop has not yet exited.
    Stopping,
}

/// One capture session: configuration, lifecycle state, the observers the
/// session fans out to, and the last terminal error of a read loop.
pub struct PacketCapture<T> {
    interface: String,
    filter: Option<String>,
    state: CaptureState,
    observers: ObserverRegistry<T>,
    last_error: Option<CaptureError>,
}

impl<T> PacketCapture<T> {
    /// The configured interface name.
    pub closed spec fn spec_interface(&self) -> Seq<char> {
        self.interface@
    }

    /// The configured filter expression, if any.
    pub closed spec fn spec_filter(&self) -> Option<Seq<char>> {
        match self.filter {
            Some(f) => Some(f@),
            None => None,
        }
    }

    /// The lifecycle state.
    pub closed spec fn spec_state(&self) -> CaptureState {
        self.state
    }

    /// The session's observer registry.
    pub closed spec fn spec_observers(&self) -> ObserverRegistry<T> {
        self.observers
    }

    /// The error that last ended a session, if any.
    pub closed spec fn spec_last_error(&self) -> Option<CaptureError> {
        self.last_error
    }

    /// The registry is well formed.
    pub open spec fn wf(&self) -> bool {
        self.spec_observers().wf()
    }

    /// Everything but the lifecycle state and the error is unchanged.
    pub open spec fn same_config(&self, other: &Self) -> bool {
        &&& self.spec_interface() == other.spec_interface()
        &&& self.spec_filter() == other.spec_filter()
        &&& self.spec_observers() == other.spec_observers()
    }

    /// Creates an idle capture with no configuration and no observers.
    pub fn new() -> (c: PacketCapture<T>)
        ensures
            c.wf(),
            c.spec_state() == CaptureState::Idle,
            c.spec_interface() == Seq::<char>::empty(),
            c.spec_filter() is None,
            c.spec_observers().entries_seq().len() == 0,
            c.spec_last_error() is None,
    {
        PacketCapture {
            interface: String::new(),
            filter: None,
            state: CaptureState::Idle,
            observers: ObserverRegistry::new(),
            last_error: None,
        }
    }

    /// Sets the interface to capture from.
    pub fn set_interface(&mut self, interface: &str) -> (r: Result<(), CaptureError>)
        ensures
            r is Ok,
            final(self).spec_interface() == interface@,
            final(self).spec_filter() == old(self).spec_filter(),
            final(self).spec_state() == old(self).spec_state(),
            final(self).spec_observers() == old(self).spec_observers(),
            final(self).spec_last_error() == old(self).spec_last_error(),
    {
        self.interface = interface.to_owned();
        Ok(())
    }

    /// Sets the filter expression handed to the capture layer.
    pub fn set_filter(&mut self, filter: &str) -> (r: Result<(), CaptureError>)
        ensures
            r is Ok,
            final(self).spec_filter() == Some(filter@),
            final(self).spec_interface() == old(self).spec_interface(),
            final(self).spec_state() == old(self).spec_state(),
            final(self).spec_observers() == old(self).spec_observers(),
            final(self).spec_last_error() == old(self).spec_last_error(),
    {
        self.filter = Some(filter.to_owned());
        Ok(())
    }

    /// Removes any configured filter expression.
    pub fn clear_filter(&mut self) -> (r: Result<(), CaptureError>)
        ensures
            r is Ok,
            final(self).spec_filter() is None,
            final(self).spec_interface() == old(self).spec_interface(),
            final(self).spec_state() == old(self).spec_state(),
            final(self).spec_observers() == old(self).spec_observers(),
            final(self).spec_last_error() == old(self).spec_last_error(),
    {
        self.filter = None;
        Ok(())
    }

    /// Registers an observer for the fan-out and returns its fresh
    /// identifier.
    pub fn add_observer(&mut self, observer: T) -> (id: u64)
        requires
            old(self).wf(),
            old(self).spec_observers().spec_next_id() < u64::MAX,
        ensures
            final(self).wf(),
            id == old(self).spec_observers().spec_next_id(),
            !old(self).spec_observers().ids().contains(id),
            final(self).spec_observers().entries_seq() == old(
                self,
            ).spec_observers().entries_seq().push((id, observer)),
            final(self).spec_observers().spec_next_id() == id + 1,
            final(self).spec_interface() == old(self).spec_interface(),
            final(self).spec_filter() == old(self).spec_filter(),
            final(self).spec_state() == old(self).spec_state(),
            final(self).spec_last_error() == old(self).spec_last_error(),
    {
        self.observers.add(observer)
    }

    /// Removes an observer by identifier; returns whether one was
    /// present, and then exactly the matching entry leaves while the
    /// other entries keep their order.
    pub fn remove_observer(&mut self, id: u64) -> (found: bool)
        requires
            old(self).wf(),
        ensures
            final(self).wf(),
            found == old(self).spec_observers().ids().contains(id),
            !found ==> final(self).spec_observers().entries_seq() == old(
                self,
            ).spec_observers().entries_seq(),
            found ==> final(self).spec_observers().entries_seq().len() == old(
                self,
            ).spec_observers().entries_seq().len() - 1,
            found ==> exists|k: int|
                {
                    &&& 0 <= k < old(self).spec_observers().entries_seq().len()
                    &&& (#[trigger] old(self).spec_observers().entries_seq()[k]).0 == id
                    &&& final(self).spec_observers().entries_seq() == old(
                        self,
                    ).spec_observers().entries_seq().remove(k)
                },
            !final(self).spec_observers().ids().contains(id),
            final(self).spec_observers().spec_next_id() == old(
                self,
            ).spec_observers().spec_next_id(),
            final(self).spec_interface() == old(self).spec_interface(),
            final(self).spec_filter() == old(self).spec_filter(),
            final(self).spec_state() == old(self).spec_state(),
            final(self).spec_last_error() == old(self).spec_last_error(),
    {
        self.observers.remove(id)
    }

    /// Asks for a session. Fails while any session exists — starting,
    /// running or stopping — and then changes nothing; from idle it moves
    /// to `Starting` and clears the last error, and the owner must then
    /// open the device and report `mark_running` or `abort_start`.
    pub fn start(&mut self) -> (r: Result<(), CaptureError>)
        ensures
            old(self).spec_state() != CaptureState::Idle ==> {
                &&& r matches Err(e) && e is AlreadyRunning
                &&& *final(self) == *old(self)
            },
            old(self).spec_state() == CaptureState::Idle ==> {
                &&& r is Ok
                &&& final(self).spec_state() == CaptureState::Starting
                &&& final(self).spec_last_error() is None
                &&& final(self).same_config(old(self))
            },
    {
        if !matches!(self.state, CaptureState::Idle) {
            return Err(CaptureError::AlreadyRunning);
        }
        self.state = CaptureState::Starting;
        self.last_error = None;
        Ok(())
    }

    /// Reports that the device opened and the read loop is live.
    pub fn mark_running(&mut self) -> (r: Result<(), CaptureError>)
        ensures
            old(self).spec_state() != CaptureState::Starting ==> {
                &&& r matches Err(e) && e is NotRunning
                &&& *final(self) == *old(self)
            },
            old(self).spec_state() == CaptureState::Starting ==> {
                &&& r is Ok
                &&& final(self).spec_state() == CaptureState::Running
                &&& final(self).spec_last_error() == old(self).spec_last_error()
                &&& final(self).same_config(old(self))
            },
    {
        if !matches!(self.state, CaptureState::Starting) {
            return Err(CaptureError::NotRunning);
        }
        self.state = CaptureState::Running;
        Ok(())
    }

    /// Reports that opening the device failed: the session is abandoned
    /// with no partial state, and the error is kept for inspection.
    pub fn abort_start(&mut self, error: CaptureError) -> (r: Result<(), CaptureError>)
        ensures
            old(self).spec_state() != CaptureState::Starting ==> {
                &&& r matches Err(e) && e is NotRunning
                &&& *final(self) == *old(self)
            },
            old(self).spec_state() == CaptureState::Starting ==> {
                &&& r is Ok
                &&& final(self).spec_state() == CaptureState::Idle
                &&& final(self).spec_last_error() == Some(error)
                &&& final(self).same_config(old(self))
            },
    {
        if !matches!(self.state, CaptureState::Starting) {
            return Err(CaptureError::NotRunning);
        }
        self.state = CaptureState::Idle;
        self.last_error = Some(error);
        Ok(())
    }

    /// Signals the session to stop. Idempotent: without a live session
    /// this is a no-op returning `false`. When it returns `true` the owner
    /// must join the read loop and then report `mark_stopped`, which is
    /// what guarantees the handle is free before the next session.
    pub fn stop(&mut self) -> (was_active: bool)
        ensures
            was_active == (old(self).spec_state() == CaptureState::Starting || old(
                self,
            ).spec_state() == CaptureState::Running),
            !was_active ==> *final(self) == *old(self),
            was_active ==> {
                &&& final(self).spec_state() == CaptureState::Stopping
                &&& final(self).spec_last_error() == old(self).spec_last_error()
                &&& final(self).same_config(old(self))
            },
    {
        match self.state {
            CaptureState::Starting | CaptureState::Running => {
                self.state = CaptureState::Stopping;
                true
            },
            _ => false,
        }
    }

    /// Reports that the read loop has exited and the handle is released.
    pub fn mark_stopped(&mut self) -> (r: Result<(), CaptureError>)
        ensures
            old(self).spec_state() != CaptureState::Stopping ==> {
                &&& r matches Err(e) && e is NotRunning
                &&& *final(self) == *old(self)
            },
            old(self).spec_state() == CaptureState::Stopping ==> {
                &&& r is Ok
                &&& final(self).spec_state() == CaptureState::Idle
                &&& final(self).spec_last_error() == old(self).spec_last_error()
                &&& final(self).same_config(old(self))
            },
    {
        if !matches!(self.state, CaptureState::Stopping) {
            return Err(CaptureError::NotRunning);
        }
        self.state = CaptureState::Idle;
        Ok(())
    }

    /// Reports that a read failed: the loop terminates, the session ends,
    /// and the error stays inspectable. Not an event in any other state.
    pub fn read_failed(&mut self, error: CaptureError) -> (accepted: bool)
        ensures
            accepted == (old(self).spec_state() == CaptureState::Running),
            !accepted ==> *final(self) == *old(self),
            accepted ==> {
                &&& final(self).spec_state() == CaptureState::Idle
                &&& final(self).spec_last_error() == Some(error)
                &&& final(self).same_config(old(self))
            },
    {
        if !matches!(self.state, CaptureState::Running) {
            return false;
        }
        self.state = CaptureState::Idle;
        self.last_error = Some(error);
        true
    }

    /// The current lifecycle state.
    pub fn state(&self) -> (s: CaptureState)
        ensures
            s == self.spec_state(),
    {
        self.state
    }

    /// The configured interface name.
    pub fn interface(&self) -> (r: &String)
        ensures
            r@ == self.spec_interface(),
    {
        &self.interface
    }

    /// The configured filter, if any.
    pub fn filter(&self) -> (r: &Option<String>)
        ensures
            match r {
                Some(f) => self.spec_filter() == Some(f@),
                None => self.spec_filter() is None,
            },
    {
        &self.filter
    }

    /// The error that last ended a session, if any.
    pub fn last_error(&self) -> (r: &Option<CaptureError>)
        ensures
            *r == self.spec_last_error(),
    {
        &self.last_error
    }

    /// The observer registry, for walking a fan-out snapshot by index.
    pub fn observers(&self) -> (r: &ObserverRegistry<T>)
        ensures
            *r == self.spec_observers(),
    {
        &self.observers
    }
}

} // verus!
