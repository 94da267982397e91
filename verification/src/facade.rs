//! The front door of the analyzer core: one capture session with its
//! observers, the dissector engine, and the configured trace output. The
//! owner drives all outside work — opening devices, reading frames,
//! writing files — and reports outcomes back through the capture's
//! lifecycle events.

use vstd::prelude::*;
use vstd::string::*;
use crate::capture::{PacketCapture, CaptureState};
use crate::errors::CaptureError;
use crate::interface::{NetworkInterface, validate_interface};
use crate::packets::{PacketProcessor, PacketInfo, spec_classify};
use crate::registry::ObserverRegistry;
use crate::render::{spec_timestamp, spec_dec};
use crate::trace::RawFrame;

verus! {

/// The analyzer core: the capture session and its observers, the
/// dissector engine, and the configured trace-output path.
pub struct AnansiFacade<T> {
    capture: PacketCapture<T>,
    packet_processor: PacketProcessor,
    pcap_output: Option<String>,
}

impl<T> AnansiFacade<T> {
    /// The capture session.
    pub closed spec fn spec_capture(&self) -> PacketCapture<T> {
        self.capture
    }

    /// The configured trace-output path, if any.
    pub closed spec fn spec_pcap_output(&self) -> Option<Seq<char>> {
        match self.pcap_output {
            Some(f) => Some(f@),
            None => None,
        }
    }

    /// The capture's registry is well formed.
    pub open spec fn wf(&self) -> bool {
        self.spec_capture().wf()
    }

    /// Creates the core with an idle capture and no observers.
    pub fn new(debug_mode: bool) -> (f: AnansiFacade<T>)
        ensures
            f.wf(),
            f.spec_capture().spec_state() == CaptureState::Idle,
            f.spec_capture().spec_observers().entries_seq().len() == 0,
            f.spec_pcap_output() is None,
    {
        AnansiFacade {
            capture: PacketCapture::new(),
            packet_processor: PacketProcessor::new(debug_mode),
            pcap_output: None,
        }
    }

    /// Remembers the path a trace of the capture should be written to.
    pub fn set_pcap_output(&mut self, filename: &str) -> (r: Result<(), CaptureError>)
        ensures
            r is Ok,
            final(self).spec_pcap_output() == Some(filename@),
            final(self).spec_capture() == old(self).spec_capture(),
    {
        self.pcap_output = Some(filename.to_owned());
        Ok(())
    }

    /// The configured trace-output path, if any.
    pub fn pcap_output(&self) -> (r: &Option<String>)
        ensures
            match r {
                Some(f) => self.spec_pcap_output() == Some(f@),
                None => self.spec_pcap_output() is None,
            },
    {
        &self.pcap_output
    }

    /// Asks for a capture session on an interface, with an optional
    /// filter. Fails with the session untouched while one is active.
    /// From idle it configures a fresh session — the interface and the
    /// filter are both overwritten, so nothing of an earlier session's
    /// configuration survives — and moves to `Starting`; the owner must
    /// open the device and report the outcome.
    pub fn start_capture(&mut self, interface: &str, filter: Option<&str>) -> (r: Result<
        (),
        CaptureError,
    >)
        ensures
            old(self).spec_capture().spec_state() != CaptureState::Idle ==> {
                &&& r matches Err(e) && e is AlreadyRunning
                &&& *final(self) == *old(self)
            },
            old(self).spec_capture().spec_state() == CaptureState::Idle ==> {
                &&& r is Ok
                &&& final(self).spec_capture().spec_state() == CaptureState::Starting
                &&& final(self).spec_capture().spec_interface() == interface@
                &&& final(self).spec_capture().spec_filter() == match filter {
                    Some(f) => Some(f@),
                    None => None::<Seq<char>>,
                }
                &&& final(self).spec_capture().spec_last_error() is None
                &&& final(self).spec_capture().spec_observers() == old(
                    self,
                ).spec_capture().spec_observers()
                &&& final(self).spec_pcap_output() == old(self).spec_pcap_output()
            },
            final(self).spec_pcap_output() == old(self).spec_pcap_output(),
    {
        if !matches!(self.capture.state(), CaptureState::Idle) {
            return Err(CaptureError::AlreadyRunning);
        }
        let _ = self.capture.set_interface(interface);
        match filter {
            Some(f) => {
                let _ = self.capture.set_filter(f);
            },
            None => {
                let _ = self.capture.clear_filter();
            },
        }
        self.capture.start()
    }

    /// Signals the session to stop; `true` when a session was active and
    /// the owner must join the read loop and report `capture_stopped`.
    pub fn stop_capture(&mut self) -> (was_active: bool)
        ensures
            was_active == (old(self).spec_capture().spec_state() == CaptureState::Starting || old(
                self,
            ).spec_capture().spec_state() == CaptureState::Running),
            !was_active ==> *final(self) == *old(self),
            was_active ==> final(self).spec_capture().spec_state() == CaptureState::Stopping,
            final(self).spec_pcap_output() == old(self).spec_pcap_output(),
            final(self).spec_capture().spec_observers() == old(
                self,
            ).spec_capture().spec_observers(),
            final(self).spec_capture().spec_interface() == old(
                self,
            ).spec_capture().spec_interface(),
            final(self).spec_capture().spec_filter() == old(self).spec_capture().spec_filter(),
            final(self).spec_capture().spec_last_error() == old(
                self,
            ).spec_capture().spec_last_error(),
    {
        self.capture.stop()
    }

    /// Reports that the device opened and the read loop is live.
    pub fn capture_started(&mut self) -> (r: Result<(), CaptureError>)
        ensures
            old(self).spec_capture().spec_state() != CaptureState::Starting ==> {
                &&& r matches Err(e) && e is NotRunning
                &&& *final(self) == *old(self)
            },
            old(self).spec_capture().spec_state() == CaptureState::Starting ==> {
                &&& r is Ok
                &&& final(self).spec_capture().spec_state() == CaptureState::Running
            },
            final(self).spec_capture().spec_observers() == old(
                self,
            ).spec_capture().spec_observers(),
            final(self).spec_pcap_output() == old(self).spec_pcap_output(),
            final(self).spec_capture().spec_interface() == old(
                self,
            ).spec_capture().spec_interface(),
            final(self).spec_capture().spec_filter() == old(self).spec_capture().spec_filter(),
            final(self).spec_capture().spec_last_error() == old(
                self,
            ).spec_capture().spec_last_error(),
    {
        self.capture.mark_running()
    }

    /// Reports that opening the device failed; the error stays
    /// inspectable.
    pub fn capture_failed(&mut self, error: CaptureError) -> (r: Result<(), CaptureError>)
        ensures
            old(self).spec_capture().spec_state() != CaptureState::Starting ==> {
                &&& r matches Err(e) && e is NotRunning
                &&& *final(self) == *old(self)
            },
            old(self).spec_capture().spec_state() == CaptureState::Starting ==> {
                &&& r is Ok
                &&& final(self).spec_capture().spec_state() == CaptureState::Idle
                &&& final(self).spec_capture().spec_last_error() == Some(error)
            },
            final(self).spec_capture().spec_observers() == old(
                self,
            ).spec_capture().spec_observers(),
            final(self).spec_pcap_output() == old(self).spec_pcap_output(),
            final(self).spec_capture().spec_interface() == old(
                self,
            ).spec_capture().spec_interface(),
            final(self).spec_capture().spec_filter() == old(self).spec_capture().spec_filter(),
    {
        self.capture.abort_start(error)
    }

    /// Reports that the read loop exited and the handle is free.
    pub fn capture_stopped(&mut self) -> (r: Result<(), CaptureError>)
        ensures
            old(self).spec_capture().spec_state() != CaptureState::Stopping ==> {
                &&& r matches Err(e) && e is NotRunning
                &&& *final(self) == *old(self)
            },
            old(self).spec_capture().spec_state() == CaptureState::Stopping ==> {
                &&& r is Ok
                &&& final(self).spec_capture().spec_state() == CaptureState::Idle
            },
            final(self).spec_capture().spec_observers() == old(
                self,
            ).spec_capture().spec_observers(),
            final(self).spec_pcap_output() == old(self).spec_pcap_output(),
            final(self).spec_capture().spec_interface() == old(
                self,
            ).spec_capture().spec_interface(),
            final(self).spec_capture().spec_filter() == old(self).spec_capture().spec_filter(),
            final(self).spec_capture().spec_last_error() == old(
                self,
            ).spec_capture().spec_last_error(),
    {
        self.capture.mark_stopped()
    }

    /// Reports that a read failed and the loop terminated.
    pub fn capture_read_failed(&mut self, error: CaptureError) -> (accepted: bool)
        ensures
            accepted == (old(self).spec_capture().spec_state() == CaptureState::Running),
            !accepted ==> *final(self) == *old(self),
            accepted ==> {
                &&& final(self).spec_capture().spec_state() == CaptureState::Idle
                &&& final(self).spec_capture().spec_last_error() == Some(error)
            },
            final(self).spec_capture().spec_observers() == old(
                self,
            ).spec_capture().spec_observers(),
            final(self).spec_pcap_output() == old(self).spec_pcap_output(),
            final(self).spec_capture().spec_interface() == old(
                self,
            ).spec_capture().spec_interface(),
            final(self).spec_capture().spec_filter() == old(self).spec_capture().spec_filter(),
    {
        self.capture.read_failed(error)
    }

    /// The capture's lifecycle state.
    pub fn capture_state(&self) -> (s: CaptureState)
        ensures
            s == self.spec_capture().spec_state(),
    {
        self.capture.state()
    }

    /// The filter of the current configuration, if any.
    pub fn filter(&self) -> (r: &Option<String>)
        ensures
            match r {
                Some(f) => self.spec_capture().spec_filter() == Some(f@),
                None => self.spec_capture().spec_filter() is None,
            },
    {
        self.capture.filter()
    }

    /// The error that last ended a session, if any.
    pub fn last_error(&self) -> (r: &Option<CaptureError>)
        ensures
            *r == self.spec_capture().spec_last_error(),
    {
        self.capture.last_error()
    }

    /// Registers an observer for the fan-out; its identifier is fresh.
    pub fn add_observer(&mut self, observer: T) -> (id: u64)
        requires
            old(self).wf(),
            old(self).spec_capture().spec_observers().spec_next_id() < u64::MAX,
        ensures
            final(self).wf(),
            id == old(self).spec_capture().spec_observers().spec_next_id(),
            !old(self).spec_capture().spec_observers().ids().contains(id),
            final(self).spec_capture().spec_observers().entries_seq() == old(
                self,
            ).spec_capture().spec_observers().entries_seq().push((id, observer)),
            final(self).spec_capture().spec_state() == old(self).spec_capture().spec_state(),
            final(self).spec_pcap_output() == old(self).spec_pcap_output(),
    {
        self.capture.add_observer(observer)
    }

    /// Removes an observer by identifier; `true` exactly when one was
    /// present, and then exactly the matching entry leaves while the
    /// other entries keep their order.
    pub fn remove_observer(&mut self, id: u64) -> (found: bool)
        requires
            old(self).wf(),
        ensures
            final(self).wf(),
            found == old(self).spec_capture().spec_observers().ids().contains(id),
            !found ==> final(self).spec_capture().spec_observers().entries_seq() == old(
                self,
            ).spec_capture().spec_observers().entries_seq(),
            found ==> final(self).spec_capture().spec_observers().entries_seq().len() == old(
                self,
            ).spec_capture().spec_observers().entries_seq().len() - 1,
            found ==> exists|k: int|
                {
                    &&& 0 <= k < old(self).spec_capture().spec_observers().entries_seq().len()
                    &&& (#[trigger] old(self).spec_capture().spec_observers().entries_seq()[k]).0
                        == id
                    &&& final(self).spec_capture().spec_observers().entries_seq() == old(
                        self,
                    ).spec_capture().spec_observers().entries_seq().remove(k)
                },
            !final(self).spec_capture().spec_observers().ids().contains(id),
            final(self).spec_capture().spec_state() == old(self).spec_capture().spec_state(),
            final(self).spec_pcap_output() == old(self).spec_pcap_output(),
    {
        self.capture.remove_observer(id)
    }

    /// The observer registry, for walking a fan-out snapshot by index.
    pub fn observers(&self) -> (r: &ObserverRegistry<T>)
        ensures
            *r == self.spec_capture().spec_observers(),
    {
        self.capture.observers()
    }

    /// Whether an interface with the given name is in the supplied list.
    pub fn validate_interface(
        &self,
        interfaces: &[NetworkInterface],
        interface_name: &str,
    ) -> (r: bool)
        ensures
            r == exists|i: int|
                0 <= i < interfaces@.len() && (#[trigger] interfaces@[i]).name@
                    == interface_name@,
    {
        validate_interface(interfaces, interface_name)
    }

    /// Dissects one frame into a record.
    pub fn process_packet(&self, frame: &RawFrame) -> (info: PacketInfo)
        ensures
            ({
                let c = spec_classify(frame.data@);
                &&& info.timestamp@ == spec_timestamp(frame.ts_sec, frame.ts_usec)
                &&& info.length == frame.data@.len()
                &&& info.source_ip@ == c.source
                &&& info.destination_ip@ == c.destination
                &&& info.protocol@ == c.protocol
                &&& info.details@ == c.details
            }),
    {
        self.packet_processor.process_packet(frame)
    }

    /// Renders a record as one plain line.
    pub fn format_packet_info(&self, info: &PacketInfo) -> (s: String)
        ensures
            s@ == info.timestamp@ + seq![' '] + info.source_ip@ + " -> "@ + info.destination_ip@
                + seq![' '] + info.protocol@ + seq![' '] + spec_dec(info.length as nat)
                + seq![' '] + info.details@,
    {
        self.packet_processor.format_packet_info(info)
    }
}

} // verus!
