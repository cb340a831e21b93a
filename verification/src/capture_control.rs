//! The desktop microphone-test control: at most one capture start or capture
//! worker at a time, stale session identifiers refused, and the last failure
//! of a capture worker kept for the status report. Starting, pumping and
//! joining the worker is left to the caller, which reports back here.
use vstd::prelude::*;

use crate::desktop::{DesktopCaptureError, DesktopCaptureErrorKind};
use crate::session::SessionId;
use crate::settings::string_opt_view;
use crate::text::{decimal, u64_to_decimal};

verus! {

broadcast use crate::session::lemma_session_id_view_injective;

/// How a capture worker ended.
#[derive(Debug, Clone, PartialEq, Eq)]
pub enum PumpExit {
    Stopped,
    Failed(String),
}

#[verifier::ext_equal]
pub struct CaptureControlView {
    pub start_in_flight: bool,
    pub worker: Option<SessionId>,
    pub last_pump_failure: Option<Seq<char>>,
}

#[derive(Debug)]
pub struct CaptureControl {
    start_in_flight: bool,
    worker: Option<SessionId>,
    last_pump_failure: Option<String>,
}

impl View for CaptureControl {
    type V = CaptureControlView;

    closed spec fn view(&self) -> CaptureControlView {
        CaptureControlView {
            start_in_flight: self.start_in_flight,
            worker: self.worker,
            last_pump_failure: string_opt_view(self.last_pump_failure),
        }
    }
}

pub open spec fn stale_worker_message(supplied: SessionId, active: SessionId) -> Seq<char> {
    "microphone test session "@ + decimal(supplied@ as nat) + " is stale; capture worker belongs to session "@
        + decimal(active@ as nat)
}

/// The error for a step on `supplied` while the worker belongs to `active`.
pub fn stale_worker(supplied: SessionId, active: SessionId) -> (error: DesktopCaptureError)
    ensures
        error.spec_kind() == DesktopCaptureErrorKind::StaleSession,
        error.spec_message() == stale_worker_message(supplied, active),
{
    let mut message = String::from_str("microphone test session ");
    message.append(u64_to_decimal(supplied.get()).as_str());
    message.append(" is stale; capture worker belongs to session ");
    message.append(u64_to_decimal(active.get()).as_str());
    DesktopCaptureError::new(DesktopCaptureErrorKind::StaleSession, message)
}

impl CaptureControl {
    pub fn new() -> (control: Self)
        ensures
            control@ == (CaptureControlView {
                start_in_flight: false,
                worker: None,
                last_pump_failure: None,
            }),
    {
        CaptureControl { start_in_flight: false, worker: None, last_pump_failure: None }
    }

    pub fn worker_session(&self) -> (session: Option<SessionId>)
        ensures
            session == self@.worker,
    {
        self.worker
    }

    pub fn last_pump_failure(&self) -> (failure: Option<String>)
        ensures
            string_opt_view(failure) == self@.last_pump_failure,
    {
        match &self.last_pump_failure {
            Some(message) => Some(message.clone()),
            None => None,
        }
    }

    /// A finished worker was joined: the slot is free again and a failure is
    /// kept for the status report.
    pub fn reap_worker(&mut self, exit: Result<PumpExit, DesktopCaptureError>)
        ensures
            final(self)@.worker is None,
            final(self)@.start_in_flight == old(self)@.start_in_flight,
            final(self)@.last_pump_failure == match exit {
                Ok(PumpExit::Stopped) => old(self)@.last_pump_failure,
                Ok(PumpExit::Failed(m)) => Some(m@),
                Err(e) => Some(e.spec_message()),
            },
    {
        self.worker = None;
        match exit {
            Ok(PumpExit::Stopped) => {},
            Ok(PumpExit::Failed(message)) => {
                self.last_pump_failure = Some(message);
            },
            Err(error) => {
                self.last_pump_failure = Some(String::from_str(error.message()));
            },
        }
    }

    /// A microphone test may start only when no start is in flight and no
    /// worker runs; it clears the last failure.
    pub fn begin_start(&mut self) -> (result: Result<(), DesktopCaptureError>)
        ensures
            match result {
                Ok(()) => !old(self)@.start_in_flight && old(self)@.worker is None && final(self)@
                    == (CaptureControlView {
                    start_in_flight: true,
                    worker: None,
                    last_pump_failure: None,
                }),
                Err(e) => (old(self)@.start_in_flight || old(self)@.worker is Some) && final(self)@
                    == old(self)@ && e.spec_kind() == DesktopCaptureErrorKind::Busy && e.spec_message()
                    == "a desktop microphone capture operation is already active"@,
            },
    {
        if self.start_in_flight || self.worker.is_some() {
            return Err(
                DesktopCaptureError::new(
                    DesktopCaptureErrorKind::Busy,
                    String::from_str("a desktop microphone capture operation is already active"),
                ),
            );
        }
        self.start_in_flight = true;
        self.last_pump_failure = None;
        Ok(())
    }

    /// The start attempt is over, successful or not.
    pub fn end_start(&mut self)
        ensures
            final(self)@ == (CaptureControlView { start_in_flight: false, ..old(self)@ }),
    {
        self.start_in_flight = false;
    }

    /// A worker now pumps the capture of `session_id`.
    pub fn worker_started(&mut self, session_id: SessionId)
        ensures
            final(self)@ == (CaptureControlView { worker: Some(session_id), ..old(self)@ }),
    {
        self.worker = Some(session_id);
    }

    /// Claims the worker of `session_id` to finish the test.
    pub fn claim_worker(&mut self, session_id: SessionId) -> (result: Result<(), DesktopCaptureError>)
        ensures
            match result {
                Ok(()) => old(self)@.worker == Some(session_id) && final(self)@ == (
                CaptureControlView { worker: None, ..old(self)@ }),
                Err(e) => final(self)@ == old(self)@ && match old(self)@.worker {
                    None => e.spec_kind() == DesktopCaptureErrorKind::Busy && e.spec_message()
                        == "there is no active desktop capture worker to finish"@,
                    Some(active) => active != session_id && e.spec_kind()
                        == DesktopCaptureErrorKind::StaleSession && e.spec_message()
                        == stale_worker_message(session_id, active),
                },
            },
    {
        match self.worker {
            None => Err(
                DesktopCaptureError::new(
                    DesktopCaptureErrorKind::Busy,
                    String::from_str("there is no active desktop capture worker to finish"),
                ),
            ),
            Some(active) => {
                if !active.same_as(session_id) {
                    Err(stale_worker(session_id, active))
                } else {
                    self.worker = None;
                    Ok(())
                }
            },
        }
    }

    /// Releases the worker of `session_id` for cancellation; `true` when there
    /// was one to stop. Refused while a start is in flight or when the worker
    /// belongs to another session.
    pub fn claim_for_cancel(&mut self, session_id: SessionId) -> (result: Result<bool, DesktopCaptureError>)
        ensures
            match result {
                Ok(had_worker) => !old(self)@.start_in_flight && (had_worker <==> old(self)@.worker
                    == Some(session_id)) && (old(self)@.worker is None || old(self)@.worker == Some(
                    session_id,
                )) && final(self)@ == (CaptureControlView { worker: None, ..old(self)@ }),
                Err(e) => final(self)@ == old(self)@ && if old(self)@.start_in_flight {
                    e.spec_kind() == DesktopCaptureErrorKind::Busy && e.spec_message()
                        == "microphone capture startup is still in progress"@
                } else {
                    old(self)@.worker matches Some(active) && active != session_id && e.spec_kind()
                        == DesktopCaptureErrorKind::StaleSession && e.spec_message()
                        == stale_worker_message(session_id, active)
                },
            },
    {
        if self.start_in_flight {
            return Err(
                DesktopCaptureError::new(
                    DesktopCaptureErrorKind::Busy,
                    String::from_str("microphone capture startup is still in progress"),
                ),
            );
        }
        match self.worker {
            Some(active) => {
                if !active.same_as(session_id) {
                    Err(stale_worker(session_id, active))
                } else {
                    self.worker = None;
                    Ok(true)
                }
            },
            None => Ok(false),
        }
    }

    /// A stopped worker reported a failure: it is kept and returned as a pump
    /// failure.
    pub fn record_pump_failure(&mut self, message: String) -> (error: DesktopCaptureError)
        ensures
            final(self)@ == (CaptureControlView { last_pump_failure: Some(message@), ..old(self)@ }),
            error.spec_kind() == DesktopCaptureErrorKind::PumpFailed,
            error.spec_message() == message@,
    {
        let error = DesktopCaptureError::new(DesktopCaptureErrorKind::PumpFailed, message.clone());
        self.last_pump_failure = Some(message);
        error
    }
}

} // verus!
