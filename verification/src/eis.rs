//! The Wayland EIS session as BLCVoice tracks it: which devices the
//! compositor offered, which of them are resumed and emulating, and the serial
//! and sequence numbers the protocol requires. Talking to the compositor is
//! left to the caller, which reports each protocol event here and performs the
//! action returned.
use vstd::prelude::*;

use crate::insertion::{InsertionError, InsertionErrorKind};
use crate::text::decimal;

verus! {

/// One device the compositor offered, named by a handle the caller assigns.
#[derive(Debug, Clone, Copy, PartialEq, Eq, Structural)]
pub struct EisDeviceSlot {
    pub device: u64,
    pub has_text: bool,
    pub resumed: bool,
    pub emulating: bool,
}

/// A protocol event, reduced to what the session state depends on.
#[derive(Debug, Clone, Copy, PartialEq, Eq, Structural)]
pub enum EisEvent {
    Disconnected,
    SeatAdded,
    DeviceAdded { device: u64, version: u32, has_text: bool },
    DeviceRemoved { device: u64 },
    DeviceResumed { device: u64, serial: u32 },
    DevicePaused { device: u64, serial: u32 },
    KeyboardModifiers { serial: u32 },
    Other,
}

/// What the caller must send to the compositor after an event.
#[derive(Debug, Clone, Copy, PartialEq, Eq, Structural)]
pub enum EisAction {
    Nothing,
    /// Bind the keyboard and text capabilities of the new seat, then flush.
    BindTextCapabilities,
    /// Mark the new device ready, then flush.
    MarkDeviceReady(u64),
}

#[verifier::ext_equal]
pub struct EisStateView {
    pub devices: Seq<EisDeviceSlot>,
    pub last_serial: u32,
    pub sequence: u32,
}

/// The first slot of `device` at or after `from`.
pub open spec fn slot_index_from(devices: Seq<EisDeviceSlot>, device: u64, from: int) -> Option<int>
    decreases devices.len() - from,
{
    if from < 0 || from >= devices.len() {
        None
    } else if devices[from].device == device {
        Some(from)
    } else {
        slot_index_from(devices, device, from + 1)
    }
}

/// The slots other than those of `device`.
pub open spec fn slots_without(devices: Seq<EisDeviceSlot>, device: u64) -> Seq<EisDeviceSlot>
    decreases devices.len(),
{
    if devices.len() == 0 {
        Seq::empty()
    } else {
        let previous = slots_without(devices.drop_last(), device);
        if devices.last().device == device {
            previous
        } else {
            previous.push(devices.last())
        }
    }
}

/// The first resumed device that offers text input, at or after `from`.
pub open spec fn text_device_from(devices: Seq<EisDeviceSlot>, from: int) -> Option<int>
    decreases devices.len() - from,
{
    if from < 0 || from >= devices.len() {
        None
    } else if devices[from].resumed && devices[from].has_text {
        Some(from)
    } else {
        text_device_from(devices, from + 1)
    }
}

/// `devices` with the first slot of `device` set to the given resumed state
/// and not emulating.
pub open spec fn set_resumed(devices: Seq<EisDeviceSlot>, device: u64, resumed: bool) -> Seq<EisDeviceSlot> {
    match slot_index_from(devices, device, 0) {
        Some(i) => devices.update(i, EisDeviceSlot { resumed, emulating: false, ..devices[i] }),
        None => devices,
    }
}

/// The state after an event, and what the caller must do; `Err` when the
/// compositor disconnected.
pub open spec fn spec_handle_event(s: EisStateView, event: EisEvent) -> Result<(EisStateView, EisAction), ()> {
    match event {
        EisEvent::Disconnected => Err(()),
        EisEvent::SeatAdded => Ok((s, EisAction::BindTextCapabilities)),
        EisEvent::DeviceAdded { device, version, has_text } => Ok(
            (
                EisStateView {
                    devices: s.devices.push(
                        EisDeviceSlot { device, has_text, resumed: false, emulating: false },
                    ),
                    ..s
                },
                if version >= 3 {
                    EisAction::MarkDeviceReady(device)
                } else {
                    EisAction::Nothing
                },
            ),
        ),
        EisEvent::DeviceRemoved { device } => Ok(
            (EisStateView { devices: slots_without(s.devices, device), ..s }, EisAction::Nothing),
        ),
        EisEvent::DeviceResumed { device, serial } => Ok(
            (
                EisStateView {
                    devices: set_resumed(s.devices, device, true),
                    last_serial: serial,
                    ..s
                },
                EisAction::Nothing,
            ),
        ),
        EisEvent::DevicePaused { device, serial } => Ok(
            (
                EisStateView {
                    devices: set_resumed(s.devices, device, false),
                    last_serial: serial,
                    ..s
                },
                EisAction::Nothing,
            ),
        ),
        EisEvent::KeyboardModifiers { serial } => Ok(
            (EisStateView { last_serial: serial, ..s }, EisAction::Nothing),
        ),
        EisEvent::Other => Ok((s, EisAction::Nothing)),
    }
}

#[derive(Debug)]
pub struct EisState {
    devices: Vec<EisDeviceSlot>,
    last_serial: u32,
    sequence: u32,
}

impl View for EisState {
    type V = EisStateView;

    closed spec fn view(&self) -> EisStateView {
        EisStateView { devices: self.devices@, last_serial: self.last_serial, sequence: self.sequence }
    }
}

fn find_slot(devices: &Vec<EisDeviceSlot>, device: u64) -> (index: Option<usize>)
    ensures
        match index {
            Some(i) => slot_index_from(devices@, device, 0) == Some(i as int) && i < devices@.len(),
            None => slot_index_from(devices@, device, 0) is None,
        },
{
    let n = devices.len();
    let mut i: usize = 0;
    while i < n
        invariant
            n == devices@.len(),
            i <= n,
            slot_index_from(devices@, device, 0) == slot_index_from(devices@, device, i as int),
        decreases n - i,
    {
        if devices[i].device == device {
            return Some(i);
        }
        i = i + 1;
    }
    None
}

impl EisState {
    pub fn new() -> (state: Self)
        ensures
            state@ == (EisStateView { devices: Seq::empty(), last_serial: 0, sequence: 0 }),
    {
        EisState { devices: Vec::new(), last_serial: 0, sequence: 0 }
    }

    pub fn devices(&self) -> (devices: &Vec<EisDeviceSlot>)
        ensures
            devices@ == self@.devices,
    {
        &self.devices
    }

    fn set_resumed_state(&mut self, device: u64, resumed: bool)
        ensures
            final(self)@ == (EisStateView { devices: set_resumed(old(self)@.devices, device, resumed), ..old(self)@ }),
    {
        match find_slot(&self.devices, device) {
            Some(i) => {
                let slot = self.devices[i];
                self.devices.set(i, EisDeviceSlot { resumed, emulating: false, ..slot });
            },
            None => {},
        }
    }

    /// Applies a protocol event.
    pub fn handle_event(&mut self, event: EisEvent) -> (result: Result<EisAction, InsertionError>)
        ensures
            match spec_handle_event(old(self)@, event) {
                Ok((next, action)) => result == Ok::<EisAction, InsertionError>(action) && final(self)@ == next,
                Err(()) => result matches Err(e) && e.spec_kind() == InsertionErrorKind::BackendUnavailable
                    && e.spec_message() == "the EIS implementation disconnected BLCVoice"@
                    && final(self)@ == old(self)@,
            },
    {
        match event {
            EisEvent::Disconnected => Err(
                InsertionError::new(
                    InsertionErrorKind::BackendUnavailable,
                    "the EIS implementation disconnected BLCVoice",
                ),
            ),
            EisEvent::SeatAdded => Ok(EisAction::BindTextCapabilities),
            EisEvent::DeviceAdded { device, version, has_text } => {
                self.devices.push(EisDeviceSlot { device, has_text, resumed: false, emulating: false });
                if version >= 3 {
                    Ok(EisAction::MarkDeviceReady(device))
                } else {
                    Ok(EisAction::Nothing)
                }
            },
            EisEvent::DeviceRemoved { device } => {
                let mut kept: Vec<EisDeviceSlot> = Vec::new();
                let n = self.devices.len();
                let mut i: usize = 0;
                let ghost all = self.devices@;
                proof {
                    assert(all.subrange(0, 0) =~= Seq::<EisDeviceSlot>::empty());
                }
                while i < n
                    invariant
                        n == self.devices@.len(),
                        all == self.devices@,
                        i <= n,
                        kept@ == slots_without(all.subrange(0, i as int), device),
                    decreases n - i,
                {
                    proof {
                        assert(all.subrange(0, i + 1).drop_last() =~= all.subrange(0, i as int));
                    }
                    if self.devices[i].device != device {
                        kept.push(self.devices[i]);
                    }
                    i = i + 1;
                }
                proof {
                    assert(all.subrange(0, n as int) =~= all);
                }
                self.devices = kept;
                Ok(EisAction::Nothing)
            },
            EisEvent::DeviceResumed { device, serial } => {
                self.last_serial = serial;
                self.set_resumed_state(device, true);
                Ok(EisAction::Nothing)
            },
            EisEvent::DevicePaused { device, serial } => {
                self.last_serial = serial;
                self.set_resumed_state(device, false);
                Ok(EisAction::Nothing)
            },
            EisEvent::KeyboardModifiers { serial } => {
                self.last_serial = serial;
                Ok(EisAction::Nothing)
            },
            EisEvent::Other => Ok(EisAction::Nothing),
        }
    }

    /// Whether a resumed device offers text input.
    pub fn has_resumed_text_device(&self) -> (found: bool)
        ensures
            found == (text_device_from(self@.devices, 0) is Some),
    {
        self.text_device_index().is_some()
    }

    /// The first resumed device that offers text input.
    pub fn text_device_index(&self) -> (index: Option<usize>)
        ensures
            match index {
                Some(i) => text_device_from(self@.devices, 0) == Some(i as int),
                None => text_device_from(self@.devices, 0) is None,
            },
    {
        let n = self.devices.len();
        let mut i: usize = 0;
        while i < n
            invariant
                n == self@.devices.len(),
                i <= n,
                text_device_from(self@.devices, 0) == text_device_from(self@.devices, i as int),
            decreases n - i,
        {
            if self.devices[i].resumed && self.devices[i].has_text {
                return Some(i);
            }
            i = i + 1;
        }
        None
    }

    /// Before submitting on device `index`, emulation must have started on
    /// it. Returns the serial and sequence to start emulating with, when it
    /// had not started; the sequence then advances (wrapping).
    pub fn ensure_emulating(&mut self, index: usize) -> (start: Option<(u32, u32)>)
        requires
            index < old(self)@.devices.len(),
        ensures
            if old(self)@.devices[index as int].emulating {
                start is None && final(self)@ == old(self)@
            } else {
                &&& start == Some((old(self)@.last_serial, old(self)@.sequence))
                &&& final(self)@ == (EisStateView {
                    devices: old(self)@.devices.update(
                        index as int,
                        EisDeviceSlot { emulating: true, ..old(self)@.devices[index as int] },
                    ),
                    sequence: if old(self)@.sequence == u32::MAX {
                        0
                    } else {
                        (old(self)@.sequence + 1) as u32
                    },
                    ..old(self)@
                })
            },
    {
        let slot = self.devices[index];
        if slot.emulating {
            return None;
        }
        let start = (self.last_serial, self.sequence);
        self.sequence = if self.sequence == u32::MAX {
            0
        } else {
            self.sequence + 1
        };
        self.devices.set(index, EisDeviceSlot { emulating: true, ..slot });
        Some(start)
    }
}

/// The error for a flush that failed after `submitted` bytes were accepted:
/// nothing delivered is a backend failure, something delivered a partial
/// submission.
pub fn eis_flush_error(submitted: usize, detail: &str) -> (error: InsertionError)
    ensures
        error.spec_kind() == (if submitted == 0 {
            InsertionErrorKind::BackendFailure
        } else {
            InsertionErrorKind::PartialSubmission
        }),
        error.spec_message() == "EIS flush failed after "@ + decimal(submitted as nat)
            + " UTF-8 bytes were accepted: "@ + detail@,
{
    let kind = if submitted == 0 {
        InsertionErrorKind::BackendFailure
    } else {
        InsertionErrorKind::PartialSubmission
    };
    let mut message = String::from_str("EIS flush failed after ");
    message.append(crate::text::usize_to_decimal(submitted).as_str());
    message.append(" UTF-8 bytes were accepted: ");
    message.append(detail);
    InsertionError::with_message(kind, message)
}

/// A paused or removed device is never chosen for text input, and a device
/// that starts emulating is not started again.
pub proof fn law_only_resumed_text_devices_are_used(devices: Seq<EisDeviceSlot>)
    ensures
        text_device_from(devices, 0) matches Some(i) ==> 0 <= i < devices.len() && devices[i].resumed
            && devices[i].has_text,
{
    lemma_text_device_bounds(devices, 0);
}

proof fn lemma_text_device_bounds(devices: Seq<EisDeviceSlot>, from: int)
    ensures
        text_device_from(devices, from) matches Some(i) ==> from <= i < devices.len() && devices[i].resumed
            && devices[i].has_text,
    decreases devices.len() - from,
{
    if !(from < 0 || from >= devices.len()) && !(devices[from].resumed && devices[from].has_text) {
        lemma_text_device_bounds(devices, from + 1);
    }
}

proof fn lemma_slots_without_excludes(devices: Seq<EisDeviceSlot>, device: u64)
    ensures
        forall|i: int| 0 <= i < slots_without(devices, device).len() ==> (#[trigger] slots_without(
            devices,
            device,
        )[i]).device != device,
    decreases devices.len(),
{
    if devices.len() > 0 {
        lemma_slots_without_excludes(devices.drop_last(), device);
        let previous = slots_without(devices.drop_last(), device);
        assert forall|i: int| 0 <= i < slots_without(devices, device).len() implies (
        #[trigger] slots_without(devices, device)[i]).device != device by {
            if devices.last().device != device && i == previous.len() {
                assert(slots_without(devices, device)[i] == devices.last());
            } else {
                assert(slots_without(devices, device)[i] == previous[i]);
            }
        }
    }
}

/// After a device is removed, no later text submission can use it.
pub proof fn law_removed_device_is_never_used(s: EisStateView, device: u64)
    ensures
        spec_handle_event(s, EisEvent::DeviceRemoved { device }) matches Ok((next, _)) && (
        text_device_from(next.devices, 0) matches Some(i) ==> next.devices[i].device != device),
{
    let next = EisStateView { devices: slots_without(s.devices, device), ..s };
    lemma_slots_without_excludes(s.devices, device);
    lemma_text_device_bounds(next.devices, 0);
}

} // verus!
