//! The session controller: one advertise/connect/serve/disconnect cycle
//! after another, with the bonding key as the only state that crosses a
//! session boundary.
//!
//! The controller is the decision half of the firmware's main loop.  A
//! link-layer binding performs each blocking or radio-facing action and
//! reports back; the controller advances its phase, steps the debouncer,
//! serves the attribute table, and keeps the bonding key current so that
//! the next advertising bring-up can offer it to a re-pairing peer.

use vstd::prelude::*;
use crate::attributes::{AttributeTable, INPUT_REPORT_CCCD_HANDLE, INPUT_REPORT_HANDLE};
use crate::debounce::{step_fires, step_remaining, Debouncer, Event};
use crate::hid::{KeypressNotifier, LinkOutcome, MediaKeys};

verus! {

/// Where the controller stands in the advertise/connect/serve cycle.
#[derive(Clone, Copy, PartialEq, Eq, Structural, Debug)]
pub enum SessionPhase {
    /// Between sessions: nothing advertised, no peer.
    Idle,
    /// Advertising started, waiting for a connection.
    Advertising,
    /// A peer is connected and the attribute table is being served.
    Serving,
}

/// The controller's session-crossing state, abstracted to what the cycle
/// laws speak of: the phase and the retained bonding key.
#[derive(Clone, Copy, PartialEq, Eq, Structural, Debug)]
pub struct CtrlState {
    pub phase: SessionPhase,
    pub ltk: Option<u128>,
}

/// One thing the outside loop reports to the controller.
#[derive(Clone, Copy, PartialEq, Eq, Structural, Debug)]
pub enum CtrlEvent {
    /// Advertising bring-up was performed (with the key the controller
    /// supplied).
    BeginAdvertising,
    /// The link layer reports a connection.
    Connected,
    /// A keypress-notifier call finished, disconnected or not.
    NotifyFinished { disconnected: bool },
    /// One unit of attribute-server work finished.
    WorkResult { outcome: LinkOutcome },
    /// The link layer's current bonding key was read back.
    LtkRead { ltk: Option<u128> },
}

/// Phase-and-key transition on one event.  Ticks of the input poll do not
/// appear here: they never move the phase or the key.
pub open spec fn abs_step(s: CtrlState, e: CtrlEvent) -> CtrlState {
    match e {
        CtrlEvent::BeginAdvertising => if s.phase is Idle {
            CtrlState { phase: SessionPhase::Advertising, ltk: s.ltk }
        } else {
            s
        },
        CtrlEvent::Connected => if s.phase is Advertising {
            CtrlState { phase: SessionPhase::Serving, ltk: s.ltk }
        } else {
            s
        },
        CtrlEvent::NotifyFinished { disconnected } => if s.phase is Serving && disconnected {
            CtrlState { phase: SessionPhase::Idle, ltk: s.ltk }
        } else {
            s
        },
        CtrlEvent::WorkResult { outcome } => if s.phase is Serving && outcome is Disconnected {
            CtrlState { phase: SessionPhase::Idle, ltk: s.ltk }
        } else {
            s
        },
        CtrlEvent::LtkRead { ltk } => if s.phase is Serving {
            CtrlState { phase: s.phase, ltk }
        } else {
            s
        },
    }
}

/// Phase-and-key state after a whole sequence of events.
pub open spec fn abs_run(s: CtrlState, evs: Seq<CtrlEvent>) -> CtrlState
    decreases evs.len(),
{
    if evs.len() == 0 {
        s
    } else {
        abs_run(abs_step(s, evs.first()), evs.drop_first())
    }
}

/// The bonding key persists: whatever events follow, as long as none of
/// them reads a new key from the link layer, the retained key is
/// untouched — in particular it survives disconnects and is the key the
/// next advertising bring-up is handed.
pub proof fn lemma_bonding_key_persists(s: CtrlState, evs: Seq<CtrlEvent>)
    requires
        forall|i: int| 0 <= i < evs.len() ==> !(evs[i] is LtkRead),
    ensures
        abs_run(s, evs).ltk == s.ltk,
    decreases evs.len(),
{
    if evs.len() > 0 {
        let rest = evs.drop_first();
        assert(forall|i: int| 0 <= i < rest.len() ==> rest[i] == evs[i + 1]);
        lemma_bonding_key_persists(abs_step(s, evs.first()), rest);
    }
}

/// A key read while serving is the key every later state retains until
/// the next read — so the key obtained in one session is the input to the
/// next session's bring-up.
pub proof fn lemma_key_reaches_next_session(s: CtrlState, k: Option<u128>, evs: Seq<CtrlEvent>)
    requires
        s.phase is Serving,
        forall|i: int| 0 <= i < evs.len() ==> !(evs[i] is LtkRead),
    ensures
        abs_run(abs_step(s, CtrlEvent::LtkRead { ltk: k }), evs).ltk == k,
{
    lemma_bonding_key_persists(abs_step(s, CtrlEvent::LtkRead { ltk: k }), evs);
}

/// Advertising-flags byte: LE limited discoverable, BR/EDR not supported.
pub const ADVERTISING_FLAGS: u8 = 0x05;

/// Appearance category advertised to the peer: keyboard class.
pub const APPEARANCE_KEYBOARD: u16 = 0x03C1;

/// Company identifier of the vendor-specific advertising entry.
pub const COMPANY_IDENTIFIER: u16 = 0x1337;

/// The ASCII bytes of the advertised device name, "vKnob".
pub open spec fn local_name_spec() -> Seq<u8> {
    seq![0x76u8, 0x4B, 0x6E, 0x6F, 0x62]
}

/// The advertised service UUIDs: HID, battery, device information.
pub open spec fn service_uuids_spec() -> Seq<u16> {
    seq![0x1812u16, 0x180Fu16, 0x180Au16]
}

/// The advertising payload the bring-up hands to the link layer.
pub struct Advertisement {
    /// Discoverability flags byte.
    pub flags: u8,
    /// The 16-bit service UUIDs the device offers.
    pub service_uuids: Vec<u16>,
    /// Complete local name, ASCII.
    pub local_name: Vec<u8>,
    /// Vendor entry: company identifier with an empty payload.
    pub company_identifier: u16,
    /// Appearance category, sent little-endian.
    pub appearance: u16,
}

/// The fixed advertising payload of this device.
pub fn advertisement() -> (a: Advertisement)
    ensures
        a.flags == ADVERTISING_FLAGS,
        a.service_uuids@ == service_uuids_spec(),
        a.local_name@ == local_name_spec(),
        a.company_identifier == COMPANY_IDENTIFIER,
        a.appearance == APPEARANCE_KEYBOARD,
{
    let uuids: [u16; 3] = [0x1812, 0x180F, 0x180A];
    let name: [u8; 5] = [0x76, 0x4B, 0x6E, 0x6F, 0x62];
    let a = Advertisement {
        flags: ADVERTISING_FLAGS,
        service_uuids: vstd::slice::slice_to_vec(uuids.as_slice()),
        local_name: vstd::slice::slice_to_vec(name.as_slice()),
        company_identifier: COMPANY_IDENTIFIER,
        appearance: APPEARANCE_KEYBOARD,
    };
    proof {
        assert(a.service_uuids@ =~= service_uuids_spec());
        assert(a.local_name@ =~= local_name_spec());
    }
    a
}

/// The long-lived controller object: constructed once at process start,
/// driven by exclusive reference for the life of the program.
pub struct SessionController {
    phase: SessionPhase,
    ltk: Option<u128>,
    debouncer: Debouncer,
    table: AttributeTable,
}

impl SessionController {
    pub closed spec fn phase(self) -> SessionPhase {
        self.phase
    }

    /// The retained bonding key, or none before the first pairing.
    pub closed spec fn ltk(self) -> Option<u128> {
        self.ltk
    }

    pub closed spec fn debouncer(self) -> Debouncer {
        self.debouncer
    }

    /// The attribute table of the current session.
    pub closed spec fn table(self) -> AttributeTable {
        self.table
    }

    /// The controller as the cycle laws see it.
    pub open spec fn abs(self) -> CtrlState {
        CtrlState { phase: self.phase(), ltk: self.ltk() }
    }

    pub open spec fn wf(self) -> bool {
        &&& self.debouncer().wf()
        &&& self.table().wf()
    }

    /// Fresh at power-on: no key yet, debouncer fully armed.
    pub fn new() -> (s: Self)
        ensures
            s.wf(),
            s.phase() is Idle,
            s.ltk() is None,
            s.debouncer().remaining() == crate::debounce::DEBOUNCE_THRESHOLD,
    {
        SessionController {
            phase: SessionPhase::Idle,
            ltk: None,
            debouncer: Debouncer::new(),
            table: AttributeTable::new(),
        }
    }

    /// Enter the advertising phase; returns the retained bonding key for
    /// the binding to hand to the link layer's bring-up.
    pub fn begin_advertising(&mut self) -> (k: Option<u128>)
        requires
            old(self).wf(),
            old(self).phase() is Idle,
        ensures
            final(self).wf(),
            k == old(self).ltk(),
            final(self).abs() == abs_step(old(self).abs(), CtrlEvent::BeginAdvertising),
            final(self).phase() is Advertising,
            final(self).ltk() == old(self).ltk(),
            final(self).debouncer() == old(self).debouncer(),
    {
        self.phase = SessionPhase::Advertising;
        self.ltk
    }

    /// The link layer reports a connection: build this session's attribute
    /// table and start serving.
    pub fn on_connected(&mut self)
        requires
            old(self).wf(),
            old(self).phase() is Advertising,
        ensures
            final(self).wf(),
            final(self).abs() == abs_step(old(self).abs(), CtrlEvent::Connected),
            final(self).phase() is Serving,
            final(self).ltk() == old(self).ltk(),
            final(self).debouncer() == old(self).debouncer(),
            final(self).table().protocol_mode.contents() == seq![0x01u8],
            final(self).table().control_point.stored_len() == 0,
    {
        self.table = AttributeTable::new();
        self.phase = SessionPhase::Serving;
    }

    /// One serving tick's input poll: advance the debouncer with the raw
    /// level; a fire event asks the loop to run the keypress notifier.
    pub fn poll_input(&mut self, level: bool) -> (fired: Option<Event>)
        requires
            old(self).wf(),
            old(self).phase() is Serving,
        ensures
            final(self).wf(),
            final(self).abs() == old(self).abs(),
            final(self).table() == old(self).table(),
            final(self).debouncer().remaining() == step_remaining(
                old(self).debouncer().remaining(),
                level,
            ),
            fired == (if step_fires(old(self).debouncer().remaining(), level) {
                Some(Event::Fire)
            } else {
                None::<Event>
            }),
    {
        self.debouncer.poll(level)
    }

    /// The notifier the loop must run when a press fires: one play/pause
    /// keypress at the input-report handle, gated by its subscription
    /// descriptor.
    pub fn start_keypress(&self) -> (n: KeypressNotifier)
        requires
            self.wf(),
            self.phase() is Serving,
        ensures
            n.wf(),
            n.phase() is AwaitCccd,
            n.notify_handle() == INPUT_REPORT_CCCD_HANDLE,
            n.data_handle() == INPUT_REPORT_HANDLE,
            n.keys() == crate::hid::MEDIA_KEY_PLAY_PAUSE,
            n.sends() == Seq::<u8>::empty(),
    {
        KeypressNotifier::new(INPUT_REPORT_CCCD_HANDLE, INPUT_REPORT_HANDLE, MediaKeys::play_pause())
    }

    /// A keypress-notifier call came back: a disconnect ends the session,
    /// anything else leaves it serving.
    pub fn on_notify_finished(&mut self, disconnected: bool)
        requires
            old(self).wf(),
            old(self).phase() is Serving,
        ensures
            final(self).wf(),
            final(self).abs() == abs_step(
                old(self).abs(),
                CtrlEvent::NotifyFinished { disconnected },
            ),
            final(self).ltk() == old(self).ltk(),
            final(self).debouncer() == old(self).debouncer(),
            final(self).table() == old(self).table(),
            disconnected ==> final(self).phase() is Idle,
            !disconnected ==> final(self).phase() is Serving,
    {
        if disconnected {
            self.phase = SessionPhase::Idle;
        }
    }

    /// One unit of attribute-server work came back: a disconnect ends the
    /// session; an isolated error is non-fatal and the session goes on.
    pub fn on_work_result(&mut self, outcome: LinkOutcome)
        requires
            old(self).wf(),
            old(self).phase() is Serving,
        ensures
            final(self).wf(),
            final(self).abs() == abs_step(old(self).abs(), CtrlEvent::WorkResult { outcome }),
            final(self).ltk() == old(self).ltk(),
            final(self).debouncer() == old(self).debouncer(),
            final(self).table() == old(self).table(),
            outcome is Disconnected ==> final(self).phase() is Idle,
            !(outcome is Disconnected) ==> final(self).phase() is Serving,
    {
        match outcome {
            LinkOutcome::Disconnected => {
                self.phase = SessionPhase::Idle;
            },
            _ => {},
        }
    }

    /// Refresh the retained bonding key from the link layer's current
    /// value; the key may only appear partway through a session, once
    /// pairing completes.
    pub fn record_ltk(&mut self, ltk: Option<u128>)
        requires
            old(self).wf(),
            old(self).phase() is Serving,
        ensures
            final(self).wf(),
            final(self).abs() == abs_step(old(self).abs(), CtrlEvent::LtkRead { ltk }),
            final(self).ltk() == ltk,
            final(self).phase() is Serving,
            final(self).debouncer() == old(self).debouncer(),
            final(self).table() == old(self).table(),
    {
        self.ltk = ltk;
    }

    /// Serve a pending peer read against this session's table.
    pub fn handle_read(&self, handle: u16, offset: usize, dst: &mut [u8]) -> (r: Option<usize>)
        requires
            self.wf(),
            self.phase() is Serving,
        ensures
            match crate::attributes::readable_source(self.table(), handle) {
                Some(src) => {
                    &&& r is Some
                    &&& r.unwrap() == crate::attributes::copy_len(
                        src.len(),
                        offset as nat,
                        old(dst)@.len(),
                    )
                    &&& final(dst)@.len() == old(dst)@.len()
                    &&& forall|i: int| 0 <= i < r.unwrap() ==> final(dst)@[i] == src[offset + i]
                    &&& forall|i: int|
                        r.unwrap() <= i < old(dst)@.len() ==> final(dst)@[i] == old(dst)@[i]
                },
                None => {
                    &&& r is None
                    &&& final(dst)@ == old(dst)@
                },
            },
    {
        self.table.read(handle, offset, dst)
    }

    /// Serve a pending peer write against this session's table.
    pub fn handle_write(&mut self, handle: u16, offset: usize, data: &[u8]) -> (r: Option<
        Result<(), crate::attributes::WriteError>,
    >)
        requires
            old(self).wf(),
            old(self).phase() is Serving,
        ensures
            final(self).wf(),
            final(self).abs() == old(self).abs(),
            final(self).phase() is Serving,
            final(self).ltk() == old(self).ltk(),
            final(self).debouncer() == old(self).debouncer(),
            handle == crate::attributes::PROTOCOL_MODE_HANDLE && offset + data@.len()
                <= crate::attributes::SCRATCH_CAPACITY ==> {
                &&& r == Some(Result::<(), crate::attributes::WriteError>::Ok(()))
                &&& final(self).table().protocol_mode.stored_len() == offset + data@.len()
                &&& final(self).table().protocol_mode.bytes()
                    == crate::attributes::scratch_write_bytes(
                    old(self).table().protocol_mode.bytes(),
                    offset as nat,
                    data@,
                )
            },
            handle == crate::attributes::PROTOCOL_MODE_HANDLE && offset + data@.len()
                > crate::attributes::SCRATCH_CAPACITY ==> {
                &&& r == Some(
                    Result::<(), crate::attributes::WriteError>::Err(
                        crate::attributes::WriteError::CapacityExceeded,
                    ),
                )
                &&& final(self).table().protocol_mode.bytes() == old(
                    self,
                ).table().protocol_mode.bytes()
                &&& final(self).table().protocol_mode.stored_len() == old(
                    self,
                ).table().protocol_mode.stored_len()
            },
            handle == crate::attributes::HID_CONTROL_POINT_HANDLE && offset + data@.len()
                <= crate::attributes::SCRATCH_CAPACITY ==> {
                &&& r == Some(Result::<(), crate::attributes::WriteError>::Ok(()))
                &&& final(self).table().control_point.stored_len() == offset + data@.len()
                &&& final(self).table().control_point.bytes()
                    == crate::attributes::scratch_write_bytes(
                    old(self).table().control_point.bytes(),
                    offset as nat,
                    data@,
                )
            },
            handle == crate::attributes::HID_CONTROL_POINT_HANDLE && offset + data@.len()
                > crate::attributes::SCRATCH_CAPACITY ==> {
                &&& r == Some(
                    Result::<(), crate::attributes::WriteError>::Err(
                        crate::attributes::WriteError::CapacityExceeded,
                    ),
                )
                &&& final(self).table().control_point.bytes() == old(
                    self,
                ).table().control_point.bytes()
                &&& final(self).table().control_point.stored_len() == old(
                    self,
                ).table().control_point.stored_len()
            },
            handle != crate::attributes::PROTOCOL_MODE_HANDLE ==> final(self).table().protocol_mode
                == old(self).table().protocol_mode,
            handle != crate::attributes::HID_CONTROL_POINT_HANDLE ==> final(self).table().control_point == old(self).table().control_point,
            handle != crate::attributes::PROTOCOL_MODE_HANDLE && handle
                != crate::attributes::HID_CONTROL_POINT_HANDLE ==> r is None,
    {
        self.table.write(handle, offset, data)
    }
}

} // verus!
