//! Keypress notification: the media-key bitmask and the press/clear
//! notifier protocol.
//!
//! One logical press is expressed as a press notification followed
//! immediately by an all-clear notification: the device keeps no held-key
//! state, so only momentary actions are representable.  Both sends are
//! gated behind the peer's subscription flag (the CCCD byte), read through
//! the link layer before anything is sent.
//!
//! The notifier is a step machine: it names the link-layer action it needs
//! next, the binding performs that action and reports the outcome, and the
//! machine advances.  A send that reports a disconnect ends the call at
//! once; any other send error is non-fatal and the call continues.

use vstd::prelude::*;

verus! {

// Bit assignments of the single-byte consumer-control input report, in
// the order the report descriptor declares them.
pub const MEDIA_KEY_CLEAR: u8 = 0x00;

pub const MEDIA_KEY_VOL_UP: u8 = 0x01;

pub const MEDIA_KEY_VOL_DOWN: u8 = 0x02;

pub const MEDIA_KEY_MUTE: u8 = 0x04;

pub const MEDIA_KEY_PLAY_PAUSE: u8 = 0x08;

pub const MEDIA_KEY_STOP: u8 = 0x10;

pub const MEDIA_KEY_NEXT_TRACK: u8 = 0x20;

pub const MEDIA_KEY_PREV_TRACK: u8 = 0x40;

/// Bitmask of media keys carried by one input report.
#[derive(Clone, Copy, PartialEq, Eq, Structural, Debug)]
pub struct MediaKeys {
    pub bits: u8,
}

impl MediaKeys {
    pub fn new(bits: u8) -> (k: Self)
        ensures
            k.bits == bits,
    {
        MediaKeys { bits }
    }

    pub fn bits(&self) -> (b: u8)
        ensures
            b == self.bits,
    {
        self.bits
    }

    /// The one gesture this remote reports.
    pub fn play_pause() -> (k: Self)
        ensures
            k.bits == MEDIA_KEY_PLAY_PAUSE,
    {
        MediaKeys { bits: MEDIA_KEY_PLAY_PAUSE }
    }

    /// The all-clear mask that ends every press.
    pub fn clear() -> (k: Self)
        ensures
            k.bits == MEDIA_KEY_CLEAR,
    {
        MediaKeys { bits: MEDIA_KEY_CLEAR }
    }
}

/// Capability interface of a link-layer binding that can deliver a whole
/// keypress (press then clear) at a data handle, gated by the subscription
/// flag behind a notify handle; returns whether the peer disconnected.
pub trait SendsKeypresses {
    fn send_keypress(&mut self, notify_handle: u16, data_handle: u16, keys: MediaKeys) -> bool;
}

/// Result of one unit of link-layer work (a notification send or a plain
/// attribute-server work unit).
#[derive(Clone, Copy, PartialEq, Eq, Structural, Debug)]
pub enum LinkOutcome {
    /// The work unit completed; the session goes on.
    Worked,
    /// The peer disconnected.
    Disconnected,
    /// An isolated error; non-fatal, the session goes on.
    Error,
}

/// The notification-enable sentinel: the CCCD read must return exactly one
/// byte and that byte must equal one.
pub open spec fn cccd_enables(read_len: Option<usize>, cccd: u8) -> bool {
    read_len == Some(1usize) && cccd == 1
}

/// Payloads sent by one whole notifier call.
pub open spec fn notify_sends_spec(keys: u8, enabled: bool, press: LinkOutcome) -> Seq<u8> {
    if !enabled {
        Seq::<u8>::empty()
    } else if press is Disconnected {
        seq![keys]
    } else {
        seq![keys, MEDIA_KEY_CLEAR]
    }
}

/// Whether one whole notifier call reports the peer disconnected.
pub open spec fn notify_disconnected_spec(
    enabled: bool,
    press: LinkOutcome,
    clear: LinkOutcome,
) -> bool {
    enabled && (press is Disconnected || clear is Disconnected)
}

/// What the notifier asks its link-layer binding to do next.
#[derive(Clone, Copy, PartialEq, Eq, Structural, Debug)]
pub enum NotifyRequest {
    /// Read one byte of the subscription flag at offset zero behind this
    /// handle.
    ReadCccd { handle: u16 },
    /// Send a one-byte notification payload at this handle.
    Send { handle: u16, payload: u8 },
    /// The call is over; whether the peer disconnected during it.
    Finished { disconnected: bool },
}

#[derive(Clone, Copy, PartialEq, Eq, Structural, Debug)]
pub enum NotifyPhase {
    AwaitCccd,
    AwaitPress,
    AwaitClear,
    Complete,
}

/// One keypress-notification call in progress.
pub struct KeypressNotifier {
    phase: NotifyPhase,
    notify_handle: u16,
    data_handle: u16,
    keys: u8,
    disconnected: bool,
    sends: Ghost<Seq<u8>>,
}

impl KeypressNotifier {
    pub closed spec fn phase(self) -> NotifyPhase {
        self.phase
    }

    pub closed spec fn notify_handle(self) -> u16 {
        self.notify_handle
    }

    pub closed spec fn data_handle(self) -> u16 {
        self.data_handle
    }

    pub closed spec fn keys(self) -> u8 {
        self.keys
    }

    /// Meaningful once the phase is `Complete`.
    pub closed spec fn disconnected(self) -> bool {
        self.disconnected
    }

    /// The payloads whose sends have been performed and answered so far,
    /// in order.
    pub closed spec fn sends(self) -> Seq<u8> {
        self.sends@
    }

    pub open spec fn wf(self) -> bool {
        &&& self.phase() is AwaitCccd ==> self.sends() == Seq::<u8>::empty()
        &&& self.phase() is AwaitPress ==> self.sends() == Seq::<u8>::empty()
        &&& self.phase() is AwaitClear ==> self.sends() == seq![self.keys()]
    }

    /// A fresh call for one keypress: nothing read, nothing sent.
    pub fn new(notify_handle: u16, data_handle: u16, keys: MediaKeys) -> (s: Self)
        ensures
            s.wf(),
            s.phase() is AwaitCccd,
            s.notify_handle() == notify_handle,
            s.data_handle() == data_handle,
            s.keys() == keys.bits,
            s.sends() == Seq::<u8>::empty(),
    {
        KeypressNotifier {
            phase: NotifyPhase::AwaitCccd,
            notify_handle,
            data_handle,
            keys: keys.bits,
            disconnected: false,
            sends: Ghost(Seq::empty()),
        }
    }

    /// The link-layer action the binding must perform next.
    pub fn request(&self) -> (r: NotifyRequest)
        ensures
            self.phase() is AwaitCccd ==> r == (NotifyRequest::ReadCccd {
                handle: self.notify_handle(),
            }),
            self.phase() is AwaitPress ==> r == (NotifyRequest::Send {
                handle: self.data_handle(),
                payload: self.keys(),
            }),
            self.phase() is AwaitClear ==> r == (NotifyRequest::Send {
                handle: self.data_handle(),
                payload: MEDIA_KEY_CLEAR,
            }),
            self.phase() is Complete ==> r == (NotifyRequest::Finished {
                disconnected: self.disconnected(),
            }),
    {
        match self.phase {
            NotifyPhase::AwaitCccd => NotifyRequest::ReadCccd { handle: self.notify_handle },
            NotifyPhase::AwaitPress => NotifyRequest::Send {
                handle: self.data_handle,
                payload: self.keys,
            },
            NotifyPhase::AwaitClear => NotifyRequest::Send {
                handle: self.data_handle,
                payload: MEDIA_KEY_CLEAR,
            },
            NotifyPhase::Complete => NotifyRequest::Finished { disconnected: self.disconnected },
        }
    }

    /// Report the subscription-flag read: `read_len` is what the read
    /// returned, `cccd` the byte it filled in.  Anything but the enabled
    /// sentinel finishes the call with nothing sent and no disconnect.
    pub fn on_cccd(&mut self, read_len: Option<usize>, cccd: u8)
        requires
            old(self).wf(),
            old(self).phase() is AwaitCccd,
        ensures
            final(self).wf(),
            final(self).notify_handle() == old(self).notify_handle(),
            final(self).data_handle() == old(self).data_handle(),
            final(self).keys() == old(self).keys(),
            final(self).sends() == Seq::<u8>::empty(),
            cccd_enables(read_len, cccd) ==> final(self).phase() is AwaitPress,
            !cccd_enables(read_len, cccd) ==> final(self).phase() is Complete
                && !final(self).disconnected(),
    {
        let enabled = match read_len {
            Some(n) => n == 1 && cccd == 1,
            None => false,
        };
        if enabled {
            self.phase = NotifyPhase::AwaitPress;
        } else {
            self.phase = NotifyPhase::Complete;
            self.disconnected = false;
        }
    }

    /// Report the outcome of the send the machine last requested.  A
    /// disconnect ends the call at once; after the press, any other
    /// outcome moves on to the clear send; after the clear the call is
    /// over either way.
    pub fn on_send(&mut self, outcome: LinkOutcome)
        requires
            old(self).wf(),
            old(self).phase() is AwaitPress || old(self).phase() is AwaitClear,
        ensures
            final(self).wf(),
            final(self).notify_handle() == old(self).notify_handle(),
            final(self).data_handle() == old(self).data_handle(),
            final(self).keys() == old(self).keys(),
            old(self).phase() is AwaitPress ==> {
                &&& final(self).sends() == seq![old(self).keys()]
                &&& outcome is Disconnected ==> final(self).phase() is Complete
                    && final(self).disconnected()
                &&& !(outcome is Disconnected) ==> final(self).phase() is AwaitClear
            },
            old(self).phase() is AwaitClear ==> {
                &&& final(self).sends() == seq![old(self).keys(), MEDIA_KEY_CLEAR]
                &&& final(self).phase() is Complete
                &&& final(self).disconnected() == (outcome is Disconnected)
            },
    {
        match self.phase {
            NotifyPhase::AwaitPress => {
                self.sends = Ghost(self.sends@.push(self.keys));
                match outcome {
                    LinkOutcome::Disconnected => {
                        self.phase = NotifyPhase::Complete;
                        self.disconnected = true;
                    },
                    _ => {
                        self.phase = NotifyPhase::AwaitClear;
                    },
                }
            },
            _ => {
                self.sends = Ghost(self.sends@.push(MEDIA_KEY_CLEAR));
                self.phase = NotifyPhase::Complete;
                self.disconnected = match outcome {
                    LinkOutcome::Disconnected => true,
                    _ => false,
                };
            },
        }
    }
}

/// One whole notifier call, its link answers given as arguments: when the
/// subscription flag is anything but the enabled sentinel nothing at all
/// is sent and the call does not report a disconnect; when it is enabled,
/// exactly the press payload and then the all-clear payload are sent,
/// except that a press send answered by a disconnect ends the call before
/// the clear.  Returns the payloads sent, in order, and whether the call
/// reports a disconnect.
pub fn run_notification(
    notify_handle: u16,
    data_handle: u16,
    keys: MediaKeys,
    cccd_read_len: Option<usize>,
    cccd: u8,
    press_outcome: LinkOutcome,
    clear_outcome: LinkOutcome,
) -> (r: (Vec<u8>, bool))
    ensures
        r.0@ == notify_sends_spec(keys.bits, cccd_enables(cccd_read_len, cccd), press_outcome),
        r.1 == notify_disconnected_spec(
            cccd_enables(cccd_read_len, cccd),
            press_outcome,
            clear_outcome,
        ),
{
    let mut machine = KeypressNotifier::new(notify_handle, data_handle, keys);
    let mut sent: Vec<u8> = Vec::new();
    machine.on_cccd(cccd_read_len, cccd);
    match machine.request() {
        NotifyRequest::Finished { disconnected } => {
            proof {
                assert(sent@ =~= notify_sends_spec(keys.bits, false, press_outcome));
            }
            return (sent, disconnected);
        },
        NotifyRequest::Send { handle: _, payload } => {
            sent.push(payload);
        },
        NotifyRequest::ReadCccd { .. } => {},
    }
    machine.on_send(press_outcome);
    match machine.request() {
        NotifyRequest::Finished { disconnected } => {
            proof {
                assert(sent@ =~= notify_sends_spec(keys.bits, true, press_outcome));
            }
            return (sent, disconnected);
        },
        NotifyRequest::Send { handle: _, payload } => {
            sent.push(payload);
        },
        NotifyRequest::ReadCccd { .. } => {},
    }
    machine.on_send(clear_outcome);
    match machine.request() {
        NotifyRequest::Finished { disconnected } => {
            proof {
                assert(sent@ =~= notify_sends_spec(keys.bits, true, press_outcome));
            }
            (sent, disconnected)
        },
        _ => (sent, false),
    }
}

} // verus!
