//! Operator feedback: the three-valued status signal and its hue.
//!
//! The indicator itself (an RGB LED behind a color-rendering driver) is an
//! external collaborator; the core only picks the hue for the state it
//! wants shown and hands it to whatever implements [`Colorable`].

use vstd::prelude::*;

verus! {

/// Hue of the error/initializing signal.
pub const RED: u8 = 0;

/// Hue of the idle signal.
pub const YELLOW: u8 = 35;

/// Hue of the advertising/ready signal.
pub const GREEN: u8 = 85;

/// Capability interface of an indicator that can show one hue at full
/// saturation; fire-and-forget, no acknowledgment.
pub trait Colorable {
    fn set_hue(&mut self, hue: u8);
}

/// The three states the operator can be shown.
#[derive(Clone, Copy, PartialEq, Eq, Structural, Debug)]
pub enum StatusSignal {
    /// Link bring-up failed or is still under way.
    Error,
    /// Powered, nothing advertised yet.
    Idle,
    /// Advertising or serving a peer.
    Ready,
}

pub open spec fn status_hue_spec(s: StatusSignal) -> u8 {
    match s {
        StatusSignal::Error => RED,
        StatusSignal::Idle => YELLOW,
        StatusSignal::Ready => GREEN,
    }
}

/// The hue shown for each status signal.
pub fn status_hue(s: StatusSignal) -> (h: u8)
    ensures
        h == status_hue_spec(s),
{
    match s {
        StatusSignal::Error => RED,
        StatusSignal::Idle => YELLOW,
        StatusSignal::Ready => GREEN,
    }
}

} // verus!
