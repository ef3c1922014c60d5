//! Report descriptor for the consumer-control input device.
//!
//! A fixed binary blob describing one input report of seven single-bit
//! media controls plus one reserved padding bit.  Every consumer treats it
//! as opaque bytes; the peer may fetch it in chunks at arbitrary offsets
//! through the attribute dispatch table.

use vstd::prelude::*;

verus! {

/// Total length of the report descriptor blob.
pub const HID_REPORT_SIZE: usize = 37;

/// Report ID of the single input report the descriptor declares.
pub const HID_REPORT_INPUT1_ID: u8 = 1;

/// Payload length in bytes of that input report.
pub const HID_REPORT_INPUT1_SIZE: usize = 1;

/// The descriptor blob: one application collection of consumer controls
/// (volume up/down, mute, play/pause, stop, next/previous track), seven
/// one-bit variable inputs and one constant padding bit.
pub open spec fn hid_report_spec() -> Seq<u8> {
    seq![
        0x05u8, 0x0C,  // usage page: consumer
        0x09, 0x01,  // usage: consumer control
        0xA1, 0x01,  // collection: application
        0x85, 0x01,  // report id 1
        0x09, 0xE9,  // usage: volume increment
        0x09, 0xEA,  // usage: volume decrement
        0x09, 0xE2,  // usage: mute
        0x09, 0xCD,  // usage: play/pause
        0x09, 0xB7,  // usage: stop
        0x09, 0xB5,  // usage: scan next track
        0x09, 0xB6,  // usage: scan previous track
        0x15, 0x00,  // logical minimum 0
        0x25, 0x01,  // logical maximum 1
        0x95, 0x07,  // report count 7
        0x75, 0x01,  // report size 1
        0x81, 0x02,  // input: data, variable, absolute
        0x95, 0x01,  // report count 1
        0x81, 0x03,  // input: constant padding bit
        0xC0,  // end collection
    ]
}

/// The descriptor blob as bytes a read accessor can serve from.
pub fn hid_report() -> (r: Vec<u8>)
    ensures
        r@ == hid_report_spec(),
        r@.len() == HID_REPORT_SIZE,
{
    let blob: [u8; 37] = [
        0x05, 0x0C, 0x09, 0x01, 0xA1, 0x01, 0x85, 0x01, 0x09, 0xE9, 0x09, 0xEA, 0x09, 0xE2, 0x09,
        0xCD, 0x09, 0xB7, 0x09, 0xB5, 0x09, 0xB6, 0x15, 0x00, 0x25, 0x01, 0x95, 0x07, 0x75, 0x01,
        0x81, 0x02, 0x95, 0x01, 0x81, 0x03, 0xC0,
    ];
    let r = vstd::slice::slice_to_vec(blob.as_slice());
    proof {
        assert(r@ =~= hid_report_spec());
    }
    r
}

} // verus!
