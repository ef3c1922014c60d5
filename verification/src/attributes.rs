//! Attribute dispatch: read and write accessors over the exposed table.
//!
//! Every read accessor serves an offset/length-clamped copy out of its
//! backing byte source, so the peer can fetch long values (the report map
//! in particular) in chunks.  The two writable characteristics, protocol
//! mode and HID control point, store into fixed-capacity scratch buffers
//! and reject any write that would run past the capacity.

use vstd::prelude::*;
use crate::hid_descriptor::{hid_report, hid_report_spec, HID_REPORT_INPUT1_ID};

verus! {

/// Number of bytes a clamped copy moves: all that the capacity admits, and
/// never past the end of the source.
pub open spec fn copy_len(src_len: nat, offset: nat, cap: nat) -> nat {
    if offset >= src_len {
        0
    } else if cap <= src_len - offset {
        cap
    } else {
        (src_len - offset) as nat
    }
}

/// Offset/length-clamped copy out of a byte source into a caller-supplied
/// buffer; returns the number of bytes copied.  An offset at or past the
/// end of the source is a caller fault and is answered defensively with
/// zero bytes rather than a panic.
pub fn write(offset: usize, dst: &mut [u8], src: &[u8]) -> (n: usize)
    ensures
        n == copy_len(src@.len(), offset as nat, old(dst)@.len()),
        final(dst)@.len() == old(dst)@.len(),
        forall|i: int| 0 <= i < n ==> final(dst)@[i] == src@[offset + i],
        forall|i: int| n <= i < old(dst)@.len() ==> final(dst)@[i] == old(dst)@[i],
{
    if offset >= src.len() {
        return 0;
    }
    let avail: usize = src.len() - offset;
    let n: usize = if dst.len() <= avail {
        dst.len()
    } else {
        avail
    };
    let mut i: usize = 0;
    while i < n
        invariant
            i <= n,
            n == copy_len(src@.len(), offset as nat, old(dst)@.len()),
            offset + n <= src@.len(),
            src@.len() <= usize::MAX,
            n <= old(dst)@.len(),
            dst@.len() == old(dst)@.len(),
            forall|k: int| 0 <= k < i ==> dst@[k] == src@[offset + k],
            forall|k: int| i <= k < old(dst)@.len() ==> dst@[k] == old(dst)@[k],
        decreases n - i,
    {
        dst[i] = src[offset + i];
        i = i + 1;
    }
    n
}

/// PnP identity: vendor-ID source tag, then vendor ID, product ID and
/// product version as little-endian 16-bit fields.
pub open spec fn device_info_spec() -> Seq<u8> {
    seq![0x02u8, 0x37, 0x13, 0x37, 0x13, 0x37, 0x13]
}

pub fn device_info() -> (r: Vec<u8>)
    ensures
        r@ == device_info_spec(),
{
    let blob: [u8; 7] = [0x02, 0x37, 0x13, 0x37, 0x13, 0x37, 0x13];
    let r = vstd::slice::slice_to_vec(blob.as_slice());
    proof {
        assert(r@ =~= device_info_spec());
    }
    r
}

/// Manufacturer name, the ASCII bytes of "Luke Enterprises".
pub open spec fn device_manufacturer_spec() -> Seq<u8> {
    seq![
        0x4Cu8, 0x75, 0x6B, 0x65, 0x20, 0x45, 0x6E, 0x74, 0x65, 0x72, 0x70, 0x72, 0x69, 0x73,
        0x65, 0x73,
    ]
}

pub fn device_manufacturer() -> (r: Vec<u8>)
    ensures
        r@ == device_manufacturer_spec(),
{
    let blob: [u8; 16] = [
        0x4C, 0x75, 0x6B, 0x65, 0x20, 0x45, 0x6E, 0x74, 0x65, 0x72, 0x70, 0x72, 0x69, 0x73, 0x65,
        0x73,
    ];
    let r = vstd::slice::slice_to_vec(blob.as_slice());
    proof {
        assert(r@ =~= device_manufacturer_spec());
    }
    r
}

/// Battery presentation format: format, exponent, unit (little-endian),
/// namespace, description (little-endian).
pub open spec fn battery_format_spec() -> Seq<u8> {
    seq![0x04u8, 0x00, 0x27, 0xAD, 0x01, 0x00, 0x00]
}

pub fn battery_format() -> (r: Vec<u8>)
    ensures
        r@ == battery_format_spec(),
{
    let blob: [u8; 7] = [0x04, 0x00, 0x27, 0xAD, 0x01, 0x00, 0x00];
    let r = vstd::slice::slice_to_vec(blob.as_slice());
    proof {
        assert(r@ =~= battery_format_spec());
    }
    r
}

/// Report reference descriptor: report ID, then report type (input).
pub open spec fn report_reference_spec() -> Seq<u8> {
    seq![HID_REPORT_INPUT1_ID, 0x01u8]
}

pub fn report_reference() -> (r: Vec<u8>)
    ensures
        r@ == report_reference_spec(),
{
    let blob: [u8; 2] = [HID_REPORT_INPUT1_ID, 0x01];
    let r = vstd::slice::slice_to_vec(blob.as_slice());
    proof {
        assert(r@ =~= report_reference_spec());
    }
    r
}

/// HID information: spec version little-endian, country code, flags.
pub open spec fn hid_info_spec() -> Seq<u8> {
    seq![0x01u8, 0x01, 0x00, 0x02]
}

pub fn hid_info() -> (r: Vec<u8>)
    ensures
        r@ == hid_info_spec(),
{
    let blob: [u8; 4] = [0x01, 0x01, 0x00, 0x02];
    let r = vstd::slice::slice_to_vec(blob.as_slice());
    proof {
        assert(r@ =~= hid_info_spec());
    }
    r
}

/// Fixed placeholder battery percentage served by the plain read path.
pub open spec fn battery_level_spec() -> Seq<u8> {
    seq![0x50u8]
}

pub fn battery_level() -> (r: Vec<u8>)
    ensures
        r@ == battery_level_spec(),
{
    let blob: [u8; 1] = [0x50];
    let r = vstd::slice::slice_to_vec(blob.as_slice());
    proof {
        assert(r@ =~= battery_level_spec());
    }
    r
}

/// Snapshot bit pattern served by the input report's plain read path;
/// event delivery itself goes through the keypress notifier.
pub open spec fn input_report_spec() -> Seq<u8> {
    seq![0x01u8]
}

pub fn input_report() -> (r: Vec<u8>)
    ensures
        r@ == input_report_spec(),
{
    let blob: [u8; 1] = [0x01];
    let r = vstd::slice::slice_to_vec(blob.as_slice());
    proof {
        assert(r@ =~= input_report_spec());
    }
    r
}

/// Capacity of each writable characteristic's scratch buffer.
pub const SCRATCH_CAPACITY: usize = 128;

/// Why a peer write was rejected.
#[derive(Clone, Copy, PartialEq, Eq, Structural, Debug)]
pub enum WriteError {
    /// The write would run past the scratch capacity.
    CapacityExceeded,
}

/// Scratch bytes after storing `data` at `offset`.
pub open spec fn scratch_write_bytes(bytes: Seq<u8>, offset: nat, data: Seq<u8>) -> Seq<u8> {
    Seq::new(
        bytes.len(),
        |i: int|
            if offset <= i < offset + data.len() {
                data[i - offset]
            } else {
                bytes[i]
            },
    )
}

/// Bytes a clamped read returns out of a source of logical length `len`.
pub open spec fn read_window(bytes: Seq<u8>, len: nat, offset: nat, cap: nat) -> Seq<u8> {
    if offset >= len {
        Seq::<u8>::empty()
    } else {
        bytes.take(len as int).subrange(
            offset as int,
            offset + copy_len(len, offset, cap) as int,
        )
    }
}

/// A write that fits the capacity is fully reflected in a subsequent read
/// at the same offset with enough capacity.
pub proof fn lemma_write_then_read(bytes: Seq<u8>, offset: nat, data: Seq<u8>, cap: nat)
    requires
        bytes.len() == SCRATCH_CAPACITY,
        offset + data.len() <= SCRATCH_CAPACITY,
        cap >= data.len(),
    ensures
        read_window(scratch_write_bytes(bytes, offset, data), offset + data.len(), offset, cap)
            == data,
{
    let written = scratch_write_bytes(bytes, offset, data);
    assert(read_window(written, offset + data.len(), offset, cap) =~= data);
}

/// Fixed-capacity mutable backing store of one writable characteristic,
/// with explicit logical-length tracking.
pub struct Scratch {
    buf: Vec<u8>,
    len: usize,
}

impl Scratch {
    /// The full backing bytes, capacity included.
    pub closed spec fn bytes(self) -> Seq<u8> {
        self.buf@
    }

    /// Logical length recorded by the last accepted write.
    pub closed spec fn stored_len(self) -> nat {
        self.len as nat
    }

    /// The logical value: the prefix of the backing bytes up to the
    /// recorded length.
    pub open spec fn contents(self) -> Seq<u8> {
        self.bytes().take(self.stored_len() as int)
    }

    pub open spec fn wf(self) -> bool {
        &&& self.bytes().len() == SCRATCH_CAPACITY
        &&& self.stored_len() <= SCRATCH_CAPACITY
    }

    /// An empty scratch buffer: zeroed capacity, logical length zero.
    pub fn new() -> (s: Self)
        ensures
            s.wf(),
            s.stored_len() == 0,
            forall|i: int| 0 <= i < SCRATCH_CAPACITY ==> s.bytes()[i] == 0,
    {
        Scratch { buf: vec![0u8; SCRATCH_CAPACITY], len: 0 }
    }

    /// A scratch buffer holding the single byte `b`, as the protocol-mode
    /// characteristic starts out.
    pub fn with_byte(b: u8) -> (s: Self)
        ensures
            s.wf(),
            s.stored_len() == 1,
            s.contents() == seq![b],
            forall|i: int| 1 <= i < SCRATCH_CAPACITY ==> s.bytes()[i] == 0,
    {
        let mut buf: Vec<u8> = vec![0u8; SCRATCH_CAPACITY];
        buf[0] = b;
        let s = Scratch { buf, len: 1 };
        proof {
            assert(s.contents() =~= seq![b]);
        }
        s
    }

    /// The recorded logical length.
    pub fn len(&self) -> (n: usize)
        ensures
            n == self.stored_len(),
    {
        self.len
    }

    /// Store `data` at `offset` and record the new logical length
    /// `offset + data.len()`; reject, untouched, any write that would run
    /// past the capacity.
    pub fn write(&mut self, offset: usize, data: &[u8]) -> (r: Result<(), WriteError>)
        requires
            old(self).wf(),
        ensures
            final(self).wf(),
            offset + data@.len() <= SCRATCH_CAPACITY ==> {
                &&& r == Result::<(), WriteError>::Ok(())
                &&& final(self).stored_len() == offset + data@.len()
                &&& final(self).bytes() == scratch_write_bytes(
                    old(self).bytes(),
                    offset as nat,
                    data@,
                )
            },
            offset + data@.len() > SCRATCH_CAPACITY ==> {
                &&& r == Result::<(), WriteError>::Err(WriteError::CapacityExceeded)
                &&& final(self).bytes() == old(self).bytes()
                &&& final(self).stored_len() == old(self).stored_len()
            },
    {
        if offset > SCRATCH_CAPACITY || data.len() > SCRATCH_CAPACITY - offset {
            return Err(WriteError::CapacityExceeded);
        }
        let mut i: usize = 0;
        while i < data.len()
            invariant
                old(self).wf(),
                i <= data@.len(),
                offset + data@.len() <= SCRATCH_CAPACITY,
                self.buf@.len() == SCRATCH_CAPACITY,
                self.len == old(self).len,
                forall|k: int| 0 <= k < i ==> self.buf@[offset + k] == data@[k],
                forall|k: int|
                    0 <= k < SCRATCH_CAPACITY && !(offset <= k < offset + i) ==> self.buf@[k]
                        == old(self).buf@[k],
            decreases data@.len() - i,
        {
            let b = data[i];
            self.buf[offset + i] = b;
            i = i + 1;
        }
        self.len = offset + data.len();
        proof {
            assert(self.bytes() =~= scratch_write_bytes(old(self).bytes(), offset as nat, data@));
        }
        Ok(())
    }

    /// Clamped read out of the logical value, mirroring the read accessors
    /// over static sources.
    pub fn read(&self, offset: usize, dst: &mut [u8]) -> (n: usize)
        requires
            self.wf(),
        ensures
            n == copy_len(self.stored_len(), offset as nat, old(dst)@.len()),
            final(dst)@.len() == old(dst)@.len(),
            forall|i: int| 0 <= i < n ==> final(dst)@[i] == self.contents()[offset + i],
            forall|i: int| n <= i < old(dst)@.len() ==> final(dst)@[i] == old(dst)@[i],
            final(dst)@.take(n as int) == read_window(
                self.bytes(),
                self.stored_len(),
                offset as nat,
                old(dst)@.len(),
            ),
    {
        let src: &[u8] = &self.buf.as_slice()[0..self.len];
        let n = write(offset, dst, src);
        proof {
            assert(dst@.take(n as int) =~= read_window(
                self.bytes(),
                self.stored_len(),
                offset as nat,
                old(dst)@.len(),
            ));
        }
        n
    }
}

// Handles of the exposed attribute table, in declaration order of the
// device-information, battery and HID services.
pub const MANUFACTURER_HANDLE: u16 = 3;

pub const PNP_ID_HANDLE: u16 = 5;

pub const BATTERY_LEVEL_HANDLE: u16 = 8;

pub const BATTERY_LEVEL_CCCD_HANDLE: u16 = 9;

pub const BATTERY_FORMAT_HANDLE: u16 = 10;

pub const HID_INFO_HANDLE: u16 = 13;

pub const HID_CONTROL_POINT_HANDLE: u16 = 15;

pub const REPORT_MAP_HANDLE: u16 = 17;

pub const PROTOCOL_MODE_HANDLE: u16 = 19;

pub const INPUT_REPORT_HANDLE: u16 = 21;

pub const INPUT_REPORT_CCCD_HANDLE: u16 = 22;

pub const REPORT_REFERENCE_HANDLE: u16 = 23;

/// The fixed set of attribute accessors one session serves.  The static
/// sources are immutable constants; protocol mode and the HID control
/// point own mutable scratch state for the session's lifetime.
pub struct AttributeTable {
    pub protocol_mode: Scratch,
    pub control_point: Scratch,
}

/// The byte source a read of `handle` serves from, or none when the handle
/// has no read accessor here.
pub open spec fn readable_source(t: AttributeTable, handle: u16) -> Option<Seq<u8>> {
    if handle == MANUFACTURER_HANDLE {
        Some(device_manufacturer_spec())
    } else if handle == PNP_ID_HANDLE {
        Some(device_info_spec())
    } else if handle == BATTERY_LEVEL_HANDLE {
        Some(battery_level_spec())
    } else if handle == BATTERY_FORMAT_HANDLE {
        Some(battery_format_spec())
    } else if handle == HID_INFO_HANDLE {
        Some(hid_info_spec())
    } else if handle == REPORT_MAP_HANDLE {
        Some(hid_report_spec())
    } else if handle == PROTOCOL_MODE_HANDLE {
        Some(t.protocol_mode.contents())
    } else if handle == INPUT_REPORT_HANDLE {
        Some(input_report_spec())
    } else if handle == REPORT_REFERENCE_HANDLE {
        Some(report_reference_spec())
    } else {
        None
    }
}

impl AttributeTable {
    pub open spec fn wf(self) -> bool {
        &&& self.protocol_mode.wf()
        &&& self.control_point.wf()
    }

    /// A fresh table: protocol mode defaults to the single byte 0x01, the
    /// control point sink starts empty.
    pub fn new() -> (t: Self)
        ensures
            t.wf(),
            t.protocol_mode.contents() == seq![0x01u8],
            t.control_point.stored_len() == 0,
    {
        AttributeTable { protocol_mode: Scratch::with_byte(0x01), control_point: Scratch::new() }
    }

    /// Dispatch a peer read by handle: a clamped copy out of the handle's
    /// source, or none when the handle is not readable here.
    pub fn read(&self, handle: u16, offset: usize, dst: &mut [u8]) -> (r: Option<usize>)
        requires
            self.wf(),
        ensures
            match readable_source(*self, handle) {
                Some(src) => {
                    &&& r is Some
                    &&& r.unwrap() == copy_len(src.len(), offset as nat, old(dst)@.len())
                    &&& final(dst)@.len() == old(dst)@.len()
                    &&& forall|i: int| 0 <= i < r.unwrap() ==> final(dst)@[i] == src[offset + i]
                    &&& forall|i: int|
                        r.unwrap() <= i < old(dst)@.len() ==> final(dst)@[i] == old(dst)@[i]
                },
                None => {
                    &&& r is None
                    &&& final(dst)@ == old(dst)@
                },
            },
    {
        if handle == MANUFACTURER_HANDLE {
            let src = device_manufacturer();
            Some(write(offset, dst, src.as_slice()))
        } else if handle == PNP_ID_HANDLE {
            let src = device_info();
            Some(write(offset, dst, src.as_slice()))
        } else if handle == BATTERY_LEVEL_HANDLE {
            let src = battery_level();
            Some(write(offset, dst, src.as_slice()))
        } else if handle == BATTERY_FORMAT_HANDLE {
            let src = battery_format();
            Some(write(offset, dst, src.as_slice()))
        } else if handle == HID_INFO_HANDLE {
            let src = hid_info();
            Some(write(offset, dst, src.as_slice()))
        } else if handle == REPORT_MAP_HANDLE {
            let src = hid_report();
            Some(write(offset, dst, src.as_slice()))
        } else if handle == PROTOCOL_MODE_HANDLE {
            Some(self.protocol_mode.read(offset, dst))
        } else if handle == INPUT_REPORT_HANDLE {
            let src = input_report();
            Some(write(offset, dst, src.as_slice()))
        } else if handle == REPORT_REFERENCE_HANDLE {
            let src = report_reference();
            Some(write(offset, dst, src.as_slice()))
        } else {
            None
        }
    }

    /// Dispatch a peer write by handle: only protocol mode and the HID
    /// control point are writable; each rejects a write past its scratch
    /// capacity without touching any state.
    pub fn write(&mut self, handle: u16, offset: usize, data: &[u8]) -> (r: Option<
        Result<(), WriteError>,
    >)
        requires
            old(self).wf(),
        ensures
            final(self).wf(),
            handle == PROTOCOL_MODE_HANDLE ==> {
                &&& final(self).control_point == old(self).control_point
                &&& offset + data@.len() <= SCRATCH_CAPACITY ==> {
                    &&& r == Some(Result::<(), WriteError>::Ok(()))
                    &&& final(self).protocol_mode.stored_len() == offset + data@.len()
                    &&& final(self).protocol_mode.bytes() == scratch_write_bytes(
                        old(self).protocol_mode.bytes(),
                        offset as nat,
                        data@,
                    )
                }
                &&& offset + data@.len() > SCRATCH_CAPACITY ==> {
                    &&& r == Some(Result::<(), WriteError>::Err(WriteError::CapacityExceeded))
                    &&& final(self).protocol_mode.bytes() == old(self).protocol_mode.bytes()
                    &&& final(self).protocol_mode.stored_len() == old(
                        self,
                    ).protocol_mode.stored_len()
                }
            },
            handle == HID_CONTROL_POINT_HANDLE ==> {
                &&& final(self).protocol_mode == old(self).protocol_mode
                &&& offset + data@.len() <= SCRATCH_CAPACITY ==> {
                    &&& r == Some(Result::<(), WriteError>::Ok(()))
                    &&& final(self).control_point.stored_len() == offset + data@.len()
                    &&& final(self).control_point.bytes() == scratch_write_bytes(
                        old(self).control_point.bytes(),
                        offset as nat,
                        data@,
                    )
                }
                &&& offset + data@.len() > SCRATCH_CAPACITY ==> {
                    &&& r == Some(Result::<(), WriteError>::Err(WriteError::CapacityExceeded))
                    &&& final(self).control_point.bytes() == old(self).control_point.bytes()
                    &&& final(self).control_point.stored_len() == old(
                        self,
                    ).control_point.stored_len()
                }
            },
            handle != PROTOCOL_MODE_HANDLE && handle != HID_CONTROL_POINT_HANDLE ==> {
                &&& r is None
                &&& final(self).protocol_mode == old(self).protocol_mode
                &&& final(self).control_point == old(self).control_point
            },
    {
        if handle == PROTOCOL_MODE_HANDLE {
            Some(self.protocol_mode.write(offset, data))
        } else if handle == HID_CONTROL_POINT_HANDLE {
            Some(self.control_point.write(offset, data))
        } else {
            None
        }
    }
}

} // verus!
