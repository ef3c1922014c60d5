use vknob::attributes::{
    battery_format, battery_level, device_info, device_manufacturer, hid_info, report_reference,
    AttributeTable, WriteError, BATTERY_FORMAT_HANDLE, BATTERY_LEVEL_HANDLE, HID_CONTROL_POINT_HANDLE,
    HID_INFO_HANDLE, INPUT_REPORT_HANDLE, MANUFACTURER_HANDLE, PNP_ID_HANDLE, PROTOCOL_MODE_HANDLE,
    REPORT_MAP_HANDLE, REPORT_REFERENCE_HANDLE, SCRATCH_CAPACITY,
};
use vknob::hid::{
    run_notification, KeypressNotifier, LinkOutcome, MediaKeys, NotifyRequest, MEDIA_KEY_CLEAR,
    MEDIA_KEY_PLAY_PAUSE,
};
use vknob::hid_descriptor::{hid_report, HID_REPORT_INPUT1_ID, HID_REPORT_SIZE};
use vknob::led::{status_hue, StatusSignal, GREEN, RED, YELLOW};
use vknob::session::SessionController;

#[test]
fn clamped_copy_returns_min_of_capacity_and_rest() {
    let src = [10u8, 11, 12, 13, 14];
    let mut dst = [0u8; 3];
    // Capacity limits: offset 1 leaves 4 bytes, the buffer takes 3.
    assert_eq!(vknob::attributes::write(1, &mut dst, &src), 3);
    assert_eq!(dst, [11, 12, 13]);
    // Source limits: offset 3 leaves only 2 bytes.
    let mut dst2 = [9u8; 3];
    assert_eq!(vknob::attributes::write(3, &mut dst2, &src), 2);
    assert_eq!(dst2, [13, 14, 9]);
}

#[test]
fn clamped_copy_past_end_returns_zero_bytes() {
    let src = [10u8, 11];
    let mut dst = [7u8; 4];
    assert_eq!(vknob::attributes::write(2, &mut dst, &src), 0);
    assert_eq!(vknob::attributes::write(5, &mut dst, &src), 0);
    assert_eq!(dst, [7, 7, 7, 7]);
}

#[test]
fn report_map_chunk_at_offset_10() {
    let table = AttributeTable::new();
    let mut chunk = [0u8; 5];
    let n = table.read(REPORT_MAP_HANDLE, 10, &mut chunk);
    assert_eq!(n, Some(5));
    let blob = hid_report();
    assert_eq!(&chunk[..], &blob[10..15]);
    assert_eq!(chunk, [0x09, 0xEA, 0x09, 0xE2, 0x09]);
}

#[test]
fn report_map_is_the_37_byte_descriptor() {
    let blob = hid_report();
    assert_eq!(blob.len(), HID_REPORT_SIZE);
    assert_eq!(blob.len(), 37);
    assert_eq!(blob[0], 0x05);
    assert_eq!(blob[1], 0x0C);
    assert_eq!(blob[36], 0xC0);
}

#[test]
fn static_characteristic_values() {
    assert_eq!(device_manufacturer(), b"Luke Enterprises".to_vec());
    assert_eq!(device_info(), vec![0x02, 0x37, 0x13, 0x37, 0x13, 0x37, 0x13]);
    assert_eq!(battery_format(), vec![0x04, 0x00, 0x27, 0xAD, 0x01, 0x00, 0x00]);
    assert_eq!(report_reference(), vec![HID_REPORT_INPUT1_ID, 0x01]);
    assert_eq!(hid_info(), vec![0x01, 0x01, 0x00, 0x02]);
    assert_eq!(battery_level(), vec![0x50]);
}

#[test]
fn every_readable_handle_serves_its_source() {
    let table = AttributeTable::new();
    let cases: Vec<(u16, Vec<u8>)> = vec![
        (MANUFACTURER_HANDLE, device_manufacturer()),
        (PNP_ID_HANDLE, device_info()),
        (BATTERY_LEVEL_HANDLE, battery_level()),
        (BATTERY_FORMAT_HANDLE, battery_format()),
        (HID_INFO_HANDLE, hid_info()),
        (REPORT_MAP_HANDLE, hid_report()),
        (PROTOCOL_MODE_HANDLE, vec![0x01]),
        (INPUT_REPORT_HANDLE, vec![0x01]),
        (REPORT_REFERENCE_HANDLE, report_reference()),
    ];
    for (handle, expected) in cases {
        let mut buf = vec![0u8; 64];
        let n = table.read(handle, 0, &mut buf).expect("readable handle");
        assert_eq!(&buf[..n], &expected[..], "handle {handle}");
    }
}

#[test]
fn unknown_handle_reads_and_writes_nothing() {
    let mut table = AttributeTable::new();
    let mut buf = [1u8; 8];
    assert_eq!(table.read(0x77, 0, &mut buf), None);
    assert_eq!(buf, [1u8; 8]);
    assert_eq!(table.write(BATTERY_LEVEL_HANDLE, 0, &[0x42]), None);
    assert_eq!(table.write(0x77, 0, &[0x42]), None);
}

#[test]
fn protocol_mode_write_read_roundtrip() {
    let mut table = AttributeTable::new();
    assert_eq!(table.write(PROTOCOL_MODE_HANDLE, 0, &[0x00]), Some(Ok(())));
    let mut buf = [0xFFu8; 4];
    assert_eq!(table.read(PROTOCOL_MODE_HANDLE, 0, &mut buf), Some(1));
    assert_eq!(buf[0], 0x00);
}

#[test]
fn scratch_write_at_offset_is_reflected_at_same_offset() {
    let mut table = AttributeTable::new();
    let data = [0xAAu8, 0xBB, 0xCC];
    assert_eq!(table.write(PROTOCOL_MODE_HANDLE, 2, &data), Some(Ok(())));
    let mut buf = [0u8; 3];
    assert_eq!(table.read(PROTOCOL_MODE_HANDLE, 2, &mut buf), Some(3));
    assert_eq!(buf, data);
}

#[test]
fn control_point_is_a_write_only_sink() {
    let mut table = AttributeTable::new();
    assert_eq!(table.write(HID_CONTROL_POINT_HANDLE, 0, &[0x01]), Some(Ok(())));
    // The control point has no read accessor: it only swallows commands.
    let mut buf = [0u8; 1];
    assert_eq!(table.read(HID_CONTROL_POINT_HANDLE, 0, &mut buf), None);
}

#[test]
fn oversized_write_is_rejected_untouched() {
    let mut table = AttributeTable::new();
    let big = vec![0x55u8; SCRATCH_CAPACITY + 1];
    assert_eq!(
        table.write(PROTOCOL_MODE_HANDLE, 0, &big),
        Some(Err(WriteError::CapacityExceeded))
    );
    // A fitting write at the far edge still works...
    let edge = vec![0x66u8; SCRATCH_CAPACITY];
    assert_eq!(table.write(PROTOCOL_MODE_HANDLE, 0, &edge), Some(Ok(())));
    // ...and one byte past the edge is rejected with the value intact.
    assert_eq!(
        table.write(PROTOCOL_MODE_HANDLE, 1, &edge),
        Some(Err(WriteError::CapacityExceeded))
    );
    let mut buf = vec![0u8; SCRATCH_CAPACITY];
    assert_eq!(table.read(PROTOCOL_MODE_HANDLE, 0, &mut buf), Some(SCRATCH_CAPACITY));
    assert_eq!(buf, edge);
}

#[test]
fn cccd_zero_sends_nothing_and_is_not_a_disconnect() {
    let (sends, disconnected) = run_notification(
        9,
        8,
        MediaKeys::play_pause(),
        Some(1),
        0x00,
        LinkOutcome::Worked,
        LinkOutcome::Worked,
    );
    assert!(sends.is_empty());
    assert!(!disconnected);
}

#[test]
fn absent_or_odd_cccd_reads_send_nothing() {
    for read_len in [None, Some(0), Some(2)] {
        let (sends, disconnected) = run_notification(
            9,
            8,
            MediaKeys::play_pause(),
            read_len,
            0x01,
            LinkOutcome::Worked,
            LinkOutcome::Worked,
        );
        assert!(sends.is_empty(), "read_len {read_len:?}");
        assert!(!disconnected);
    }
}

#[test]
fn enabled_notifier_sends_press_then_clear() {
    let (sends, disconnected) = run_notification(
        9,
        8,
        MediaKeys::play_pause(),
        Some(1),
        0x01,
        LinkOutcome::Worked,
        LinkOutcome::Worked,
    );
    assert_eq!(sends, vec![MEDIA_KEY_PLAY_PAUSE, MEDIA_KEY_CLEAR]);
    assert!(!disconnected);
}

#[test]
fn press_disconnect_suppresses_the_clear_send() {
    let (sends, disconnected) = run_notification(
        9,
        8,
        MediaKeys::play_pause(),
        Some(1),
        0x01,
        LinkOutcome::Disconnected,
        LinkOutcome::Worked,
    );
    assert_eq!(sends, vec![MEDIA_KEY_PLAY_PAUSE]);
    assert!(disconnected);
}

#[test]
fn clear_disconnect_is_reported_after_both_sends() {
    let (sends, disconnected) = run_notification(
        9,
        8,
        MediaKeys::play_pause(),
        Some(1),
        0x01,
        LinkOutcome::Worked,
        LinkOutcome::Disconnected,
    );
    assert_eq!(sends, vec![MEDIA_KEY_PLAY_PAUSE, MEDIA_KEY_CLEAR]);
    assert!(disconnected);
}

#[test]
fn send_errors_are_nonfatal() {
    let (sends, disconnected) = run_notification(
        9,
        8,
        MediaKeys::play_pause(),
        Some(1),
        0x01,
        LinkOutcome::Error,
        LinkOutcome::Error,
    );
    assert_eq!(sends, vec![MEDIA_KEY_PLAY_PAUSE, MEDIA_KEY_CLEAR]);
    assert!(!disconnected);
}

#[test]
fn notifier_machine_walks_read_press_clear() {
    let mut n = KeypressNotifier::new(9, 8, MediaKeys::play_pause());
    assert_eq!(n.request(), NotifyRequest::ReadCccd { handle: 9 });
    n.on_cccd(Some(1), 0x01);
    assert_eq!(n.request(), NotifyRequest::Send { handle: 8, payload: MEDIA_KEY_PLAY_PAUSE });
    n.on_send(LinkOutcome::Worked);
    assert_eq!(n.request(), NotifyRequest::Send { handle: 8, payload: MEDIA_KEY_CLEAR });
    n.on_send(LinkOutcome::Worked);
    assert_eq!(n.request(), NotifyRequest::Finished { disconnected: false });
}

#[test]
fn serving_controller_hands_out_the_keypress_notifier() {
    let mut c = SessionController::new();
    c.begin_advertising();
    c.on_connected();
    let n = c.start_keypress();
    assert_eq!(
        n.request(),
        NotifyRequest::ReadCccd { handle: vknob::attributes::INPUT_REPORT_CCCD_HANDLE }
    );
    let mut buf = [0u8; 2];
    assert_eq!(c.handle_read(vknob::attributes::PROTOCOL_MODE_HANDLE, 0, &mut buf), Some(1));
    assert_eq!(buf[0], 0x01);
    assert_eq!(c.handle_write(vknob::attributes::PROTOCOL_MODE_HANDLE, 0, &[0x00]), Some(Ok(())));
}

#[test]
fn media_key_bits_match_the_descriptor_order() {
    assert_eq!(vknob::hid::MEDIA_KEY_VOL_UP, 0x01);
    assert_eq!(vknob::hid::MEDIA_KEY_VOL_DOWN, 0x02);
    assert_eq!(vknob::hid::MEDIA_KEY_MUTE, 0x04);
    assert_eq!(MEDIA_KEY_PLAY_PAUSE, 0x08);
    assert_eq!(vknob::hid::MEDIA_KEY_STOP, 0x10);
    assert_eq!(vknob::hid::MEDIA_KEY_NEXT_TRACK, 0x20);
    assert_eq!(vknob::hid::MEDIA_KEY_PREV_TRACK, 0x40);
    assert_eq!(MediaKeys::play_pause().bits(), MEDIA_KEY_PLAY_PAUSE);
    assert_eq!(MediaKeys::clear().bits(), MEDIA_KEY_CLEAR);
    assert_eq!(MediaKeys::new(0x03).bits(), 0x03);
}

#[test]
fn status_hues() {
    assert_eq!(status_hue(StatusSignal::Error), RED);
    assert_eq!(status_hue(StatusSignal::Idle), YELLOW);
    assert_eq!(status_hue(StatusSignal::Ready), GREEN);
    assert_eq!((RED, YELLOW, GREEN), (0, 35, 85));
}
