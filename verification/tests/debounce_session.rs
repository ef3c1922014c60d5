use vknob::debounce::{Debouncer, Event, DEBOUNCE_THRESHOLD, LEVEL_PRESSED, LEVEL_RELEASED};
use vknob::hid::LinkOutcome;
use vknob::session::SessionController;

#[test]
fn fires_exactly_at_threshold() {
    let mut d = Debouncer::new();
    for i in 0..DEBOUNCE_THRESHOLD - 1 {
        assert_eq!(d.poll(LEVEL_PRESSED), None, "premature fire at poll {}", i + 1);
    }
    assert_eq!(d.poll(LEVEL_PRESSED), Some(Event::Fire));
}

#[test]
fn short_press_never_fires() {
    let mut d = Debouncer::new();
    for _ in 0..2 {
        for _ in 0..DEBOUNCE_THRESHOLD - 1 {
            assert_eq!(d.poll(LEVEL_PRESSED), None);
        }
        assert_eq!(d.poll(LEVEL_RELEASED), None);
    }
}

#[test]
fn no_second_fire_until_release() {
    let mut d = Debouncer::new();
    for _ in 0..DEBOUNCE_THRESHOLD - 1 {
        assert_eq!(d.poll(LEVEL_PRESSED), None);
    }
    assert_eq!(d.poll(LEVEL_PRESSED), Some(Event::Fire));
    // Holding the button well past the threshold must not fire again.
    for _ in 0..3 * DEBOUNCE_THRESHOLD {
        assert_eq!(d.poll(LEVEL_PRESSED), None);
    }
    // One release re-arms; a full run of pressed polls fires once more.
    assert_eq!(d.poll(LEVEL_RELEASED), None);
    for _ in 0..DEBOUNCE_THRESHOLD - 1 {
        assert_eq!(d.poll(LEVEL_PRESSED), None);
    }
    assert_eq!(d.poll(LEVEL_PRESSED), Some(Event::Fire));
}

#[test]
fn release_mid_count_cancels_and_rearms() {
    let mut d = Debouncer::new();
    for _ in 0..DEBOUNCE_THRESHOLD / 2 {
        assert_eq!(d.poll(LEVEL_PRESSED), None);
    }
    assert_eq!(d.poll(LEVEL_RELEASED), None);
    // The count starts over: threshold - 1 pressed polls are not enough.
    for _ in 0..DEBOUNCE_THRESHOLD - 1 {
        assert_eq!(d.poll(LEVEL_PRESSED), None);
    }
    assert_eq!(d.poll(LEVEL_PRESSED), Some(Event::Fire));
}

#[test]
fn input_sequence_of_500_pressed_fires_once_at_poll_500() {
    let mut d = Debouncer::new();
    let mut fires = Vec::new();
    for i in 0..500 {
        if d.poll(LEVEL_PRESSED).is_some() {
            fires.push(i + 1);
        }
    }
    assert_eq!(d.poll(LEVEL_RELEASED), None);
    assert_eq!(fires, vec![500]);
}

#[test]
fn bonding_key_reaches_next_session() {
    let mut c = SessionController::new();
    // Session one: no key yet at bring-up.
    assert_eq!(c.begin_advertising(), None);
    c.on_connected();
    // Pairing completes partway through: the link layer now has a key.
    c.record_ltk(Some(0x1337));
    c.on_work_result(LinkOutcome::Worked);
    c.on_work_result(LinkOutcome::Disconnected);
    // Session two is handed the key obtained in session one.
    assert_eq!(c.begin_advertising(), Some(0x1337));
}

#[test]
fn bonding_key_survives_notifier_disconnect() {
    let mut c = SessionController::new();
    c.begin_advertising();
    c.on_connected();
    c.record_ltk(Some(42));
    c.on_notify_finished(true);
    assert_eq!(c.begin_advertising(), Some(42));
}

#[test]
fn nonfatal_work_errors_keep_the_session() {
    let mut c = SessionController::new();
    c.begin_advertising();
    c.on_connected();
    c.record_ltk(Some(9));
    // Isolated errors and ordinary work units do not end the session: the
    // serving loop keeps polling and the key keeps refreshing.
    c.on_work_result(LinkOutcome::Error);
    c.on_work_result(LinkOutcome::Worked);
    c.record_ltk(Some(10));
    c.on_notify_finished(false);
    c.on_work_result(LinkOutcome::Disconnected);
    assert_eq!(c.begin_advertising(), Some(10));
}

#[test]
fn advertisement_payload_is_fixed() {
    let a = vknob::session::advertisement();
    assert_eq!(a.flags, 0x05);
    assert_eq!(a.service_uuids, vec![0x1812, 0x180F, 0x180A]);
    assert_eq!(a.local_name, b"vKnob".to_vec());
    assert_eq!(a.company_identifier, 0x1337);
    assert_eq!(a.appearance, 0x03C1);
}

#[test]
fn controller_polls_debouncer_while_serving() {
    let mut c = SessionController::new();
    c.begin_advertising();
    c.on_connected();
    for _ in 0..DEBOUNCE_THRESHOLD - 1 {
        assert_eq!(c.poll_input(LEVEL_PRESSED), None);
    }
    assert_eq!(c.poll_input(LEVEL_PRESSED), Some(Event::Fire));
}
