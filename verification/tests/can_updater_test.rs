//! Firmware updates over ISO-TP.

use cyphal_node::can::MyHandler;
use cyphal_node::can_consumer::{CanFrameConsumer, CanSimpleDispatcher, Route};
use cyphal_node::can_frame::{CanFrame, Id};
use cyphal_node::can_updater::{
    marks_booted, process_payload, BootState, CanFirmwareUpdater, CanFirmwareUpdaterState,
    CanUpdaterAttribute, CanUpdaterCommandEnum, CanUpdaterStatusEnum, Consumer, UpdaterAction,
};
use cyphal_node::isotp::{IsoTpMessage, IsoTpStep};

fn process(payload: &[u8], state: &mut CanFirmwareUpdaterState) -> UpdaterAction {
    process_payload(payload, state, "1.2.3", "abc1234")
}

fn response(payload: &[u8], state: &mut CanFirmwareUpdaterState) -> Vec<u8> {
    match process(payload, state) {
        UpdaterAction::Respond(v) => v,
        other => panic!("{:?}", other),
    }
}

#[test]
fn codes_are_converted_both_ways() {
    for code in 0..=255u8 {
        match CanUpdaterCommandEnum::from_code(code) {
            Some(c) => assert_eq!(c.to_code(), code),
            None => assert!(code > 6),
        }
    }
    assert_eq!(CanUpdaterCommandEnum::ApplyImage.to_code(), 6);
    assert_eq!(CanUpdaterAttribute::from_code(2), Some(CanUpdaterAttribute::FileSize));
    assert_eq!(CanUpdaterAttribute::from_code(3), None);
    assert_eq!(CanUpdaterStatusEnum::Success.to_code(), 0);
    assert_eq!(CanUpdaterStatusEnum::Failure.to_code(), 1);
    assert_eq!(CanUpdaterStatusEnum::UnsupportedAttribute.to_code(), 0x86);
}

#[test]
fn attributes_are_answered() {
    let mut state = CanFirmwareUpdaterState::new();
    state.update(0x0102_0304, 0xf0e0_d0c0);
    assert_eq!(response(&[0, 0, 0], &mut state), b"\x01\x00\x00\x001.2.3-abc1234".to_vec());
    assert_eq!(response(&[0, 0, 1], &mut state), vec![1, 0, 1, 0, 1, 2, 3, 4]);
    assert_eq!(response(&[0, 0, 2, 99], &mut state), vec![1, 0, 2, 0, 0xf0, 0xe0, 0xd0, 0xc0]);
    assert_eq!(response(&[0, 1, 0], &mut state), vec![1, 1, 0, 0x86]);
    assert!(matches!(process(&[0, 0], &mut state), UpdaterAction::Nothing));
    assert!(matches!(process(&[2], &mut state), UpdaterAction::Tick));
}

#[test]
fn blocks_are_written_and_counted() {
    let mut state = CanFirmwareUpdaterState::new();
    let block = [4, 0, 0, 1, 4, 0, 0, 1, 0, 9, 8, 7, 6];
    match process(&block, &mut state) {
        UpdaterAction::WriteBlock { offset, data } => {
            assert_eq!(offset, 0x100);
            assert_eq!(data, vec![9, 8, 7, 6]);
        }
        other => panic!("{:?}", other),
    }
    assert_eq!(state, CanFirmwareUpdaterState { file_offset: 0x104, file_size: 0x104 });
    assert_eq!(response(&[0, 0, 1], &mut state), vec![1, 0, 1, 0, 0, 0, 1, 4]);
    // Too short for a block.
    assert!(matches!(process(&block[..8], &mut state), UpdaterAction::Nothing));
    assert_eq!(state.file_offset, 0x104);
    assert!(matches!(process(&[6], &mut state), UpdaterAction::Apply));
}

#[test]
fn incomplete_images_are_not_applied() {
    let mut state = CanFirmwareUpdaterState::new();
    assert!(matches!(process(&[6], &mut state), UpdaterAction::Apply));
    state.update(9, 10);
    assert!(matches!(process(&[6], &mut state), UpdaterAction::Nothing));
    state.update(10, 10);
    assert!(matches!(process(&[6], &mut state), UpdaterAction::Apply));
}

#[test]
fn responses_and_empty_payloads_are_dropped() {
    let mut state = CanFirmwareUpdaterState::new();
    for code in [1u8, 3, 5] {
        assert!(matches!(process(&[code, 0, 0, 0], &mut state), UpdaterAction::Nothing));
    }
    assert!(matches!(process(&[], &mut state), UpdaterAction::Nothing));
}

#[test]
fn only_a_revert_is_marked_as_booted() {
    assert!(marks_booted(BootState::Revert));
    assert!(!marks_booted(BootState::Other));
    assert!(!marks_booted(BootState::Unknown));
}

#[test]
fn the_updater_listens_on_its_base_command() {
    let mut u = CanFirmwareUpdater::new(5, 2);
    assert!(u.accepts(2, false));
    assert_eq!(u.tx_id(), Id::Extended((5 << 5) + 3));
    assert!(!u.accepts(2, true));
    assert!(!u.accepts(3, false));
    let frame = |id, data: &[u8]| CanFrame { id: Id::Extended(id), remote: false, data: data.to_vec() };
    match u.on_frame(&frame((5 << 5) + 2, &[2, 6, 7])) {
        Ok(IsoTpStep::Done(Some(IsoTpMessage::Complete(v)))) => assert_eq!(v, vec![6, 7]),
        other => panic!("{:?}", other),
    }
    assert_eq!(u.rx_id(), Id::Extended((5 << 5) + 2));
    assert!(u.on_frame(&frame((6 << 5) + 2, &[2, 6, 7])).is_err());
    // A frame with another identifier may be anything.
    assert!(u.on_frame(&frame((6 << 5) + 2, &[])).is_err());
    u.set_node_id(6);
    assert!(u.on_frame(&frame((6 << 5) + 2, &[2, 6, 7])).is_ok());
    assert!(u.on_frame(&frame((6 << 5) + 3, &[2, 6, 7])).is_ok());
}

#[test]
fn the_updater_sends_at_most_a_hundred_bytes() {
    let mut u = CanFirmwareUpdater::new(5, 2);
    assert_eq!(u.tick(&[1, 2, 3]).unwrap(), [3, 1, 2, 3, 0, 0, 0, 0]);
    u.send_result(true).unwrap();
    assert_eq!(u.tick(&[4; 150]).unwrap(), [0x10, 100, 4, 4, 4, 4, 4, 4]);
    u.send_result(true).unwrap();
    let flow = CanFrame { id: Id::Extended((5 << 5) + 2), remote: false, data: vec![0x30] };
    assert!(matches!(u.on_frame(&flow), Ok(IsoTpStep::Consecutive([0x21, 4, ..]))));
    let mut frames = 1;
    while u.consecutive_result(true).unwrap().is_some() {
        frames += 1;
    }
    assert_eq!(frames, 14);
}

#[test]
fn frames_are_routed_to_reports_and_updater() {
    let mut d: CanSimpleDispatcher<Consumer, 2> = CanSimpleDispatcher::new(5);
    assert!(d.register(Consumer::Reports(MyHandler)).is_ok());
    assert!(d.register(Consumer::Updater(CanFirmwareUpdater::new(5, 2))).is_ok());
    let frame = |raw, remote| CanFrame { id: Id::Extended(raw), remote, data: vec![] };
    assert_eq!(d.dispatch(&frame(5 << 5, true)), Route::Consumer(0));
    assert_eq!(d.dispatch(&frame((5 << 5) + 2, false)), Route::Consumer(1));
    assert_eq!(d.dispatch(&frame((5 << 5) + 2, true)), Route::Unhandled);
    d.set_node_id(6);
    match &d.consumers[1] {
        Consumer::Updater(u) => assert_eq!(u.tx_id(), Id::Extended((6 << 5) + 3)),
        Consumer::Reports(_) => panic!("wrong consumer"),
    }
}

#[test]
fn long_versions_matter_only_where_they_are_asked_for() {
    let mut state = CanFirmwareUpdaterState::new();
    let long = "v".repeat(200);
    match process_payload(&[0, 0, 1], &mut state, &long, &long) {
        UpdaterAction::Respond(v) => assert_eq!(v, vec![1, 0, 1, 0, 0, 0, 0, 0]),
        other => panic!("{:?}", other),
    }
}
