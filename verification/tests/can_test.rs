//! The CAN service, its consumers, settings and command.

use cyphal_node::can::{
    node_address, node_config, tx_report, CanAction, CanEvent, CanService, ConfigurationEvent,
    MyHandler,
};
use cyphal_node::can_cli_commands::{stored_value_text, CanCommand, CanCommandStep};
use cyphal_node::can_consumer::{split_id, CanFrameConsumer, CanSimpleDispatcher, Route};
use cyphal_node::can_frame::{CanFrame, Id};
use cyphal_node::node_task::{AcceptanceFilter, ReceiveMode};
use cyphal_node::time::Duration;
use cyphal_node::util::{fetched_or_default, ParseSettingsError, SerializationError, Settings};

fn frame(id: Id, remote: bool) -> CanFrame {
    CanFrame { id, remote, data: vec![] }
}

#[test]
fn identifiers_are_split() {
    assert_eq!(split_id(Id::Extended((5 << 5) | 3)), (5, 3));
    assert_eq!(split_id(Id::Extended(0x1FFF_FFFF)), (0xFF_FFFF, 31));
    assert_eq!(split_id(Id::Standard((7 << 5) | 2)), (7, 2));
    assert_eq!(node_address(5), 160);
    assert_eq!(node_address(0x0800_0001), 32);
}

struct Wants {
    command: u8,
    remote: bool,
    node_id: u32,
}

impl CanFrameConsumer for Wants {
    fn set_node_id(&mut self, node_id: u32) {
        self.node_id = node_id;
    }

    fn accepts(&self, id: u8, is_remote: bool) -> bool {
        id == self.command && is_remote == self.remote
    }
}

#[test]
fn frames_go_to_the_first_consumer_that_accepts_them() {
    let wants = |command, remote| Wants { command, remote, node_id: 0 };
    let mut d: CanSimpleDispatcher<Wants, 3> = CanSimpleDispatcher::new(5);
    assert!(d.register(wants(1, false)).is_ok());
    assert!(d.register(wants(2, false)).is_ok());
    assert!(d.register(wants(2, false)).is_ok());
    assert!(d.register(wants(3, false)).is_err());
    assert_eq!(d.dispatch(&frame(Id::Extended((5 << 5) | 2), false)), Route::Consumer(1));
    assert_eq!(d.dispatch(&frame(Id::Standard((5 << 5) | 1), false)), Route::Consumer(0));
    assert_eq!(d.dispatch(&frame(Id::Extended((5 << 5) | 2), true)), Route::Unhandled);
    assert_eq!(d.dispatch(&frame(Id::Extended((5 << 5) | 3), false)), Route::Unhandled);
    assert_eq!(d.dispatch(&frame(Id::Extended((6 << 5) | 2), false)), Route::OtherNode);
    d.set_node_id(6);
    assert_eq!(d.dispatch(&frame(Id::Extended((6 << 5) | 2), false)), Route::Consumer(1));
    assert!(d.consumers.iter().all(|c| c.node_id == 6));
}

#[test]
fn remote_frames_of_command_zero_ask_for_reports() {
    let mut h = MyHandler;
    assert!(h.accepts(0, true));
    assert!(!h.accepts(0, false));
    assert!(!h.accepts(1, true));
    h.set_node_id(9);
    assert_eq!(
        h.on_frame(&frame(Id::Extended(0), true)),
        ConfigurationEvent::IntervalUpdate { hz: 10 }
    );
}

#[test]
fn the_controller_accepts_only_its_node() {
    let c = node_config(5);
    assert_eq!(
        c.filters,
        [
            (AcceptanceFilter::Filter0, Id::Extended(160)),
            (AcceptanceFilter::Filter2, Id::Extended(160)),
            (AcceptanceFilter::Mask0, Id::Extended(0x1FFF_FFE0)),
            (AcceptanceFilter::Mask1, Id::Extended(0x1FFF_FFE0)),
        ]
    );
    assert_eq!(c.receive_mode, ReceiveMode::Filter);
    assert_eq!(c.interrupts, 0b011);
}

#[test]
fn the_service_acts_on_events() {
    let mut s = CanService::new(5);
    assert!(matches!(s.on_event(CanEvent::Interrupt), CanAction::Receive));
    assert!(matches!(s.on_event(CanEvent::FrameQueued), CanAction::Transmit));
    assert!(matches!(s.on_event(CanEvent::TickRequested), CanAction::TickConsumers));
    assert!(matches!(s.on_event(CanEvent::ReportDue), CanAction::Report));
    assert_eq!(s, CanService::new(5));
    let update = CanEvent::Configuration(ConfigurationEvent::IntervalUpdate { hz: 3 });
    match s.on_event(update) {
        CanAction::SetReportPeriod(p) => assert_eq!(p, Duration { ticks: 333_333 }),
        other => panic!("{:?}", other),
    }
    assert_eq!(s.report_period, Some(Duration { ticks: 333_333 }));
    let update = CanEvent::Configuration(ConfigurationEvent::NodeIdUpdate { node_id: 9 });
    match s.on_event(update) {
        CanAction::Configure { config, node_id } => {
            assert_eq!(node_id, 9);
            assert_eq!(config.filters[0].1, Id::Extended(288));
        }
        other => panic!("{:?}", other),
    }
    assert_eq!(s.node_id, 9);
}

#[test]
fn reports_are_big_endian_and_numbered() {
    let mut sequence = 255;
    let f = tx_report(5, &mut sequence, -2, 0x1234).unwrap();
    assert_eq!(f.id, Id::Extended(160));
    assert_eq!(f.data, vec![255, 0xff, 0xfe, 0x12, 0x34]);
    assert_eq!(sequence, 0);
    assert_eq!(tx_report(5, &mut sequence, 0, i16::MIN).unwrap().data, vec![0, 0, 0, 0x80, 0]);
}

#[test]
fn settings_are_named_in_any_case() {
    for name in ["canid", "id", " ID\t", "CanId", "\u{3000}cAnId\n"] {
        assert_eq!(Settings::from_str(name), Ok(Settings::CanId));
    }
    for name in ["canreportinterval", "REPORTINTERVAL "] {
        assert_eq!(Settings::from_str(name), Ok(Settings::CanReportInterval));
    }
    for name in ["", "interval", "can id", "ids"] {
        assert_eq!(Settings::from_str(name), Err(ParseSettingsError {}));
    }
    // A character outside ASCII whose lowercase form is an ASCII letter.
    assert_eq!(Settings::from_str("report\u{130}nterval"), Err(ParseSettingsError {}));
    assert_eq!(Settings::from_name("ID"), Err(ParseSettingsError {}));
}

#[test]
fn setting_keys_are_machine_words() {
    let word = usize::BITS as usize / 8;
    for (setting, number) in [(Settings::CanId, 0usize), (Settings::CanReportInterval, 1)] {
        let mut buffer = vec![0xee; word + 2];
        assert_eq!(setting.serialize_into(&mut buffer), Ok(word));
        assert_eq!(buffer[..word], number.to_le_bytes());
        assert_eq!(buffer[word..], [0xee, 0xee]);
        assert_eq!(Settings::deserialize_from(&buffer), Ok((setting, word)));
        let mut short = vec![0xee; word - 1];
        assert_eq!(setting.serialize_into(&mut short), Err(SerializationError::BufferTooSmall));
        assert_eq!(short, vec![0xee; word - 1]);
        assert_eq!(
            Settings::deserialize_from(&buffer[..word - 1]),
            Err(SerializationError::BufferTooSmall)
        );
    }
    assert_eq!(Settings::get_len(&[]), Ok(word));
}

#[test]
fn fetched_values_have_defaults() {
    assert_eq!(fetched_or_default(Ok(Some(5)), 1), 5);
    assert_eq!(fetched_or_default(Ok(None), 1), 1);
    assert_eq!(fetched_or_default(Err(()), 1), 1);
}

fn step(args: &[&str]) -> CanCommandStep {
    let args: Vec<String> = args.iter().map(|a| a.to_string()).collect();
    CanCommand.execute(&args)
}

#[test]
fn the_can_command_reads_and_stores() {
    assert_eq!(step(&["can"]), CanCommandStep::Usage);
    assert_eq!(step(&["can", "speed"]), CanCommandStep::InvalidType);
    assert_eq!(step(&["can", "ID"]), CanCommandStep::Read(Settings::CanId));
    assert_eq!(
        step(&["can", "id", "16777214"]),
        CanCommandStep::Store {
            setting: Settings::CanId,
            value: 16777214,
            event: ConfigurationEvent::NodeIdUpdate { node_id: 16777214 }
        }
    );
    // Every ID that is stored has an address.
    assert_eq!(node_config(16777214).filters[0].1, Id::Extended(16777214 * 32));
    for bad in ["16777215", "-1", "x", "4294967296"] {
        assert_eq!(step(&["can", "id", bad]), CanCommandStep::InvalidCanId);
    }
    assert_eq!(
        step(&["can", "reportinterval", "18446744073709551615", "more"]),
        CanCommandStep::Publish(ConfigurationEvent::IntervalUpdate { hz: u64::MAX })
    );
    assert_eq!(step(&["can", "reportinterval", "fast"]), CanCommandStep::InvalidInterval);
    assert_eq!(
        CanCommand.step(Err(ParseSettingsError {}), Some("1")),
        CanCommandStep::InvalidType
    );
}

#[test]
fn the_can_command_replies() {
    let lines = |args: &[&str]| step(args).lines();
    assert_eq!(lines(&["can"]), vec!["Usage: can [id|interval] ..."]);
    assert_eq!(lines(&["can", "speed", "1"]), vec!["Invalid type id"]);
    // A setting that was understood is named first.
    assert_eq!(lines(&["can", "id"]), vec!["setting: Ok(CanId)"]);
    assert_eq!(lines(&["can", "id", "5"]), vec!["setting: Ok(CanId)"]);
    assert_eq!(lines(&["can", "id", "x"]), vec!["setting: Ok(CanId)", "Invalid Can ID"]);
    assert_eq!(lines(&["can", "reportinterval", "5"]), vec!["setting: Ok(CanReportInterval)"]);
    assert_eq!(
        lines(&["can", "reportinterval", "x"]),
        vec!["setting: Ok(CanReportInterval)", "Invalid Interval"]
    );
    let debug = |s: Settings| format!("setting: {:?}", Ok::<Settings, ParseSettingsError>(s));
    for s in [Settings::CanId, Settings::CanReportInterval] {
        assert_eq!(s.describe(), debug(s));
    }
    for v in [None, Some(0), Some(u32::MAX)] {
        assert_eq!(stored_value_text(v), format!("val = {:?}", v));
    }
}
