//! The shoulder sensor application.

use cyphal_node::cli::{CliRoute, Command, CommandDispatcher};
use cyphal_node::handler::Publisher;
use cyphal_node::settings::{is_valid_subject_id, ShoulderSettings};
use cyphal_node::shoulder::{
    Due, ShoulderData, ShoulderExtension, SubjectCommand, SubjectStep, ZeroCommand, COMMAND_ZERO,
};
use cyphal_node::time::Duration;
use cyphal_node::util::SerializationError;
use cyphal_node::wire::ExecuteCommandRequest;

#[test]
fn subject_ids_are_vendor_specific() {
    assert!(!is_valid_subject_id(6143));
    assert!(is_valid_subject_id(6144));
    assert!(is_valid_subject_id(7167));
    assert!(!is_valid_subject_id(7168));
}

#[test]
fn keys_are_little_endian_words() {
    let all = [
        ShoulderSettings::AngleSubjectId,
        ShoulderSettings::TempSubjectId,
        ShoulderSettings::ZeroOffset,
    ];
    for (number, key) in all.into_iter().enumerate() {
        let mut buffer = [0xee; 6];
        assert_eq!(key.serialize_into(&mut buffer), Ok(4));
        assert_eq!(buffer, [number as u8, 0, 0, 0, 0xee, 0xee]);
        assert_eq!(ShoulderSettings::deserialize_from(&buffer), Ok((key, 4)));
        assert_eq!(key.serialize_into(&mut [0; 3]), Err(SerializationError::BufferTooSmall));
    }
    assert_eq!(ShoulderSettings::deserialize_from(&[0; 3]), Err(SerializationError::BufferTooSmall));
    for bad in [[3u8, 0, 0, 0], [0, 1, 0, 0], [1, 0, 0, 1]] {
        assert_eq!(ShoulderSettings::deserialize_from(&bad), Err(SerializationError::InvalidData));
    }
    assert_eq!(ShoulderSettings::get_len(&[]), Ok(4));
}

#[test]
fn settings_are_loaded_with_defaults() {
    let mut d = ShoulderData::new();
    assert_eq!((d.angle_subject_id, d.temp_subject_id, d.zero_offset_bits), (6144, 6145, 0));
    d.load_settings(Ok(Some(6200)), Ok(None), Err(()));
    assert_eq!((d.angle_subject_id, d.temp_subject_id, d.zero_offset_bits), (6200, 6145, 0));
    d.load_settings(Ok(Some(0x1_0005)), Err(()), Ok(Some(77)));
    assert_eq!((d.angle_subject_id, d.temp_subject_id, d.zero_offset_bits), (5, 6145, 77));
}

#[test]
fn subjects_are_published_on() {
    let mut d = ShoulderData::new();
    assert_eq!(
        d.publishers(),
        vec![
            Publisher { subject: 6144, timeout_ms: 100 },
            Publisher { subject: 6145, timeout_ms: 1000 }
        ]
    );
    d.angle_subject_id = 8192 + 3;
    assert_eq!(d.angle_subject(), 3);
    assert_eq!(d.temp_subject(), 6145);
}

fn request(command: u16) -> ExecuteCommandRequest {
    ExecuteCommandRequest { command, parameter: vec![] }
}

#[test]
fn the_zero_command_takes_the_angle() {
    let mut d = ShoulderData::new();
    d.angle_bits = 1.5f32.to_bits();
    assert_eq!(d.handle_execute_command(&request(2)), None);
    assert_eq!(d.zero_offset_bits, 0);
    assert_eq!(d.take_zero_to_persist(), None);
    assert_eq!(
        d.handle_execute_command(&request(COMMAND_ZERO)),
        Some((0u8, b"zeroed" as &[u8]))
    );
    assert_eq!(f32::from_bits(d.zero_offset_bits), 1.5);
    assert_eq!(d.take_zero_to_persist(), Some(1.5f32.to_bits()));
    assert_eq!(d.take_zero_to_persist(), None);

    d.angle_bits = 9;
    assert_eq!(ZeroCommand.execute(&mut d), (ShoulderSettings::ZeroOffset, 9));
    assert_eq!(d.zero_offset_bits, 9);
    assert!(!d.pending_zero_persist);
}

#[test]
fn publications_keep_their_beat() {
    let mut e = ShoulderExtension::new(1000);
    assert_eq!(e.on_tick(999), Due { angle: false, temp: false });
    assert_eq!(e.on_tick(1000), Due { angle: true, temp: true });
    assert_eq!((e.next_angle_at, e.next_temp_at), (11_000, 1_001_000));
    // A late tick does not move the beat.
    assert_eq!(e.on_tick(14_000), Due { angle: true, temp: false });
    assert_eq!(e.next_angle_at, 21_000);
    // Exactly one period late still keeps it.
    assert_eq!(e.on_tick(31_000), Due { angle: true, temp: false });
    assert_eq!(e.next_angle_at, 31_000);
    // More than one period late starts anew, without a burst.
    assert_eq!(e.on_tick(50_000), Due { angle: true, temp: false });
    assert_eq!(e.next_angle_at, 60_000);
    assert_eq!(e.on_tick(50_001), Due { angle: false, temp: false });
    assert_eq!(e.preferred_loop_period(), Duration::from_millis(5));
}

fn subject(args: &[&str], data: &mut ShoulderData) -> SubjectStep {
    let args: Vec<String> = args.iter().map(|a| a.to_string()).collect();
    SubjectCommand.execute(&args, data)
}

#[test]
fn the_subject_command_shows_and_sets() {
    let mut d = ShoulderData::new();
    assert!(matches!(subject(&["subject"], &mut d), SubjectStep::Show));
    assert!(matches!(subject(&[], &mut d), SubjectStep::Show));
    assert_eq!(
        d.subject_lines(),
        ("Angle subject ID : 6144".to_string(), "Temp  subject ID : 6145".to_string())
    );
    let reply = |args: &[&str], d: &mut ShoulderData, stored: bool| subject(args, d).message(stored).unwrap();
    assert_eq!(
        reply(&["subject", "angle"], &mut d, true),
        "Usage: subject [angle|temp] <id>  (valid IDs: 6144-7167)"
    );
    assert_eq!(reply(&["subject", "angle", "x"], &mut d, true), "Invalid subject ID: x");
    assert_eq!(reply(&["subject", "angle", "65536"], &mut d, true), "Invalid subject ID: 65536");
    assert_eq!(
        reply(&["subject", "angle", "7168"], &mut d, true),
        "Subject ID 7168 is outside the allowed range 6144-7167"
    );
    assert_eq!(
        reply(&["subject", "speed", "7000"], &mut d, true),
        "Unknown kind 'speed'. Use 'angle' or 'temp'."
    );
    assert_eq!(d, ShoulderData::new());
    assert_eq!(reply(&["subject", "angle", "6200"], &mut d, true), "Angle subject ID set to 6200");
    assert_eq!(
        reply(&["subject", "temp", "6201"], &mut d, false),
        "Temp subject ID set to 6201 (NVS write failed)"
    );
    assert_eq!((d.angle_subject_id, d.temp_subject_id), (6200, 6201));
    assert!(SubjectStep::Show.message(true).is_none());
}

#[test]
fn subject_lines_are_understood_as_entered() {
    let commands = [Command { name: "subject", description: "" }];
    let dispatcher = CommandDispatcher::new(&commands);
    let mut d = ShoulderData::new();
    match dispatcher.dispatch("subject angle 6150") {
        CliRoute::Run { command: 0, args } => match SubjectCommand.execute(&args, &mut d) {
            SubjectStep::Changed { key, id } => {
                assert_eq!((key, id), (ShoulderSettings::AngleSubjectId, 6150))
            }
            other => panic!("{:?}", other),
        },
        other => panic!("{:?}", other),
    }
    assert_eq!(d.angle_subject_id, 6150);
}
