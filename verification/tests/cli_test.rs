//! The command line.

use cyphal_node::cli::{
    queue_write, BootloadCommand, CliRoute, Command, CommandDispatcher, DeviceAction, EchoCommand,
    RestartCommand, UptimeCommand, VersionCommand,
};
use cyphal_node::text::{parse_decimal, push_padded, render_decimal, split_words, str_eq, trim};

const COMMANDS: [Command; 3] = [
    Command { name: "version", description: "Print Version Details" },
    Command { name: "echo", description: "Echo input" },
    Command { name: "a-very-long-name", description: "x" },
];

fn strings(args: &[&str]) -> Vec<String> {
    args.iter().map(|a| a.to_string()).collect()
}

#[test]
fn lines_are_split_at_whitespace() {
    for line in ["", "  ", "a", " a  b\tc ", "x\u{2003}y\u{a0}z", "no\u{200b}split"] {
        let expected: Vec<String> = line.split_whitespace().map(|w| w.to_string()).collect();
        assert_eq!(split_words(line), expected, "{:?}", line);
        assert_eq!(trim(line), line.trim(), "{:?}", line);
    }
    for code in 0..0x3100u32 {
        if let Some(c) = char::from_u32(code) {
            assert_eq!(cyphal_node::text::is_whitespace(c), c.is_whitespace(), "{:x}", code);
        }
    }
}

#[test]
fn at_most_eight_arguments_are_taken() {
    let args = CommandDispatcher::parse_args("1 2 3 4 5 6 7 8 9 10");
    assert_eq!(args, strings(&["1", "2", "3", "4", "5", "6", "7", "8"]));
    assert!(CommandDispatcher::parse_args(" ").is_empty());
}

#[test]
fn lines_find_their_command() {
    let d = CommandDispatcher::new(&COMMANDS);
    assert!(matches!(d.dispatch("  "), CliRoute::Empty));
    assert!(matches!(d.dispatch("help echo"), CliRoute::Help));
    match d.dispatch("echo hello  world") {
        CliRoute::Run { command, args } => {
            assert_eq!(command, 1);
            assert_eq!(args, strings(&["echo", "hello", "world"]));
        }
        other => panic!("{:?}", other),
    }
    match d.dispatch("Echo") {
        CliRoute::Unknown(name) => assert_eq!(name, "Echo"),
        other => panic!("{:?}", other),
    }
}

#[test]
fn lines_without_a_command_are_answered() {
    let d = CommandDispatcher::new(&COMMANDS);
    assert_eq!(d.dispatch("").message().unwrap(), "No command entered.");
    assert_eq!(d.dispatch("nope x").message().unwrap(), "Unknown command: 'nope'");
    assert!(d.dispatch("help").message().is_none());
    assert_eq!(
        d.help(),
        vec![
            "Available commands:".to_string(),
            format!("  {:<10} - {}", "version", "Print Version Details"),
            format!("  {:<10} - {}", "echo", "Echo input"),
            format!("  {:<10} - {}", "a-very-long-name", "x"),
        ]
    );
}

#[test]
fn echo_joins_its_words() {
    assert_eq!(EchoCommand.execute(&strings(&["echo"])), "Usage: echo <message>");
    assert_eq!(EchoCommand.execute(&strings(&["echo", "hi"])), "content: hi");
    assert_eq!(EchoCommand.execute(&strings(&["echo", "a", "b", "ü"])), "content: a b ü");
    // The longest line that can be entered.
    let line = format!("e {}", "x".repeat(62));
    let args = CommandDispatcher::parse_args(&line);
    assert_eq!(EchoCommand.execute(&args), format!("content: {}", "x".repeat(62)));
}

#[test]
fn plain_commands_reply() {
    assert_eq!(UptimeCommand.execute(0), "Uptime: 0 seconds");
    assert_eq!(UptimeCommand.execute(86_400), "Uptime: 86400 seconds");
    assert_eq!(
        VersionCommand.execute("cyphal-template", "0.4.0", "abc1234", false),
        "cyphal-template 0.4.0 git: abc1234,clean"
    );
    assert_eq!(VersionCommand.execute("n", "v", "h", true), "n v git: h,dirty");
    assert_eq!(BootloadCommand.execute(), DeviceAction::UsbBoot);
    assert_eq!(RestartCommand.execute(), DeviceAction::Reset);
}

#[test]
fn numbers_are_written_and_read() {
    for n in [0u64, 7, 10, 99, 100, 12_345, u64::MAX] {
        assert_eq!(render_decimal(n), n.to_string());
        assert_eq!(parse_decimal(&n.to_string(), u64::MAX), Some(n));
    }
    for text in ["", "+", "-1", "1a", "18446744073709551616", "+5", "0005", "٣", "++1", "+-1"] {
        assert_eq!(parse_decimal(text, u64::MAX), text.parse::<u64>().ok(), "{:?}", text);
        assert_eq!(parse_decimal(text, 255), text.parse::<u8>().ok().map(u64::from), "{:?}", text);
    }
    assert_eq!(parse_decimal("256", 255), None);
    assert_eq!(parse_decimal("255", 255), Some(255));
}

#[test]
fn text_helpers() {
    assert!(str_eq("", "") && str_eq("ä", "ä"));
    assert!(!str_eq("a", "A") && !str_eq("a", "ab"));
    let mut s = "x".to_string();
    push_padded(&mut s, "äb", 4);
    assert_eq!(s, "xäb  ");
}

#[test]
fn queues_take_what_fits() {
    assert_eq!(queue_write(5, 10), (5, true));
    assert_eq!(queue_write(10, 10), (10, true));
    assert_eq!(queue_write(11, 10), (10, false));
    assert_eq!(queue_write(0, 0), (0, false));
    assert_eq!(queue_write(0, 1), (0, true));
}
