//! Command line: splitting a line into arguments, finding the command, and the replies of the
//! commands that need nothing but their arguments.
use vstd::prelude::*;
use vstd::string::*;
use crate::text::{
    decimal_text, joined, lemma_joined_cons, lemma_joined_prefix, lemma_joined_words,
    lemma_utf8_len_concat, padded_right, push_padded, render_decimal, split_words, str_eq, utf8_len,
    views, words,
};

verus! {

/// Arguments of a command at most, its name included.
pub const MAX_ARGS: usize = 8;
/// Bytes of a line at most.
pub const MAX_LINE_SIZE: usize = 64;
/// Bytes of an echoed message at most.
pub const MAX_ECHO_SIZE: usize = 64;
/// Width of the column of names in the help text.
pub const HELP_NAME_WIDTH: usize = 10;

/// A `heapless::Vec<String, 8>`, described by [`arg_contents`]. Verus cannot declare the type
/// itself, whose storage parameter lives in a private module.
#[verifier::external_body]
pub struct ArgList {
    inner: heapless::Vec<String, 8>,
}

/// The arguments in a list, in order.
pub uninterp spec fn arg_contents(list: ArgList) -> Seq<Seq<char>>;

/// `heapless::Vec::<String, 8>::new`: an empty vector.
#[verifier::external_body]
fn heapless_args_new() -> (list: ArgList)
    ensures
        arg_contents(list) == Seq::<Seq<char>>::empty(),
{
    ArgList { inner: heapless::Vec::new() }
}

/// `heapless::Vec::push` at capacity 8: appends the element, or nothing where the vector is full;
/// the result says which.
#[verifier::external_body]
fn heapless_args_push(list: &mut ArgList, arg: String) -> (pushed: bool)
    ensures
        pushed == (arg_contents(*old(list)).len() < 8),
        arg_contents(*final(list)) == if pushed {
            arg_contents(*old(list)).push(arg@)
        } else {
            arg_contents(*old(list))
        },
{
    list.inner.push(arg).is_ok()
}

/// `heapless::Vec::into_iter`: all elements, in order.
#[verifier::external_body]
fn heapless_args_into_vec(list: ArgList) -> (args: Vec<String>)
    ensures
        views(args@) == arg_contents(list),
{
    list.inner.into_iter().collect()
}

/// A `heapless::String<64>`, described by [`echo_contents`]. Verus cannot declare the type itself,
/// whose storage parameter lives in a private module.
#[verifier::external_body]
pub struct EchoBuf {
    inner: heapless::String<64>,
}

/// The text in a buffer.
pub uninterp spec fn echo_contents(buf: EchoBuf) -> Seq<char>;

/// `heapless::String::<64>::new`: an empty string.
#[verifier::external_body]
fn heapless_string_new() -> (buf: EchoBuf)
    ensures
        echo_contents(buf) == Seq::<char>::empty(),
{
    EchoBuf { inner: heapless::String::new() }
}

/// `heapless::String::push_str` at capacity 64: appends the text, or nothing where it would take
/// more than 64 bytes; the result says which.
#[verifier::external_body]
fn heapless_string_push_str(buf: &mut EchoBuf, s: &str) -> (pushed: bool)
    ensures
        pushed == (utf8_len(echo_contents(*old(buf))) + utf8_len(s@) <= 64),
        echo_contents(*final(buf)) == if pushed {
            echo_contents(*old(buf)) + s@
        } else {
            echo_contents(*old(buf))
        },
{
    buf.inner.push_str(s).is_ok()
}

/// `heapless::String::as_str`: the contents.
#[verifier::external_body]
fn heapless_string_as_str(buf: &EchoBuf) -> (s: &str)
    ensures
        s@ == echo_contents(*buf),
{
    buf.inner.as_str()
}

/// A command that can be entered.
#[derive(Clone, Copy, Debug)]
pub struct Command {
    pub name: &'static str,
    pub description: &'static str,
}

/// What a line asks for.
#[derive(Debug)]
pub enum CliRoute {
    /// Nothing was entered.
    Empty,
    /// The list of commands.
    Help,
    /// Run the command at this position. The first argument is its name.
    Run { command: usize, args: Vec<String> },
    /// There is no command of this name.
    Unknown(String),
}

/// The arguments in a line: its first words.
pub open spec fn line_args(line: Seq<char>) -> Seq<Seq<char>> {
    if words(line).len() <= MAX_ARGS {
        words(line)
    } else {
        words(line).take(MAX_ARGS as int)
    }
}

/// Finds the command for a line among those that there are.
#[derive(Clone, Copy, Debug)]
pub struct CommandDispatcher<'a> {
    pub commands: &'a [Command],
}

impl<'a> CommandDispatcher<'a> {
    pub fn new(commands: &'a [Command]) -> (d: CommandDispatcher<'a>)
        ensures
            d.commands == commands,
    {
        CommandDispatcher { commands }
    }

    /// Splits a line into arguments; what does not fit is left out.
    pub fn parse_args(line: &str) -> (args: Vec<String>)
        ensures
            views(args@) == line_args(line@),
    {
        let found = split_words(line);
        let mut list = heapless_args_new();
        let ghost all = words(line@);
        let mut i: usize = 0;
        while i < found.len()
            invariant
                views(found@) == all,
                i <= found@.len(),
                i <= MAX_ARGS,
                arg_contents(list) == all.take(i as int),
            ensures
                arg_contents(list) == if all.len() <= MAX_ARGS { all } else { all.take(8) },
            decreases found@.len() - i,
        {
            let pushed = heapless_args_push(&mut list, found[i].clone());
            if !pushed {
                break;
            }
            proof {
                assert(all[i as int] == found@[i as int]@);
                assert(all.take(i + 1) =~= all.take(i as int).push(all[i as int]));
            }
            i += 1;
            proof {
                if i == found@.len() {
                    assert(all.take(i as int) =~= all);
                }
            }
        }
        proof {
            if all.len() == 0 {
                assert(all.take(0) =~= all);
            }
        }
        heapless_args_into_vec(list)
    }

    /// Decides what a line asks for.
    pub fn dispatch(&self, line: &str) -> (route: CliRoute)
        ensures
            ({
                let args = line_args(line@);
                &&& args.len() == 0 <==> route == CliRoute::Empty
                &&& args.len() > 0 && args[0] == "help"@ <==> route == CliRoute::Help
                &&& route matches CliRoute::Run { command, args: given } ==> {
                    &&& views(given@) == args
                    &&& command < self.commands@.len()
                    &&& self.commands@[command as int].name@ == args[0]
                    &&& forall|j: int|
                        0 <= j < command ==> (#[trigger] self.commands@[j]).name@ != args[0]
                }
                &&& route matches CliRoute::Unknown(name) ==> {
                    &&& name@ == args[0]
                    &&& forall|j: int|
                        0 <= j < self.commands@.len() ==> (#[trigger] self.commands@[j]).name@
                            != args[0]
                }
            }),
    {
        let args = CommandDispatcher::parse_args(line);
        if args.len() == 0 {
            return CliRoute::Empty;
        }
        proof {
            assert(views(args@)[0] == args@[0]@);
        }
        if str_eq(args[0].as_str(), "help") {
            return CliRoute::Help;
        }
        let mut i: usize = 0;
        while i < self.commands.len()
            invariant
                i <= self.commands@.len(),
                args@.len() > 0,
                args@[0]@ == line_args(line@)[0],
                args@[0]@ != "help"@,
                views(args@) == line_args(line@),
                forall|j: int|
                    0 <= j < i ==> (#[trigger] self.commands@[j]).name@ != args@[0]@,
            decreases self.commands@.len() - i,
        {
            if str_eq(self.commands[i].name, args[0].as_str()) {
                return CliRoute::Run { command: i, args };
            }
            i += 1;
        }
        CliRoute::Unknown(args[0].clone())
    }

    /// The lines of the help text.
    pub fn help(&self) -> (lines: Vec<String>)
        ensures
            lines@.len() == self.commands@.len() + 1,
            lines@[0]@ == "Available commands:"@,
            forall|i: int|
                0 <= i < self.commands@.len() ==> (#[trigger] lines@[i + 1])@ == help_line(
                    self.commands@[i],
                ),
    {
        let mut lines: Vec<String> = Vec::new();
        lines.push("Available commands:".to_owned());
        let mut i: usize = 0;
        while i < self.commands.len()
            invariant
                i <= self.commands@.len(),
                lines@.len() == i + 1,
                lines@[0]@ == "Available commands:"@,
                forall|j: int|
                    0 <= j < i ==> (#[trigger] lines@[j + 1])@ == help_line(self.commands@[j]),
            decreases self.commands@.len() - i,
        {
            let mut text = "  ".to_owned();
            push_padded(&mut text, self.commands[i].name, HELP_NAME_WIDTH);
            text.push_str(" - ");
            text.push_str(self.commands[i].description);
            lines.push(text);
            i += 1;
        }
        lines
    }
}

/// The line of the help text for a command.
pub open spec fn help_line(command: Command) -> Seq<char> {
    "  "@ + padded_right(command.name@, HELP_NAME_WIDTH as int) + " - "@ + command.description@
}

impl CliRoute {
    /// The reply to a line that no command is run for; the help text is made up of several.
    pub fn message(&self) -> (text: Option<String>)
        ensures
            match *self {
                CliRoute::Empty => text matches Some(t) && t@ == "No command entered."@,
                CliRoute::Unknown(name) => text matches Some(t) && t@ == "Unknown command: '"@
                    + name@ + "'"@,
                _ => text is None,
            },
    {
        match self {
            CliRoute::Empty => Some("No command entered.".to_owned()),
            CliRoute::Unknown(name) => {
                let mut text = "Unknown command: '".to_owned();
                text.push_str(name.as_str());
                text.push_str("'");
                Some(text)
            },
            _ => None,
        }
    }
}

/// Says what was entered.
#[derive(Clone, Copy, Debug, PartialEq, Eq, Structural)]
pub struct EchoCommand;

impl EchoCommand {
    /// The reply to the command, whose arguments begin with its name.
    pub fn execute(&self, args: &[String]) -> (text: String)
        requires
            args@.len() >= 2 ==> utf8_len(joined(views(args@).skip(1))) <= MAX_ECHO_SIZE,
        ensures
            text@ == if args@.len() < 2 {
                "Usage: echo <message>"@
            } else {
                "content: "@ + joined(views(args@).skip(1))
            },
    {
        if args.len() < 2 {
            return "Usage: echo <message>".to_owned();
        }
        let mut msg = heapless_string_new();
        let ghost parts = views(args@).skip(1);
        let mut i: usize = 1;
        proof {
            assert(parts.take(0) =~= Seq::<Seq<char>>::empty());
            assert(joined(parts.take(0)) =~= Seq::<char>::empty());
        }
        while i < args.len()
            invariant
                1 <= i <= args@.len(),
                parts == views(args@).skip(1),
                echo_contents(msg) == joined(parts.take(i - 1)),
                utf8_len(joined(parts)) <= MAX_ECHO_SIZE,
            decreases args@.len() - i,
        {
            let ghost before = joined(parts.take(i - 1));
            let ghost longer = parts.take(i as int);
            proof {
                assert(longer.drop_last() =~= parts.take(i - 1));
                assert(longer.last() == args@[i as int]@);
                lemma_joined_prefix(parts, i as int);
                lemma_utf8_len_concat(before, " "@);
                lemma_utf8_len_concat(before + " "@, longer.last());
                lemma_utf8_len_concat(before, longer.last());
            }
            if i > 1 {
                let _ = heapless_string_push_str(&mut msg, " ");
            }
            let _ = heapless_string_push_str(&mut msg, args[i].as_str());
            proof {
                if i == 1 {
                    assert(echo_contents(msg) =~= longer[0]);
                }
            }
            i += 1;
        }
        proof {
            assert(parts.take(args@.len() - 1) =~= parts);
        }
        let mut text = "content: ".to_owned();
        text.push_str(heapless_string_as_str(&msg));
        text
    }
}

/// Every line that can be entered can be echoed: what follows its first word fits the message.
pub proof fn law_line_can_be_echoed(line: Seq<char>)
    requires
        utf8_len(line) <= MAX_LINE_SIZE,
        line_args(line).len() >= 2,
    ensures
        utf8_len(joined(line_args(line).skip(1))) <= MAX_ECHO_SIZE,
{
    let args = line_args(line);
    lemma_joined_words(line, 0);
    assert(line.skip(0) =~= line);
    lemma_joined_prefix(words(line), args.len() as int);
    assert(words(line).take(args.len() as int) =~= args);
    lemma_joined_cons(args[0], args.skip(1));
    assert(seq![args[0]] + args.skip(1) =~= args);
    lemma_utf8_len_concat(Seq::empty(), args[0]);
}

/// Says how long the device has been up.
#[derive(Clone, Copy, Debug, PartialEq, Eq, Structural)]
pub struct UptimeCommand;

impl UptimeCommand {
    pub fn execute(&self, uptime_secs: u64) -> (text: String)
        ensures
            text@ == "Uptime: "@ + decimal_text(uptime_secs as int) + " seconds"@,
    {
        let mut text = "Uptime: ".to_owned();
        text.push_str(render_decimal(uptime_secs).as_str());
        text.push_str(" seconds");
        text
    }
}

/// Says what the device runs.
#[derive(Clone, Copy, Debug, PartialEq, Eq, Structural)]
pub struct VersionCommand;

impl VersionCommand {
    /// Name and version of the package, and the state of the repository that it was built from.
    pub fn execute(&self, name: &str, version: &str, hash: &str, dirty: bool) -> (text: String)
        ensures
            text@ == name@ + " "@ + version@ + " git: "@ + hash@ + ","@ + if dirty {
                "dirty"@
            } else {
                "clean"@
            },
    {
        let mut text = name.to_owned();
        text.push_str(" ");
        text.push_str(version);
        text.push_str(" git: ");
        text.push_str(hash);
        text.push_str(",");
        text.push_str(
            if dirty {
                "dirty"
            } else {
                "clean"
            },
        );
        text
    }
}

/// What a command does to the device.
#[derive(Clone, Copy, Debug, PartialEq, Eq, Structural)]
pub enum DeviceAction {
    /// Start the USB bootloader.
    UsbBoot,
    /// Reset.
    Reset,
}

/// Launches the USB bootloader.
#[derive(Clone, Copy, Debug, PartialEq, Eq, Structural)]
pub struct BootloadCommand;

impl BootloadCommand {
    pub fn execute(&self) -> (action: DeviceAction)
        ensures
            action == DeviceAction::UsbBoot,
    {
        DeviceAction::UsbBoot
    }
}

/// Restarts the system.
#[derive(Clone, Copy, Debug, PartialEq, Eq, Structural)]
pub struct RestartCommand;

impl RestartCommand {
    pub fn execute(&self) -> (action: DeviceAction)
        ensures
            action == DeviceAction::Reset,
    {
        DeviceAction::Reset
    }
}

/// How many bytes of `len` go into a queue with room for `free`, and whether that is all of them.
/// A full queue takes nothing, not even an empty text.
pub fn queue_write(len: usize, free: usize) -> (r: (usize, bool))
    ensures
        r.0 == if len < free { len } else { free },
        r.1 == (free > 0 && len <= free),
{
    if free == 0 {
        (0, false)
    } else if len < free {
        (len, true)
    } else {
        (free, len == free)
    }
}

/// The arguments in a line are its first eight words.
pub proof fn law_arguments_are_the_first_words(line: Seq<char>)
    ensures
        words(line).len() <= 8 ==> line_args(line) == words(line),
        words(line).len() > 8 ==> line_args(line) == words(line).take(8),
{
}

/// A line of the help text: two spaces, the name, filled up with spaces to ten characters, a dash
/// between spaces, and the description.
pub proof fn law_help_line(command: Command)
    ensures
        ({
            let line = help_line(command);
            let name = command.name@;
            let width: int = if name.len() < 10 { 10 } else { name.len() as int };
            &&& line.len() == 2 + width + 3 + command.description@.len()
            &&& line[0] == ' ' && line[1] == ' '
            &&& forall|i: int| 0 <= i < name.len() ==> #[trigger] line[2 + i] == name[i]
            &&& forall|i: int| name.len() <= i < width ==> #[trigger] line[2 + i] == ' '
            &&& line[2 + width] == ' ' && line[3 + width] == '-' && line[4 + width] == ' '
            &&& line.skip(5 + width) == command.description@
        }),
{
    reveal_strlit("  ");
    reveal_strlit(" - ");
    let line = help_line(command);
    let name = command.name@;
    let width: int = if name.len() < 10 { 10 } else { name.len() as int };
    assert(line.skip(5 + width) =~= command.description@);
}

/// A line and an echoed message take up to 64 bytes.
pub proof fn law_line_sizes()
    ensures
        MAX_LINE_SIZE == 64,
        MAX_ECHO_SIZE == 64,
{
}

} // verus!
