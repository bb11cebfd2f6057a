//! The shoulder sensor application: when it publishes, its vendor command, and the commands that
//! change its settings.
//!
//! # Published subjects
//!
//! | Type                                    | Default subject ID | Rate   |
//! |-----------------------------------------|--------------------|--------|
//! | `uavcan.si.unit.angle.Scalar` v1.0      | 6144               | 100 Hz |
//! | `uavcan.si.unit.temperature.Scalar` v1.0| 6145               | 1 Hz   |
//!
//! # Vendor commands (ExecuteCommand)
//!
//! | Command code | Name           | Effect                                          |
//! |--------------|----------------|-------------------------------------------------|
//! | `0x0001`     | `COMMAND_ZERO` | Set the current angle as the new zero reference |
//!
//! Angles are kept as the bit patterns of 32-bit floats.
use vstd::prelude::*;
use vstd::string::*;
use crate::execute_command::reply_matches;
use crate::handler::Publisher;
use crate::settings::{
    is_valid_subject_id, ShoulderSettings, DEFAULT_ANGLE_SUBJECT_ID, DEFAULT_TEMP_SUBJECT_ID,
    DEFAULT_ZERO_OFFSET_BITS, SUBJECT_ID_MAX, SUBJECT_ID_MIN,
};
use crate::text::{
    decimal_text, lemma_decimal_nonneg, parse_decimal, parsed_decimal, render_decimal, str_eq,
    views,
};
use crate::time::{hz_period, Duration, TICK_HZ};
use crate::util::{fetched_or_default, fetched_value};
use crate::wire::{ExecuteCommandRequest, ExecuteCommandResponse};

verus! {

/// Vendor command: set the current angle as the zero reference.
///
/// The command code must be in the range 0x0000–0x7FFF (vendor-specific).
pub const COMMAND_ZERO: u16 = 0x0001;

/// Rate of angle publications (Hz).
pub const ANGLE_HZ: u64 = 100;
/// Rate of temperature publications (Hz).
pub const TEMP_HZ: u64 = 1;
/// Rate at which the main loop should run (Hz): twice the rate of angle publications.
pub const LOOP_HZ: u64 = 200;

/// What the tasks of the application share.
#[derive(Clone, Copy, Debug, PartialEq, Eq, Structural)]
pub struct ShoulderData {
    /// Bit pattern of the measured angle (rad).
    pub angle_bits: u32,
    /// Measured temperature, in hundredths of a degree Celsius.
    pub temp: i16,
    /// Bit pattern of the zero offset (rad).
    pub zero_offset_bits: u32,
    pub angle_subject_id: u16,
    pub temp_subject_id: u16,
    /// Whether the zero offset is still to be stored.
    pub pending_zero_persist: bool,
}

/// `canadensis_core::SubjectId::from_truncating`: keeps the lowest 13 bits.
#[verifier::external_body]
fn canadensis_subject_id(value: u16) -> (id: u16)
    ensures
        id == value % 8192,
{
    canadensis::core::SubjectId::from_truncating(value).to_u16()
}

impl ShoulderData {
    /// Nothing was measured yet, and the settings have their defaults.
    pub fn new() -> (d: ShoulderData)
        ensures
            d == (ShoulderData {
                angle_bits: 0,
                temp: 0,
                zero_offset_bits: DEFAULT_ZERO_OFFSET_BITS,
                angle_subject_id: DEFAULT_ANGLE_SUBJECT_ID,
                temp_subject_id: DEFAULT_TEMP_SUBJECT_ID,
                pending_zero_persist: false,
            }),
            d.zero_offset_bits == 0 && d.angle_subject_id == 6144 && d.temp_subject_id == 6145,
    {
        ShoulderData {
            angle_bits: 0,
            temp: 0,
            zero_offset_bits: DEFAULT_ZERO_OFFSET_BITS,
            angle_subject_id: DEFAULT_ANGLE_SUBJECT_ID,
            temp_subject_id: DEFAULT_TEMP_SUBJECT_ID,
            pending_zero_persist: false,
        }
    }

    /// Takes over the settings that were fetched from storage; those that could not be have
    /// their defaults. Of a subject ID the lowest 16 bits count.
    pub fn load_settings(
        &mut self,
        angle_id: Result<Option<u32>, ()>,
        temp_id: Result<Option<u32>, ()>,
        zero_bits: Result<Option<u32>, ()>,
    )
        ensures
            *final(self) == (ShoulderData {
                angle_subject_id: (fetched_value(angle_id, DEFAULT_ANGLE_SUBJECT_ID as u32)
                    % 0x1_0000) as u16,
                temp_subject_id: (fetched_value(temp_id, DEFAULT_TEMP_SUBJECT_ID as u32)
                    % 0x1_0000) as u16,
                zero_offset_bits: fetched_value(zero_bits, DEFAULT_ZERO_OFFSET_BITS),
                ..*old(self)
            }),
            final(self).angle_subject_id == match angle_id {
                Ok(Some(id)) => id as int % 65536,
                _ => 6144,
            },
            final(self).temp_subject_id == match temp_id {
                Ok(Some(id)) => id as int % 65536,
                _ => 6145,
            },
            final(self).zero_offset_bits == match zero_bits {
                Ok(Some(bits)) => bits,
                _ => 0,
            },
    {
        let angle: u32 = fetched_or_default(angle_id, DEFAULT_ANGLE_SUBJECT_ID as u32);
        let temp: u32 = fetched_or_default(temp_id, DEFAULT_TEMP_SUBJECT_ID as u32);
        self.angle_subject_id = (angle % 0x1_0000) as u16;
        self.temp_subject_id = (temp % 0x1_0000) as u16;
        self.zero_offset_bits = fetched_or_default(zero_bits, DEFAULT_ZERO_OFFSET_BITS);
    }

    /// The zero offset that is still to be stored, if there is one. It is handed out once.
    pub fn take_zero_to_persist(&mut self) -> (bits: Option<u32>)
        ensures
            bits == if old(self).pending_zero_persist {
                Some(old(self).zero_offset_bits)
            } else {
                None::<u32>
            },
            *final(self) == (ShoulderData { pending_zero_persist: false, ..*old(self) }),
    {
        let bits = if self.pending_zero_persist {
            Some(self.zero_offset_bits)
        } else {
            None
        };
        self.pending_zero_persist = false;
        bits
    }

    /// Handle the vendor `COMMAND_ZERO` (0x0001): set the current measured
    /// angle as the zero reference.
    ///
    /// Updates the zero offset immediately; it is stored later (see
    /// [`ShoulderData::take_zero_to_persist`]).
    pub fn handle_execute_command(&mut self, request: &ExecuteCommandRequest) -> (reply: Option<
        (u8, &'static [u8]),
    >)
        ensures
            reply_matches(
                reply,
                if request.command == COMMAND_ZERO {
                    Some((ExecuteCommandResponse::STATUS_SUCCESS, "zeroed".spec_bytes()))
                } else {
                    None
                },
            ),
            reply is Some <==> request.command == 1,
            request.command == 1 ==> final(self).zero_offset_bits == old(self).angle_bits && final(
                self).pending_zero_persist,
            request.command != 1 ==> *final(self) == *old(self),
            *final(self) == if request.command == COMMAND_ZERO {
                ShoulderData {
                    zero_offset_bits: old(self).angle_bits,
                    pending_zero_persist: true,
                    ..*old(self)
                }
            } else {
                *old(self)
            },
    {
        if request.command == COMMAND_ZERO {
            self.zero_offset_bits = self.angle_bits;
            self.pending_zero_persist = true;
            Some((ExecuteCommandResponse::STATUS_SUCCESS, "zeroed".as_bytes()))
        } else {
            None
        }
    }

    /// The subject on which angles are published.
    pub fn angle_subject(&self) -> (subject: u16)
        ensures
            subject == self.angle_subject_id % 8192,
    {
        canadensis_subject_id(self.angle_subject_id)
    }

    /// The subject on which temperatures are published.
    pub fn temp_subject(&self) -> (subject: u16)
        ensures
            subject == self.temp_subject_id % 8192,
    {
        canadensis_subject_id(self.temp_subject_id)
    }

    /// The subjects to be registered for publishing.
    pub fn publishers(&self) -> (publishers: Vec<Publisher>)
        ensures
            publishers@ == seq![
                Publisher { subject: (self.angle_subject_id % 8192) as u16, timeout_ms: 100 },
                Publisher { subject: (self.temp_subject_id % 8192) as u16, timeout_ms: 1000 },
            ],
    {
        let mut publishers: Vec<Publisher> = Vec::new();
        publishers.push(Publisher { subject: self.angle_subject(), timeout_ms: 100 });
        publishers.push(Publisher { subject: self.temp_subject(), timeout_ms: 1000 });
        proof {
            assert(publishers@ =~= seq![
                Publisher { subject: (self.angle_subject_id % 8192) as u16, timeout_ms: 100 },
                Publisher { subject: (self.temp_subject_id % 8192) as u16, timeout_ms: 1000 },
            ]);
        }
        publishers
    }
}

/// When the application publishes next.
#[derive(Clone, Copy, Debug, PartialEq, Eq, Structural)]
pub struct ShoulderExtension {
    /// Deadline for the next angle publication.
    pub next_angle_at: u64,
    /// Deadline for the next temperature publication.
    pub next_temp_at: u64,
}

/// What is to be published in an iteration.
#[derive(Clone, Copy, Debug, PartialEq, Eq, Structural)]
pub struct Due {
    pub angle: bool,
    pub temp: bool,
}

/// The deadline after a publication at `now`: one period after the last deadline, or one period
/// from now when that has passed already.
pub open spec fn next_deadline(deadline: int, now: int, period: int) -> int {
    if now < deadline {
        deadline
    } else if deadline + period < now {
        now + period
    } else {
        deadline + period
    }
}

fn advance(deadline: u64, now: u64, period: Duration) -> (next: u64)
    requires
        deadline <= now,
        now + period.ticks <= u64::MAX,
    ensures
        next == next_deadline(deadline as int, now as int, period.ticks as int),
{
    let next: u64 = deadline + period.as_ticks();
    if next < now {
        now + period.as_ticks()
    } else {
        next
    }
}

impl ShoulderExtension {
    /// Create a new extension with both publication deadlines set to now so
    /// the first message is sent on the first tick.
    pub fn new(now_ticks: u64) -> (e: ShoulderExtension)
        ensures
            e == (ShoulderExtension { next_angle_at: now_ticks, next_temp_at: now_ticks }),
    {
        ShoulderExtension { next_angle_at: now_ticks, next_temp_at: now_ticks }
    }

    /// Called on every node loop iteration.
    ///
    /// Checks both rate deadlines and says which messages are due.
    /// Deadlines are advanced relative to the previous deadline rather than to the current
    /// time. This prevents drift accumulation across many iterations. A catch-up guard resets
    /// the deadline to `now + period` when the loop has fallen more than one period behind, so a
    /// burst of back-to-back publications never occurs.
    pub fn on_tick(&mut self, now_ticks: u64) -> (due: Due)
        requires
            now_ticks + TICK_HZ <= u64::MAX,
        ensures
            due.angle == (now_ticks >= old(self).next_angle_at),
            due.temp == (now_ticks >= old(self).next_temp_at),
            final(self).next_angle_at == next_deadline(
                old(self).next_angle_at as int,
                now_ticks as int,
                hz_period(ANGLE_HZ as int),
            ),
            final(self).next_temp_at == next_deadline(
                old(self).next_temp_at as int,
                now_ticks as int,
                hz_period(TEMP_HZ as int),
            ),
            now_ticks < old(self).next_angle_at ==> final(self).next_angle_at == old(
                self).next_angle_at,
            0 <= now_ticks - old(self).next_angle_at <= 10_000 ==> final(self).next_angle_at == old(
                self).next_angle_at + 10_000,
            now_ticks - old(self).next_angle_at > 10_000 ==> final(self).next_angle_at == now_ticks
                + 10_000,
            now_ticks < old(self).next_temp_at ==> final(self).next_temp_at == old(
                self).next_temp_at,
            0 <= now_ticks - old(self).next_temp_at <= 1_000_000 ==> final(self).next_temp_at
                == old(self).next_temp_at + 1_000_000,
            now_ticks - old(self).next_temp_at > 1_000_000 ==> final(self).next_temp_at == now_ticks
                + 1_000_000,
    {
        let mut due = Due { angle: false, temp: false };
        if now_ticks >= self.next_angle_at {
            due.angle = true;
            self.next_angle_at = advance(
                self.next_angle_at,
                now_ticks,
                Duration::from_hz(ANGLE_HZ),
            );
        }
        if now_ticks >= self.next_temp_at {
            due.temp = true;
            self.next_temp_at = advance(self.next_temp_at, now_ticks, Duration::from_hz(TEMP_HZ));
        }
        due
    }

    /// Request a loop period that guarantees at least two iterations per
    /// angle-publish interval.
    pub fn preferred_loop_period(&self) -> (period: Duration)
        ensures
            period.ticks == hz_period(LOOP_HZ as int),
            2 * period.ticks == hz_period(ANGLE_HZ as int),
            period.ticks == 5_000,
    {
        Duration::from_hz(LOOP_HZ)
    }
}

/// Right after a publication the next deadline does not lie in the past, and it lies at most one
/// period ahead. So publications do not come in bursts.
pub proof fn law_no_burst(deadline: int, now: int, period: int)
    requires
        0 < period,
        deadline <= now,
    ensures
        now <= next_deadline(deadline, now, period) <= now + period,
{
}

/// A loop that keeps up does not drift: as long as no tick comes more than one period after its
/// deadline, the deadlines stay on the beat of the first one, whatever the ticks.
pub proof fn law_no_drift(first: int, n: nat, ticks: spec_fn(int) -> int, period: int)
    requires
        0 < period,
        forall|i: int|
            0 <= i < n ==> first + i * period <= #[trigger] ticks(i) <= first + (i + 1) * period,
    ensures
        deadline_after(first, n, ticks, period) == first + n * period,
    decreases n,
{
    if n > 0 {
        law_no_drift(first, (n - 1) as nat, ticks, period);
        let before = first + (n - 1) * period;
        assert(before <= ticks(n - 1) <= first + (n - 1 + 1) * period);
        assert(before + period == first + n * period) by (nonlinear_arith)
            requires
                before == first + (n - 1) * period,
        ;
        assert(deadline_after(first, (n - 1) as nat, ticks, period) == before);
        assert(deadline_after(first, n, ticks, period) == before + period);
    } else {
        assert(n * period == 0) by (nonlinear_arith)
            requires
                n == 0,
        ;
    }
}

/// The deadline after `n` ticks, each of which came when a publication was due.
pub open spec fn deadline_after(
    first: int,
    n: nat,
    ticks: spec_fn(int) -> int,
    period: int,
) -> int
    decreases n,
{
    if n == 0 {
        first
    } else {
        next_deadline(deadline_after(first, (n - 1) as nat, ticks, period), ticks(n - 1), period)
    }
}

/// Set the current angle as the zero reference.
#[derive(Clone, Copy, Debug, PartialEq, Eq, Structural)]
pub struct ZeroCommand;

impl ZeroCommand {
    /// Takes the live sensor angle as the zero offset, and returns the setting to store.
    pub fn execute(&self, data: &mut ShoulderData) -> (store: (ShoulderSettings, u32))
        ensures
            *final(data) == (ShoulderData { zero_offset_bits: old(data).angle_bits, ..*old(data) }),
            store == (ShoulderSettings::ZeroOffset, old(data).angle_bits),
    {
        data.zero_offset_bits = data.angle_bits;
        (ShoulderSettings::ZeroOffset, data.angle_bits)
    }
}

/// Get or set the Cyphal subject IDs used for publishing.
///
/// Usage:
/// - `subject` — display current subject IDs and zero offset
/// - `subject angle <id>` — set the angle subject ID (6144–7167)
/// - `subject temp <id>` — set the temperature subject ID (6144–7167)
#[derive(Clone, Copy, Debug, PartialEq, Eq, Structural)]
pub struct SubjectCommand;

/// What the subject command comes down to.
#[derive(Debug)]
pub enum SubjectStep {
    /// Show the settings.
    Show,
    /// Too few arguments.
    Usage,
    /// This is no 16-bit number.
    InvalidId(String),
    /// This is no vendor-specific subject ID.
    OutOfRange(u16),
    /// This is no subject that can be set.
    UnknownKind(String),
    /// The ID was set; store it under this key.
    Changed { key: ShoulderSettings, id: u16 },
}

/// Whether `step` is what the arguments behind the command's name come down to.
pub open spec fn subject_step(args: Seq<Seq<char>>, step: SubjectStep) -> bool {
    if args.len() == 0 {
        step == SubjectStep::Show
    } else if args.len() < 2 {
        step == SubjectStep::Usage
    } else {
        match parsed_decimal(args[1], 0xffff) {
            None => step matches SubjectStep::InvalidId(text) && text@ == args[1],
            Some(id) => if !(SUBJECT_ID_MIN <= id <= SUBJECT_ID_MAX) {
                step == SubjectStep::OutOfRange(id as u16)
            } else if args[0] == "angle"@ {
                step == (SubjectStep::Changed { key: ShoulderSettings::AngleSubjectId, id: id as u16 })
            } else if args[0] == "temp"@ {
                step == (SubjectStep::Changed { key: ShoulderSettings::TempSubjectId, id: id as u16 })
            } else {
                step matches SubjectStep::UnknownKind(kind) && kind@ == args[0]
            },
        }
    }
}

/// The arguments behind the name of the command.
pub open spec fn behind_name(args: Seq<Seq<char>>) -> Seq<Seq<char>> {
    if args.len() == 0 { args } else { args.skip(1) }
}

/// The shared data after a step: a subject ID that was changed, and nothing else.
pub open spec fn data_after(data: ShoulderData, step: SubjectStep) -> ShoulderData {
    match step {
        SubjectStep::Changed { key: ShoulderSettings::AngleSubjectId, id } => ShoulderData {
            angle_subject_id: id,
            ..data
        },
        SubjectStep::Changed { key: ShoulderSettings::TempSubjectId, id } => ShoulderData {
            temp_subject_id: id,
            ..data
        },
        _ => data,
    }
}

impl SubjectCommand {
    /// Decides what to do about the arguments, which begin with the name of the command, and sets
    /// the subject ID where they ask for it.
    pub fn execute(&self, args: &[String], data: &mut ShoulderData) -> (step: SubjectStep)
        ensures
            subject_step(behind_name(views(args@)), step),
            *final(data) == data_after(*old(data), step),
    {
        let ghost given = behind_name(views(args@));
        if args.len() <= 1 {
            return SubjectStep::Show;
        }
        if args.len() < 3 {
            return SubjectStep::Usage;
        }
        proof {
            assert(given[0] == args@[1]@);
            assert(given[1] == args@[2]@);
            lemma_decimal_nonneg(given[1], 0xffff);
        }
        let id: u16 = match parse_decimal(args[2].as_str(), 0xffff) {
            Some(v) => v as u16,
            None => return SubjectStep::InvalidId(args[2].clone()),
        };
        if !is_valid_subject_id(id) {
            return SubjectStep::OutOfRange(id);
        }
        if str_eq(args[1].as_str(), "angle") {
            data.angle_subject_id = id;
            SubjectStep::Changed { key: ShoulderSettings::AngleSubjectId, id }
        } else if str_eq(args[1].as_str(), "temp") {
            data.temp_subject_id = id;
            SubjectStep::Changed { key: ShoulderSettings::TempSubjectId, id }
        } else {
            SubjectStep::UnknownKind(args[1].clone())
        }
    }
}

/// The name of a subject ID in replies.
pub open spec fn key_name(key: ShoulderSettings) -> Seq<char> {
    match key {
        ShoulderSettings::AngleSubjectId => "Angle"@,
        ShoulderSettings::TempSubjectId => "Temp"@,
        ShoulderSettings::ZeroOffset => "Zero"@,
    }
}

impl SubjectStep {
    /// The reply; `stored` says whether a subject ID that was set could be stored. The settings
    /// are shown by [`ShoulderData::subject_lines`].
    pub fn message(&self, stored: bool) -> (text: Option<String>)
        ensures
            match *self {
                SubjectStep::Show => text is None,
                SubjectStep::Usage => text matches Some(t) && t@
                    == "Usage: subject [angle|temp] <id>  (valid IDs: 6144-7167)"@,
                SubjectStep::InvalidId(id) => text matches Some(t) && t@ == "Invalid subject ID: "@
                    + id@,
                SubjectStep::OutOfRange(id) => text matches Some(t) && t@ == "Subject ID "@
                    + decimal_text(id as int) + " is outside the allowed range 6144-7167"@,
                SubjectStep::UnknownKind(kind) => text matches Some(t) && t@ == "Unknown kind '"@
                    + kind@ + "'. Use 'angle' or 'temp'."@,
                SubjectStep::Changed { key, id } => text matches Some(t) && t@ == key_name(key)
                    + " subject ID set to "@ + decimal_text(id as int) + if stored {
                    Seq::empty()
                } else {
                    " (NVS write failed)"@
                },
            },
    {
        match self {
            SubjectStep::Show => None,
            SubjectStep::Usage => Some(
                "Usage: subject [angle|temp] <id>  (valid IDs: 6144-7167)".to_owned(),
            ),
            SubjectStep::InvalidId(id) => {
                let mut text = "Invalid subject ID: ".to_owned();
                text.push_str(id.as_str());
                Some(text)
            },
            SubjectStep::OutOfRange(id) => {
                let mut text = "Subject ID ".to_owned();
                text.push_str(render_decimal(*id as u64).as_str());
                text.push_str(" is outside the allowed range 6144-7167");
                Some(text)
            },
            SubjectStep::UnknownKind(kind) => {
                let mut text = "Unknown kind '".to_owned();
                text.push_str(kind.as_str());
                text.push_str("'. Use 'angle' or 'temp'.");
                Some(text)
            },
            SubjectStep::Changed { key, id } => {
                let mut text = match key {
                    ShoulderSettings::AngleSubjectId => "Angle".to_owned(),
                    ShoulderSettings::TempSubjectId => "Temp".to_owned(),
                    ShoulderSettings::ZeroOffset => "Zero".to_owned(),
                };
                text.push_str(" subject ID set to ");
                text.push_str(render_decimal(*id as u64).as_str());
                if !stored {
                    text.push_str(" (NVS write failed)");
                } else {
                    proof {
                        assert(text@ + Seq::<char>::empty() =~= text@);
                    }
                }
                Some(text)
            },
        }
    }
}

impl ShoulderData {
    /// The lines that show the subject IDs. A line with the zero offset follows them.
    pub fn subject_lines(&self) -> (lines: (String, String))
        ensures
            lines.0@ == "Angle subject ID : "@ + decimal_text(self.angle_subject_id as int),
            lines.1@ == "Temp  subject ID : "@ + decimal_text(self.temp_subject_id as int),
    {
        let mut angle = "Angle subject ID : ".to_owned();
        angle.push_str(render_decimal(self.angle_subject_id as u64).as_str());
        let mut temp = "Temp  subject ID : ".to_owned();
        temp.push_str(render_decimal(self.temp_subject_id as u64).as_str());
        (angle, temp)
    }
}

/// Whatever the arguments, the command changes at most one subject ID, and only to a valid one,
/// which is also the setting to store; the zero offset never changes; and where no argument is a
/// valid subject ID, nothing changes and nothing is stored.
pub proof fn law_subject_command_changes_one_valid_id(
    args: Seq<Seq<char>>,
    data: ShoulderData,
    step: SubjectStep,
)
    requires
        subject_step(behind_name(args), step),
    ensures
        ({
            let after = data_after(data, step);
            &&& after.zero_offset_bits == data.zero_offset_bits
            &&& after.pending_zero_persist == data.pending_zero_persist
            &&& after.angle_subject_id == data.angle_subject_id || after.temp_subject_id
                == data.temp_subject_id
            &&& match step {
                SubjectStep::Changed { key, id } => {
                    &&& SUBJECT_ID_MIN <= id <= SUBJECT_ID_MAX
                    &&& key == ShoulderSettings::AngleSubjectId || key
                        == ShoulderSettings::TempSubjectId
                    &&& key == ShoulderSettings::AngleSubjectId ==> after.angle_subject_id == id
                    &&& key == ShoulderSettings::TempSubjectId ==> after.temp_subject_id == id
                },
                _ => after == data,
            }
            &&& (forall|i: int|
                0 <= i < args.len() ==> !is_subject_id(#[trigger] args[i])) ==> after == data
                && !(step is Changed)
        }),
{
    if step is Changed {
        assert(args.skip(1)[1] == args[2]);
        assert(is_subject_id(args[2]));
    }
}

/// Whether a text is the number of a valid subject ID.
pub open spec fn is_subject_id(text: Seq<char>) -> bool {
    parsed_decimal(text, 0xffff) matches Some(id) && SUBJECT_ID_MIN <= id <= SUBJECT_ID_MAX
}

/// A subject ID that the command sets is one that publishing uses as it is.
pub proof fn law_set_subject_is_published_on(args: Seq<Seq<char>>, step: SubjectStep)
    requires
        subject_step(args, step),
    ensures
        step matches SubjectStep::Changed { key: _, id } ==> SUBJECT_ID_MIN <= id <= SUBJECT_ID_MAX
            && id % 8192 == id,
{
}

/// A deadline that lies ahead stands. One that has passed by at most a period moves by a period;
/// one that has passed by more is set a period from now.
pub proof fn law_deadline_moves_by_a_period(deadline: int, now: int, period: int)
    requires
        0 <= period,
    ensures
        now < deadline ==> next_deadline(deadline, now, period) == deadline,
        deadline <= now <= deadline + period ==> next_deadline(deadline, now, period) == deadline
            + period,
        now > deadline + period ==> next_deadline(deadline, now, period) == now + period,
{
}

/// What the subject command comes down to, for the words of its line. Without arguments the
/// settings are shown; one argument is too few; with two or more the second has to be a 16-bit
/// number from 6144 to 7167, and the first says whose it is.
pub proof fn law_subject_command(args: Seq<Seq<char>>, step: SubjectStep)
    requires
        subject_step(behind_name(args), step),
    ensures
        args.len() <= 1 <==> step is Show,
        args.len() == 2 <==> step is Usage,
        args.len() >= 3 ==> match parsed_decimal(args[2], 65535) {
            None => step matches SubjectStep::InvalidId(text) && text@ == args[2],
            Some(n) => {
                &&& n < 6144 || n > 7167 ==> step == SubjectStep::OutOfRange(n as u16)
                &&& 6144 <= n <= 7167 && args[1] == "angle"@ ==> (step matches SubjectStep::Changed {
                    key,
                    id,
                } && key is AngleSubjectId && id == n)
                &&& 6144 <= n <= 7167 && args[1] == "temp"@ && args[1] != "angle"@ ==> (step
                    matches SubjectStep::Changed { key, id } && key is TempSubjectId && id == n)
                &&& 6144 <= n <= 7167 && args[1] != "angle"@ && args[1] != "temp"@ ==> (step
                    matches SubjectStep::UnknownKind(kind) && kind@ == args[1])
            },
        },
        "angle"@ != "temp"@,
{
    reveal_strlit("angle");
    reveal_strlit("temp");
    assert("angle"@.len() == 5 && "temp"@.len() == 4);
    if args.len() >= 3 {
        lemma_decimal_nonneg(args[2], 65535);
        assert(behind_name(args)[0] == args[1]);
        assert(behind_name(args)[1] == args[2]);
    }
}

/// Only the subject ID that was changed changes.
pub proof fn law_changed_subject_is_kept(data: ShoulderData, key: ShoulderSettings, id: u16)
    ensures
        ({
            let after = data_after(data, SubjectStep::Changed { key, id });
            &&& after.angle_subject_id == if key is AngleSubjectId { id } else {
                data.angle_subject_id
            }
            &&& after.temp_subject_id == if key is TempSubjectId { id } else {
                data.temp_subject_id
            }
            &&& after.angle_bits == data.angle_bits && after.temp == data.temp
            &&& after.zero_offset_bits == data.zero_offset_bits
            &&& after.pending_zero_persist == data.pending_zero_persist
        }),
{
}

/// The names in replies.
pub proof fn law_names_in_replies(key: ShoulderSettings)
    ensures
        key_name(key) == match key {
            ShoulderSettings::AngleSubjectId => "Angle"@,
            ShoulderSettings::TempSubjectId => "Temp"@,
            ShoulderSettings::ZeroOffset => "Zero"@,
        },
{
}

/// A text is a subject ID if it is a number from 6144 to 7167.
pub proof fn law_texts_that_are_subject_ids(text: Seq<char>)
    ensures
        is_subject_id(text) <==> (parsed_decimal(text, 65535) matches Some(n) && 6144 <= n <= 7167),
{
}

} // verus!
