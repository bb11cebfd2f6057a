//! The command that shows and changes the CAN settings.
use vstd::prelude::*;
use vstd::string::*;
use crate::can::{is_addressable, ConfigurationEvent};
use crate::can_consumer::address;
use crate::text::{
    decimal_text, lemma_decimal_nonneg, lowercase, parse_decimal, parsed_decimal, render_decimal,
    trimmed, views,
};
use crate::util::{setting_named, ParseSettingsError, Settings};

verus! {

/// Node IDs are below this. Five bits of a 29-bit identifier hold the command, which leaves 24
/// for the node ID.
pub const CAN_ID_LIMIT: u32 = 0xff_ffff;

/// What the command comes down to.
#[derive(Clone, Copy, Debug, PartialEq, Eq, Structural)]
pub enum CanCommandStep {
    /// Too few arguments.
    Usage,
    /// The first argument names no setting.
    InvalidType,
    /// Fetch the setting and show it.
    Read(Settings),
    /// Store the value of the setting, then publish the event whether that worked or not.
    Store { setting: Settings, value: u32, event: ConfigurationEvent },
    /// Publish the event.
    Publish(ConfigurationEvent),
    /// The value is no node ID.
    InvalidCanId,
    /// The value is no rate.
    InvalidInterval,
}

/// Shows and changes the CAN settings: `can [id|interval] ...`.
#[derive(Clone, Copy, Debug, PartialEq, Eq, Structural)]
pub struct CanCommand;

/// What the command comes down to, given the setting that is named and the value, if there is
/// one.
pub open spec fn can_command_step(
    setting: Result<Settings, ParseSettingsError>,
    value: Option<Seq<char>>,
) -> CanCommandStep {
    match (setting, value) {
        (Err(_), _) => CanCommandStep::InvalidType,
        (Ok(s), None) => CanCommandStep::Read(s),
        (Ok(Settings::CanId), Some(v)) => match parsed_decimal(v, CAN_ID_LIMIT - 1) {
            Some(id) => CanCommandStep::Store {
                setting: Settings::CanId,
                value: id as u32,
                event: ConfigurationEvent::NodeIdUpdate { node_id: id as u32 },
            },
            None => CanCommandStep::InvalidCanId,
        },
        (Ok(Settings::CanReportInterval), Some(v)) => match parsed_decimal(v, u64::MAX as int) {
            Some(hz) => CanCommandStep::Publish(
                ConfigurationEvent::IntervalUpdate { hz: hz as u64 },
            ),
            None => CanCommandStep::InvalidInterval,
        },
    }
}

pub open spec fn text_of(value: Option<&str>) -> Option<Seq<char>> {
    match value {
        Some(v) => Some(v@),
        None => None,
    }
}

impl CanCommand {
    /// Decides what to do about a setting and a value.
    pub fn step(
        &self,
        setting: Result<Settings, ParseSettingsError>,
        value: Option<&str>,
    ) -> (step: CanCommandStep)
        ensures
            step == can_command_step(setting, text_of(value)),
    {
        let setting = match setting {
            Ok(setting) => setting,
            Err(_) => return CanCommandStep::InvalidType,
        };
        let value: &str = match value {
            Some(value) => value,
            None => return CanCommandStep::Read(setting),
        };
        match setting {
            Settings::CanId => match parse_decimal(value, (CAN_ID_LIMIT - 1) as u64) {
                Some(id) => CanCommandStep::Store {
                    setting,
                    value: id as u32,
                    event: ConfigurationEvent::NodeIdUpdate { node_id: id as u32 },
                },
                None => CanCommandStep::InvalidCanId,
            },
            Settings::CanReportInterval => match parse_decimal(value, u64::MAX) {
                Some(hz) => CanCommandStep::Publish(ConfigurationEvent::IntervalUpdate { hz }),
                None => CanCommandStep::InvalidInterval,
            },
        }
    }

    /// Decides what to do about the arguments, which begin with the name of the command.
    pub fn execute(&self, args: &[String]) -> (step: CanCommandStep)
        ensures
            step == if args@.len() < 2 {
                CanCommandStep::Usage
            } else {
                can_command_step(
                    setting_named(trimmed(lowercase(args@[1]@))),
                    if args@.len() == 2 { None } else { Some(args@[2]@) },
                )
            },
    {
        if args.len() < 2 {
            return CanCommandStep::Usage;
        }
        let setting = Settings::from_str(args[1].as_str());
        let value: Option<&str> = if args.len() == 2 {
            None
        } else {
            Some(args[2].as_str())
        };
        self.step(setting, value)
    }
}

/// How a setting is shown.
pub open spec fn setting_text(s: Settings) -> Seq<char> {
    match s {
        Settings::CanId => "setting: Ok(CanId)"@,
        Settings::CanReportInterval => "setting: Ok(CanReportInterval)"@,
    }
}

impl Settings {
    /// The line that names a setting that was understood.
    pub fn describe(&self) -> (text: String)
        ensures
            text@ == setting_text(*self),
    {
        match *self {
            Settings::CanId => "setting: Ok(CanId)".to_owned(),
            Settings::CanReportInterval => "setting: Ok(CanReportInterval)".to_owned(),
        }
    }
}

/// The line that shows the stored value of a setting.
pub fn stored_value_text(value: Option<u32>) -> (text: String)
    ensures
        text@ == match value {
            Some(v) => "val = Some("@ + decimal_text(v as int) + ")"@,
            None => "val = None"@,
        },
{
    match value {
        Some(v) => {
            let mut text = "val = Some(".to_owned();
            text.push_str(render_decimal(v as u64).as_str());
            text.push_str(")");
            text
        },
        None => "val = None".to_owned(),
    }
}

/// The lines that are written for a step before anything else is done: once the setting was
/// understood, the first one names it.
pub open spec fn step_lines(step: CanCommandStep) -> Seq<Seq<char>> {
    match step {
        CanCommandStep::Usage => seq!["Usage: can [id|interval] ..."@],
        CanCommandStep::InvalidType => seq!["Invalid type id"@],
        CanCommandStep::Read(setting) => seq![setting_text(setting)],
        CanCommandStep::Store { setting, .. } => seq![setting_text(setting)],
        CanCommandStep::Publish(_) => seq![setting_text(Settings::CanReportInterval)],
        CanCommandStep::InvalidCanId => seq![setting_text(Settings::CanId), "Invalid Can ID"@],
        CanCommandStep::InvalidInterval => seq![
            setting_text(Settings::CanReportInterval),
            "Invalid Interval"@,
        ],
    }
}

impl CanCommandStep {
    /// The lines to write before the step is performed.
    pub fn lines(&self) -> (lines: Vec<String>)
        ensures
            views(lines@) == step_lines(*self),
    {
        let mut lines: Vec<String> = Vec::new();
        match *self {
            CanCommandStep::Usage => lines.push("Usage: can [id|interval] ...".to_owned()),
            CanCommandStep::InvalidType => lines.push("Invalid type id".to_owned()),
            CanCommandStep::Read(setting) => lines.push(setting.describe()),
            CanCommandStep::Store { setting, .. } => lines.push(setting.describe()),
            CanCommandStep::Publish(_) => lines.push(Settings::CanReportInterval.describe()),
            CanCommandStep::InvalidCanId => {
                lines.push(Settings::CanId.describe());
                lines.push("Invalid Can ID".to_owned());
            },
            CanCommandStep::InvalidInterval => {
                lines.push(Settings::CanReportInterval.describe());
                lines.push("Invalid Interval".to_owned());
            },
        }
        proof {
            assert(views(lines@) =~= step_lines(*self));
        }
        lines
    }
}

/// Where the command names a setting, that setting is named first, whatever becomes of its value;
/// and only then.
pub proof fn law_understood_setting_is_named_first(
    setting: Result<Settings, ParseSettingsError>,
    value: Option<Seq<char>>,
)
    ensures
        match setting {
            Ok(s) => step_lines(can_command_step(setting, value))[0] == setting_text(s),
            Err(_) => step_lines(can_command_step(setting, value)) == seq!["Invalid type id"@],
        },
{
}

/// Every node ID that the command stores has an address: the event it publishes can be acted on.
pub proof fn law_stored_id_is_addressable(
    setting: Result<Settings, ParseSettingsError>,
    value: Option<Seq<char>>,
)
    ensures
        can_command_step(setting, value) matches CanCommandStep::Store {
            setting: _,
            value: id,
            event,
        } ==> is_addressable(id) && event == (ConfigurationEvent::NodeIdUpdate { node_id: id })
            && address(id, 0) == id * 32,
{
    if let Some(v) = value {
        lemma_decimal_nonneg(v, CAN_ID_LIMIT - 1);
    }
}

/// A setting without a value is read, and one that is not known is refused, whatever the value.
pub proof fn law_setting_without_value_is_read(
    setting: Result<Settings, ParseSettingsError>,
    value: Option<Seq<char>>,
)
    ensures
        setting is Err ==> can_command_step(setting, value) == CanCommandStep::InvalidType,
        setting matches Ok(s) ==> can_command_step(setting, None) == CanCommandStep::Read(s),
{
}

/// A value for the node ID is stored and announced exactly if it is a number below 0xffffff, and
/// one for the rate is announced exactly if it is a number of 64 bits; otherwise it is refused.
pub proof fn law_values_are_taken_when_they_fit(v: Seq<char>)
    ensures
        match parsed_decimal(v, 0xff_fffe) {
            Some(n) => can_command_step(Ok(Settings::CanId), Some(v)) == (CanCommandStep::Store {
                setting: Settings::CanId,
                value: n as u32,
                event: ConfigurationEvent::NodeIdUpdate { node_id: n as u32 },
            }),
            None => can_command_step(Ok(Settings::CanId), Some(v)) == CanCommandStep::InvalidCanId,
        },
        match parsed_decimal(v, 0xffff_ffff_ffff_ffff) {
            Some(n) => can_command_step(Ok(Settings::CanReportInterval), Some(v))
                == CanCommandStep::Publish(ConfigurationEvent::IntervalUpdate { hz: n as u64 }),
            None => can_command_step(Ok(Settings::CanReportInterval), Some(v))
                == CanCommandStep::InvalidInterval,
        },
{
}

/// The lines for a step: the setting by its name where it was understood, and what was wrong.
pub proof fn law_lines_of_a_step(step: CanCommandStep)
    ensures
        ({
            let lines = step_lines(step);
            let id = "setting: Ok(CanId)"@;
            let interval = "setting: Ok(CanReportInterval)"@;
            match step {
                CanCommandStep::Usage => lines == seq!["Usage: can [id|interval] ..."@],
                CanCommandStep::InvalidType => lines == seq!["Invalid type id"@],
                CanCommandStep::Read(Settings::CanId) => lines == seq![id],
                CanCommandStep::Read(Settings::CanReportInterval) => lines == seq![interval],
                CanCommandStep::Store { setting, .. } => lines == seq![
                    if setting == Settings::CanId { id } else { interval },
                ],
                CanCommandStep::Publish(_) => lines == seq![interval],
                CanCommandStep::InvalidCanId => lines == seq![id, "Invalid Can ID"@],
                CanCommandStep::InvalidInterval => lines == seq![interval, "Invalid Interval"@],
            }
        }),
        setting_text(Settings::CanId) == "setting: Ok(CanId)"@,
        setting_text(Settings::CanReportInterval) == "setting: Ok(CanReportInterval)"@,
{
}

/// A value is its characters, and none is none.
pub proof fn law_value_is_its_characters(value: &str)
    ensures
        text_of(Some(value)) == Some(value@),
        text_of(None) is None,
{
}

} // verus!
