//! `uavcan.node.ExecuteCommand` service handler.
//!
//! Provides the standard built-in commands:
//! - `COMMAND_IDENTIFY` (65529) — triggers the identify LED callback
//! - `COMMAND_RESTART` (65535) — schedules a soft reset
//! - `COMMAND_FACTORY_RESET` (65532) — schedules a factory-reset (NVS erase + reboot)
//! - `COMMAND_BEGIN_SOFTWARE_UPDATE` (65533) — starts an OTA session
//!
//! The [`DefaultCommandHandler`] is wired into [`crate::handler::CyphalHandler`]
//! and called whenever an `ExecuteCommand` service request is received.
use vstd::prelude::*;
use vstd::string::*;
use crate::ota::{OtaSession, OtaState};
use crate::outbox::{Action, ActionModel, Outbox};
use crate::time::{shown_by_timer, Duration, TICK_HZ};
use crate::wire::{CanNodeId, ExecuteCommandRequest, ExecuteCommandResponse, FILE_PATH_MAX_LENGTH};

verus! {

/// Pending-reset state: no reset requested.
pub const RESET_NONE: u8 = 0;
/// Pending-reset state: soft reboot requested.
pub const RESET_SOFT: u8 = 1;
/// Pending-reset state: factory-reset (NVS erase + reboot) requested.
pub const RESET_FACTORY: u8 = 2;

/// How long a device identifies itself, in seconds.
pub const IDENTIFY_SECS: u64 = 5;

/// Stands for the caller's "identify" callback: where a handler has one, `COMMAND_IDENTIFY`
/// asks for it to be called with the duration for which the device should visually identify
/// itself (e.g. blink an LED).
#[derive(Clone, Copy, Debug, PartialEq, Eq, Structural)]
pub struct IdentifyCallback;

/// Handler for the four standard `uavcan.node.ExecuteCommand` commands.
///
/// # Wiring the identify callback
/// Pass `Some(IdentifyCallback)` to enable visual identification. Pass `None` to ignore the
/// command (it still responds `STATUS_SUCCESS`).
///
/// # NVS range
/// `nvs_range` is the flash address range erased during `COMMAND_FACTORY_RESET`.
/// Typically `0x480000..0x500000` for the RP2040 feather layout.
#[derive(Debug)]
pub struct DefaultCommandHandler {
    /// Whether a callback is to be invoked on `COMMAND_IDENTIFY`.
    pub identify_cb: Option<IdentifyCallback>,
    /// Flash address range erased on `COMMAND_FACTORY_RESET`.
    pub nvs_range: core::ops::Range<u32>,
}

/// Status and output for a standard command; `None` for any other.
pub open spec fn standard_reply(command: u16, parameter: Seq<u8>, busy: bool) -> Option<
    (u8, Seq<u8>),
> {
    if command == ExecuteCommandRequest::COMMAND_IDENTIFY {
        Some((ExecuteCommandResponse::STATUS_SUCCESS, "identify".spec_bytes()))
    } else if command == ExecuteCommandRequest::COMMAND_RESTART {
        Some((ExecuteCommandResponse::STATUS_SUCCESS, "restart".spec_bytes()))
    } else if command == ExecuteCommandRequest::COMMAND_FACTORY_RESET {
        Some((ExecuteCommandResponse::STATUS_SUCCESS, "factory_reset".spec_bytes()))
    } else if command == ExecuteCommandRequest::COMMAND_BEGIN_SOFTWARE_UPDATE {
        if parameter.len() == 0 || parameter.len() > FILE_PATH_MAX_LENGTH {
            Some((ExecuteCommandResponse::STATUS_BAD_PARAMETER, "bad path".spec_bytes()))
        } else if busy {
            Some((ExecuteCommandResponse::STATUS_BAD_STATE, "ota busy".spec_bytes()))
        } else {
            Some((ExecuteCommandResponse::STATUS_SUCCESS, "ota".spec_bytes()))
        }
    } else {
        None
    }
}

/// What a standard command asks the node to do.
pub open spec fn standard_actions(command: u16, identify: bool) -> Seq<ActionModel> {
    if command == ExecuteCommandRequest::COMMAND_IDENTIFY && identify {
        seq![ActionModel::Identify(IDENTIFY_SECS * TICK_HZ)]
    } else if command == ExecuteCommandRequest::COMMAND_RESTART {
        seq![ActionModel::Reset(RESET_SOFT)]
    } else if command == ExecuteCommandRequest::COMMAND_FACTORY_RESET {
        seq![ActionModel::Reset(RESET_FACTORY)]
    } else {
        Seq::empty()
    }
}

/// Whether a command starts a download.
pub open spec fn starts_download(command: u16, parameter: Seq<u8>, busy: bool) -> bool {
    &&& command == ExecuteCommandRequest::COMMAND_BEGIN_SOFTWARE_UPDATE
    &&& 1 <= parameter.len() <= FILE_PATH_MAX_LENGTH
    &&& !busy
}

/// Whether `reply` is the status and the output bytes of `model`.
pub open spec fn reply_matches(
    reply: Option<(u8, &'static [u8])>,
    model: Option<(u8, Seq<u8>)>,
) -> bool {
    match model {
        Some(m) => reply matches Some(r) && r.0 == m.0 && r.1@ == m.1,
        None => reply is None,
    }
}

impl DefaultCommandHandler {
    /// Create a new handler.
    ///
    /// - `identify_cb`: optional LED-blink callback.
    /// - `nvs_range`: flash range to erase on factory-reset.
    pub fn new(identify_cb: Option<IdentifyCallback>, nvs_range: core::ops::Range<u32>) -> (h:
        DefaultCommandHandler)
        ensures
            h.identify_cb == identify_cb,
            h.nvs_range == nvs_range,
    {
        DefaultCommandHandler { identify_cb, nvs_range }
    }

    /// Process an `ExecuteCommand` request.
    ///
    /// Returns `Some((status, output))` for standard commands that were
    /// handled, or `None` for unrecognised commands so the caller can
    /// delegate to a vendor-specific extension handler.
    ///
    /// The `ota` session is needed to start/reject `BEGIN_SOFTWARE_UPDATE`.
    pub fn handle(
        &self,
        request: &ExecuteCommandRequest,
        source_node: CanNodeId,
        ota: &mut OtaSession,
        node: &mut Outbox,
    ) -> (reply: Option<(u8, &'static [u8])>)
        requires
            old(ota).wf(),
        ensures
            final(ota).wf(),
            reply_matches(
                reply,
                standard_reply(request.command, request.parameter@, old(ota)@.active),
            ),
            final(node)@ == old(node)@ + standard_actions(
                request.command,
                self.identify_cb is Some,
            ),
            request.command == 65535 ==> final(node)@ == old(node)@.push(ActionModel::Reset(1)),
            request.command == 65532 ==> final(node)@ == old(node)@.push(ActionModel::Reset(2)),
            request.command == 65529 && self.identify_cb is Some ==> final(node)@ == old(
                node)@.push(ActionModel::Identify(5_000_000)),
            request.command != 65535 && request.command != 65532 && !(request.command == 65529
                && self.identify_cb is Some) ==> final(node)@ == old(node)@,
            final(ota)@ == if starts_download(
                request.command,
                request.parameter@,
                old(ota)@.active,
            ) {
                OtaState::armed(
                    source_node.id(),
                    request.parameter@,
                    final(ota)@.start_tick,
                )
            } else {
                old(ota)@
            },
            starts_download(request.command, request.parameter@, old(ota)@.active) ==> exists|
                ticks: u64,
            |
                #[trigger] shown_by_timer(ticks) && final(ota)@.start_tick == ticks,
    {
        proof {
            assert(old(node)@ + Seq::<ActionModel>::empty() =~= old(node)@);
            assert(forall|a: ActionModel| #[trigger]
                old(node)@.push(a) =~= old(node)@ + seq![a]);
        }
        if request.command == ExecuteCommandRequest::COMMAND_IDENTIFY {
            if self.identify_cb.is_some() {
                node.push(Action::Identify(Duration::from_secs(IDENTIFY_SECS)));
            }
            Some((ExecuteCommandResponse::STATUS_SUCCESS, "identify".as_bytes()))
        } else if request.command == ExecuteCommandRequest::COMMAND_RESTART {
            node.push(Action::Reset(RESET_SOFT));
            Some((ExecuteCommandResponse::STATUS_SUCCESS, "restart".as_bytes()))
        } else if request.command == ExecuteCommandRequest::COMMAND_FACTORY_RESET {
            node.push(Action::Reset(RESET_FACTORY));
            Some((ExecuteCommandResponse::STATUS_SUCCESS, "factory_reset".as_bytes()))
        } else if request.command == ExecuteCommandRequest::COMMAND_BEGIN_SOFTWARE_UPDATE {
            if request.parameter.len() == 0 || request.parameter.len() > FILE_PATH_MAX_LENGTH {
                Some((ExecuteCommandResponse::STATUS_BAD_PARAMETER, "bad path".as_bytes()))
            } else if ota.active {
                Some((ExecuteCommandResponse::STATUS_BAD_STATE, "ota busy".as_bytes()))
            } else if ota.start(source_node, request.parameter.as_slice()).is_err() {
                Some((ExecuteCommandResponse::STATUS_BAD_PARAMETER, "bad path".as_bytes()))
            } else {
                Some((ExecuteCommandResponse::STATUS_SUCCESS, "ota".as_bytes()))
            }
        } else {
            // Unrecognised command — let the caller try a vendor-specific handler.
            None
        }
    }
}

/// A restart asks for a soft reset and a factory reset for one that erases, and for nothing else,
/// with or without a callback.
pub proof fn law_resets_ask_for_one_reset(identify: bool)
    ensures
        standard_actions(65535, identify).len() == 1,
        standard_actions(65535, identify)[0] == ActionModel::Reset(1),
        standard_actions(65532, identify).len() == 1,
        standard_actions(65532, identify)[0] == ActionModel::Reset(2),
{
}

/// Only the identify command asks for identification, for five seconds and where there is a
/// callback; the actions of every other command do not depend on the callback; and apart from the
/// two resets no other command asks for anything.
pub proof fn law_only_identify_uses_the_callback(command: u16, identify: bool, i: int)
    ensures
        command != 65529 ==> standard_actions(command, identify) == standard_actions(
            command,
            !identify,
        ),
        0 <= i < standard_actions(command, identify).len() && standard_actions(
            command,
            identify,
        )[i] is Identify ==> command == 65529 && identify,
        standard_actions(65529, true) =~= seq![ActionModel::Identify(5_000_000)],
        standard_actions(65529, false).len() == 0,
        command != 65529 && command != 65535 && command != 65532 ==> standard_actions(
            command,
            identify,
        ).len() == 0,
{
}

/// What each command is answered: the resets and identification always with success, an update
/// with success exactly when it has a path of 1 to 255 bytes and no download is under way, a bad
/// path as a bad parameter even then, and a busy node as a bad state. No other command is known.
pub proof fn law_commands_are_answered(command: u16, parameter: Seq<u8>, busy: bool)
    ensures
        standard_reply(65529, parameter, busy) == Some((0u8, "identify".spec_bytes())),
        standard_reply(65535, parameter, busy) == Some((0u8, "restart".spec_bytes())),
        standard_reply(65532, parameter, busy) == Some((0u8, "factory_reset".spec_bytes())),
        parameter.len() == 0 || parameter.len() > 255 ==> standard_reply(65533, parameter, busy)
            == Some((4u8, "bad path".spec_bytes())),
        1 <= parameter.len() <= 255 && busy ==> standard_reply(65533, parameter, busy) == Some(
            (5u8, "ota busy".spec_bytes()),
        ),
        1 <= parameter.len() <= 255 && !busy ==> standard_reply(65533, parameter, busy) == Some(
            (0u8, "ota".spec_bytes()),
        ),
        command != 65529 && command != 65535 && command != 65532 && command != 65533
            ==> standard_reply(command, parameter, busy) is None,
{
}

/// A download starts exactly when an update is answered with success.
pub proof fn law_download_starts_on_success(command: u16, parameter: Seq<u8>, busy: bool)
    ensures
        starts_download(command, parameter, busy) <==> command == 65533 && (standard_reply(
            command,
            parameter,
            busy,
        ) matches Some(r) && r.0 == 0),
        starts_download(command, parameter, busy) <==> command == 65533 && !busy && 1
            <= parameter.len() <= 255,
{
}

/// A reply matches a status and an output exactly when it has both of them.
pub proof fn law_reply_is_status_and_output(
    reply: Option<(u8, &'static [u8])>,
    model: Option<(u8, Seq<u8>)>,
)
    ensures
        reply_matches(reply, model) ==> match (reply, model) {
            (Some((status, output)), Some((s, o))) => status == s && output@ == o,
            (None, None) => true,
            _ => false,
        },
{
}

} // verus!
