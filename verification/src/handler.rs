//! Main Cyphal transfer handler that wires together OTA, ExecuteCommand, and
//! application-specific extensions.
//!
//! [`CyphalHandler`] provides:
//!
//! - **Messages**: forwarded entirely to the `E` extension handler.
//! - **Requests**: `uavcan.node.ExecuteCommand` is handled by
//!   [`DefaultCommandHandler`]; other service requests are forwarded to `E`.
//! - **Responses**: `uavcan.file.Read` responses are captured for OTA;
//!   other responses are forwarded to `E`.
//!
//! # Extending the node
//! Create an application-specific handler that implements [`NodeExtension`] and pass it as the
//! `E` type parameter. It will receive all transfers not consumed by the library's built-in
//! handling.
//!
//! Use [`NoopHandler`] when no extension is needed.
use vstd::prelude::*;
use vstd::string::*;
use crate::byte_buf::ByteBuf;
use crate::execute_command::{
    standard_actions, standard_reply, starts_download, DefaultCommandHandler,
};
use crate::ota::{OtaSession, OtaState, READ_RESPONSE_PAYLOAD_MAX};
use crate::outbox::{Action, ActionModel, Outbox};
use crate::text::lemma_ascii_len;
use crate::time::{shown_by_timer, Duration};
use crate::wire::{
    byte_at, bytes_at, decode_execute_command, encode_execute_command_response, encoded_response,
    le16_at, ExecuteCommandRequest, ExecuteCommandResponse, MessageTransfer, ServiceTransfer,
    EXECUTE_COMMAND_SERVICE, FILE_READ_SERVICE,
};

verus! {

/// Longest output of an `ExecuteCommand` response.
pub const RESPONSE_OUTPUT_MAX: usize = 46;

/// Milliseconds between main-loop iterations that suit an extension without a rate of its own.
pub const DEFAULT_LOOP_PERIOD_MS: u64 = 20;

/// A message subject to receive.
#[derive(Clone, Copy, Debug, PartialEq, Eq, Structural)]
pub struct Subscription {
    pub subject: u16,
    pub payload_max: usize,
    pub timeout_ms: u32,
}

/// A message subject to publish on.
#[derive(Clone, Copy, Debug, PartialEq, Eq, Structural)]
pub struct Publisher {
    pub subject: u16,
    pub timeout_ms: u32,
}

/// Application-specific Cyphal extension: handlers for the transfers that the library does not
/// consume, and lifecycle hooks that the node task calls.
pub trait NodeExtension: Sized {
    /// Handles a message. Returns whether it was handled.
    fn handle_message(&mut self, node: &mut Outbox, transfer: &MessageTransfer) -> (handled: bool)
        default_ensures
            !handled,
            *final(self) == *old(self),
            *final(node) == *old(node),
    {
        false
    }

    /// Handles a service request. Returns whether it was handled.
    fn handle_request(&mut self, node: &mut Outbox, transfer: &ServiceTransfer) -> (handled: bool)
        default_ensures
            !handled,
            *final(self) == *old(self),
            *final(node) == *old(node),
    {
        false
    }

    /// Handles a service response. Returns whether it was handled.
    fn handle_response(&mut self, node: &mut Outbox, transfer: &ServiceTransfer) -> (handled: bool)
        default_ensures
            !handled,
            *final(self) == *old(self),
            *final(node) == *old(node),
    {
        false
    }

    /// The message subjects this extension handles, to be subscribed to once after the node
    /// has been given its ID.
    fn register_subscriptions(&self) -> (subscriptions: Vec<Subscription>);

    /// The message subjects this extension wants to publish, to be registered once, immediately
    /// after [`NodeExtension::register_subscriptions`].
    fn register_publishers(&self) -> (publishers: Vec<Publisher>)
        default_ensures
            publishers@.len() == 0,
    {
        Vec::new()
    }

    /// Called on every iteration of the node's main loop, with the current tick.
    ///
    /// Implementations should track their own rate deadlines and publish when a deadline has
    /// elapsed. Rate control is entirely the extension's responsibility; the library merely
    /// guarantees that `on_tick` is called at least as frequently as
    /// [`NodeExtension::preferred_loop_period`].
    fn on_tick(&mut self, node: &mut Outbox, now_ticks: u64)
        default_ensures
            *final(self) == *old(self),
            *final(node) == *old(node),
    {
    }

    /// Handle a vendor-specific `ExecuteCommand` request.
    ///
    /// Called when an `ExecuteCommand` arrives with a command code that the
    /// built-in [`DefaultCommandHandler`] did not recognise (i.e. vendor-specific commands in
    /// the `0x0000–0x7FFF` range).
    ///
    /// Return `Some((status, output))` to send a custom response, or `None`
    /// to let the library respond with `STATUS_BAD_COMMAND`.
    fn handle_execute_command(&mut self, request: &ExecuteCommandRequest) -> (reply: Option<
        (u8, &'static [u8]),
    >)
        default_ensures
            reply is None,
            *final(self) == *old(self),
    {
        None
    }

    /// The preferred maximum period between main-loop iterations, used to
    /// control the CAN interrupt-wait timeout.
    ///
    /// Override this to request a faster loop rate when the extension
    /// publishes time-sensitive messages. The default is 20 ms (50 Hz).
    fn preferred_loop_period(&self) -> (period: Duration)
        default_ensures
            period.ticks == DEFAULT_LOOP_PERIOD_MS * 1000,
            period.ticks == 20_000,
    {
        Duration::from_millis(DEFAULT_LOOP_PERIOD_MS)
    }
}

/// A no-op [`NodeExtension`] for use when no extension is needed.
#[derive(Clone, Copy, Debug, PartialEq, Eq, Structural)]
pub struct NoopHandler;

impl NodeExtension for NoopHandler {
    fn register_subscriptions(&self) -> (subscriptions: Vec<Subscription>)
        ensures
            subscriptions@.len() == 0,
    {
        Vec::new()
    }
}

/// Whether every registration of an extension succeeded. Without registrations it did.
pub fn registration_succeeded(results: &[bool]) -> (ok: bool)
    ensures
        ok == forall|i: int| 0 <= i < results@.len() ==> results@[i],
{
    let mut i: usize = 0;
    while i < results.len()
        invariant
            i <= results@.len(),
            forall|j: int| 0 <= j < i ==> results@[j],
        decreases results@.len() - i,
    {
        if !results[i] {
            return false;
        }
        i += 1;
    }
    true
}

/// The output that fits a response: all of it, or nothing where it is too long.
pub open spec fn fitted_output(output: Seq<u8>) -> Seq<u8> {
    if output.len() <= RESPONSE_OUTPUT_MAX {
        output
    } else {
        Seq::empty()
    }
}

/// The response to a command, given what the handlers replied to it: a command that none of
/// them knows is answered with `STATUS_BAD_COMMAND`.
pub open spec fn command_response(reply: Option<(u8, Seq<u8>)>) -> Seq<u8> {
    match reply {
        Some(r) => encoded_response(r.0, fitted_output(r.1)),
        None => encoded_response(
            ExecuteCommandResponse::STATUS_BAD_COMMAND,
            fitted_output("unsupported".spec_bytes()),
        ),
    }
}

pub open spec fn reply_model(reply: Option<(u8, &'static [u8])>) -> Option<(u8, Seq<u8>)> {
    match reply {
        Some(r) => Some((r.0, r.1@)),
        None => None,
    }
}

/// The serialised response for what the handlers replied.
pub fn build_command_response(reply: Option<(u8, &'static [u8])>) -> (payload: Vec<u8>)
    ensures
        payload@ == command_response(reply_model(reply)),
{
    let (status, output): (u8, &'static [u8]) = match reply {
        Some(r) => r,
        None => (ExecuteCommandResponse::STATUS_BAD_COMMAND, "unsupported".as_bytes()),
    };
    let mut response_output = ByteBuf::new::<RESPONSE_OUTPUT_MAX>();
    let appended = response_output.extend_from_slice(output);
    proof {
        assert(response_output@ =~= fitted_output(output@));
    }
    encode_execute_command_response(status, response_output.as_slice())
}

/// The command code of an `ExecuteCommand` request.
pub open spec fn request_command(payload: Seq<u8>) -> u16 {
    le16_at(payload, 0) as u16
}

/// The parameter of an `ExecuteCommand` request.
pub open spec fn request_parameter(payload: Seq<u8>) -> Seq<u8> {
    bytes_at(payload, 3, byte_at(payload, 2))
}

/// Combined Cyphal transfer handler.
///
/// # Type parameters
/// - `E`: application-specific extension handler (use [`NoopHandler`] if not needed)
pub struct CyphalHandler<E: NodeExtension> {
    /// OTA firmware download session state.
    pub ota: OtaSession,
    /// Handler for the standard `ExecuteCommand` service.
    pub command_handler: DefaultCommandHandler,
    /// Application-specific extension that receives unhandled transfers.
    pub extension: E,
}

impl<E: NodeExtension> CyphalHandler<E> {
    /// Create a new `CyphalHandler`.
    pub fn new(command_handler: DefaultCommandHandler, extension: E) -> (h: CyphalHandler<E>)
        ensures
            h.ota.wf(),
            h.ota@ == OtaState::cleared(),
            h.command_handler == command_handler,
            h.extension == extension,
    {
        CyphalHandler { ota: OtaSession::new(), command_handler, extension }
    }

    /// Return `true` if an OTA session is currently active.
    pub fn is_ota_active(&self) -> (active: bool)
        ensures
            active == self.ota@.active,
    {
        self.ota.active
    }

    /// Forward all message transfers to the extension handler.
    pub fn handle_message(&mut self, node: &mut Outbox, transfer: &MessageTransfer) -> (handled:
        bool)
        ensures
            final(self).ota == old(self).ota,
            final(self).command_handler == old(self).command_handler,
            exists|e: &mut E, n: &mut Outbox|
                #![trigger call_ensures(E::handle_message, (e, n, transfer), handled)]
                *e == old(self).extension && *final(e) == final(self).extension && *n == *old(node)
                    && *final(n) == *final(node) && call_ensures(
                    E::handle_message,
                    (e, n, transfer),
                    handled,
                ),
    {
        self.extension.handle_message(node, transfer)
    }

    /// Handle `ExecuteCommand` service requests; forward others to the extension.
    pub fn handle_request(&mut self, node: &mut Outbox, transfer: &ServiceTransfer) -> (handled:
        bool)
        requires
            old(self).ota.wf(),
        ensures
            final(self).ota.wf(),
            final(self).command_handler == old(self).command_handler,
            transfer.service != EXECUTE_COMMAND_SERVICE ==> {
                &&& final(self).ota == old(self).ota
                &&& exists|e: &mut E, n: &mut Outbox|
                    #![trigger call_ensures(E::handle_request, (e, n, transfer), handled)]
                    *e == old(self).extension && *final(e) == final(self).extension && *n == *old(node) && *final(n) == *final(node) && call_ensures(
                        E::handle_request,
                        (e, n, transfer),
                        handled,
                    )
            },
            transfer.service == 435 ==> handled,
            transfer.service == EXECUTE_COMMAND_SERVICE ==> {
                let command = request_command(transfer.payload@);
                let parameter = request_parameter(transfer.payload@);
                let standard = standard_reply(command, parameter, old(self).ota@.active);
                let asked = old(node)@ + standard_actions(
                    command,
                    old(self).command_handler.identify_cb is Some,
                );
                &&& handled
                &&& final(self).ota@ == if starts_download(
                    command,
                    parameter,
                    old(self).ota@.active,
                ) {
                    OtaState::armed(
                        transfer.source.id(),
                        parameter,
                        final(self).ota@.start_tick,
                    )
                } else {
                    old(self).ota@
                }
                &&& starts_download(command, parameter, old(self).ota@.active) ==> exists|
                    ticks: u64,
                |
                    #[trigger] shown_by_timer(ticks) && final(self).ota@.start_tick == ticks
                &&& standard is Some ==> final(self).extension == old(self).extension && final(node)@ == asked.push(ActionModel::Respond { payload: command_response(standard) })
                &&& standard is None ==> exists|
                    e: &mut E,
                    request: ExecuteCommandRequest,
                    reply: Option<(u8, &'static [u8])>,
                |
                    #![trigger call_ensures(E::handle_execute_command, (e, &request), reply)]
                    *e == old(self).extension && *final(e) == final(self).extension
                        && request.command == command && request.parameter@ == parameter
                        && call_ensures(E::handle_execute_command, (e, &request), reply) && final(node)@ == asked.push(
                        ActionModel::Respond { payload: command_response(reply_model(reply)) },
                    )
            },
    {
        if transfer.service != EXECUTE_COMMAND_SERVICE {
            return self.extension.handle_request(node, transfer);
        }
        let reply: Option<(u8, &'static [u8])> = match decode_execute_command(
            transfer.payload.as_slice(),
        ) {
            Ok(request) => {
                // Try the standard built-in commands first.
                match self.command_handler.handle(&request, transfer.source, &mut self.ota, node) {
                    Some(r) => Some(r),
                    // Unknown command — delegate to vendor-specific extension.
                    None => self.extension.handle_execute_command(&request),
                }
            },
            Err(_) => Some(
                (ExecuteCommandResponse::STATUS_BAD_PARAMETER, "invalid request".as_bytes()),
            ),
        };
        node.push(Action::Respond { payload: build_command_response(reply) });
        true
    }

    /// Capture `file.Read` responses for OTA; forward others to the extension.
    pub fn handle_response(&mut self, node: &mut Outbox, transfer: &ServiceTransfer) -> (handled:
        bool)
        requires
            old(self).ota.wf(),
        ensures
            final(self).ota.wf(),
            final(self).command_handler == old(self).command_handler,
            transfer.service != FILE_READ_SERVICE ==> {
                &&& final(self).ota == old(self).ota
                &&& exists|e: &mut E, n: &mut Outbox|
                    #![trigger call_ensures(E::handle_response, (e, n, transfer), handled)]
                    *e == old(self).extension && *final(e) == final(self).extension && *n == *old(node) && *final(n) == *final(node) && call_ensures(
                        E::handle_response,
                        (e, n, transfer),
                        handled,
                    )
            },
            transfer.service == 408 ==> *final(node) == *old(node) && handled == (old(
                self).ota@.active && old(self).ota@.waiting_response && transfer.source.id() == old(
                self).ota@.server_node),
            transfer.service == FILE_READ_SERVICE ==> {
                &&& *final(node) == *old(node)
                &&& final(self).extension == old(self).extension
                &&& handled == (old(self).ota@.active && old(self).ota@.waiting_response
                    && transfer.source.id() == old(self).ota@.server_node)
                &&& final(self).ota@ == if handled && transfer.payload@.len()
                    <= READ_RESPONSE_PAYLOAD_MAX {
                    OtaState { pending: Some(transfer.payload@), ..old(self).ota@ }
                } else {
                    old(self).ota@
                }
            },
    {
        if transfer.service != FILE_READ_SERVICE {
            return self.extension.handle_response(node, transfer);
        }
        self.ota.take_response(transfer.source, transfer.payload.as_slice())
    }

    /// The subscriptions of the extension.
    pub fn register_subscriptions(&self) -> (subscriptions: Vec<Subscription>)
        ensures
            call_ensures(E::register_subscriptions, (&self.extension,), subscriptions),
    {
        self.extension.register_subscriptions()
    }

    /// The publishers of the extension.
    pub fn register_publishers(&self) -> (publishers: Vec<Publisher>)
        ensures
            call_ensures(E::register_publishers, (&self.extension,), publishers),
    {
        self.extension.register_publishers()
    }

    /// Lets the extension do its periodic work.
    pub fn on_tick(&mut self, node: &mut Outbox, now_ticks: u64)
        ensures
            final(self).ota == old(self).ota,
            final(self).command_handler == old(self).command_handler,
            exists|e: &mut E, n: &mut Outbox|
                #![trigger call_ensures(E::on_tick, (e, n, now_ticks), ())]
                *e == old(self).extension && *final(e) == final(self).extension && *n == *old(node)
                    && *final(n) == *final(node) && call_ensures(E::on_tick, (e, n, now_ticks), ()),
    {
        self.extension.on_tick(node, now_ticks)
    }

    /// Hands a command to the extension.
    pub fn handle_execute_command(&mut self, request: &ExecuteCommandRequest) -> (reply: Option<
        (u8, &'static [u8]),
    >)
        ensures
            final(self).ota == old(self).ota,
            final(self).command_handler == old(self).command_handler,
            exists|e: &mut E|
                #![trigger call_ensures(E::handle_execute_command, (e, request), reply)]
                *e == old(self).extension && *final(e) == final(self).extension && call_ensures(
                    E::handle_execute_command,
                    (e, request),
                    reply,
                ),
    {
        self.extension.handle_execute_command(request)
    }

    /// The loop period that the extension prefers.
    pub fn preferred_loop_period(&self) -> (period: Duration)
        ensures
            call_ensures(E::preferred_loop_period, (&self.extension,), period),
    {
        self.extension.preferred_loop_period()
    }
}

/// Vendor-specific commands, 0 to 32767, are none of the library's own: they change nothing in
/// it and are left to the extension.
pub proof fn law_vendor_commands_are_left_to_the_extension(
    command: u16,
    parameter: Seq<u8>,
    busy: bool,
    identify: bool,
)
    requires
        command <= 0x7fff,
    ensures
        standard_reply(command, parameter, busy) is None,
        standard_actions(command, identify) == Seq::<ActionModel>::empty(),
        !starts_download(command, parameter, busy),
{
}

/// A command that neither the library nor the extension knows is answered with
/// `STATUS_BAD_COMMAND` and the output "unsupported".
pub proof fn law_unknown_command_is_refused()
    ensures
        command_response(None) == seq![ExecuteCommandResponse::STATUS_BAD_COMMAND, 11u8]
            + "unsupported".spec_bytes(),
{
    reveal_strlit("unsupported");
    lemma_ascii_len("unsupported");
}

/// Every standard command is answered in full: its output is never cut from the response.
pub proof fn law_standard_output_fits_the_response(command: u16, parameter: Seq<u8>, busy: bool)
    ensures
        standard_reply(command, parameter, busy) matches Some(r) ==> command_response(Some(r))
            == encoded_response(r.0, r.1),
{
    reveal_strlit("identify");
    reveal_strlit("restart");
    reveal_strlit("factory_reset");
    reveal_strlit("bad path");
    reveal_strlit("ota busy");
    reveal_strlit("ota");
    lemma_ascii_len("identify");
    lemma_ascii_len("restart");
    lemma_ascii_len("factory_reset");
    lemma_ascii_len("bad path");
    lemma_ascii_len("ota busy");
    lemma_ascii_len("ota");
}

/// The serialised form of an `ExecuteCommand` request.
pub open spec fn encoded_request(command: u16, parameter: Seq<u8>) -> Seq<u8> {
    seq![(command % 256) as u8, (command / 256) as u8, parameter.len() as u8] + parameter
}

/// A request is understood as it was meant: command and parameter are read back.
pub proof fn law_request_is_understood(command: u16, parameter: Seq<u8>)
    requires
        parameter.len() <= 255,
    ensures
        request_command(encoded_request(command, parameter)) == command,
        request_parameter(encoded_request(command, parameter)) == parameter,
{
    let payload = encoded_request(command, parameter);
    assert(request_parameter(payload) =~= parameter);
}

/// A response carries the status and the output of the reply: all of an output of at most 46
/// bytes, and none of a longer one.
pub proof fn law_response_carries_the_reply(status: u8, output: Seq<u8>)
    ensures
        command_response(Some((status, output)))[0] == status,
        output.len() <= 46 ==> command_response(Some((status, output))) == seq![
            status,
            output.len() as u8,
        ] + output,
        output.len() > 46 ==> command_response(Some((status, output))) == seq![status, 0u8],
{
    assert(seq![status, 0u8] + Seq::<u8>::empty() =~= seq![status, 0u8]);
}

/// What an extension replies is what is answered: nothing of it is changed on the way.
pub proof fn law_reply_is_taken_over(status: u8, output: &'static [u8])
    ensures
        reply_model(Some((status, output))) == Some((status, output@)),
        reply_model(None) is None,
{
}

/// The command of a request is its first two bytes, the parameter as many bytes behind the third
/// one as that says; what is missing reads as zeros.
pub proof fn law_request_fields(payload: Seq<u8>)
    requires
        payload.len() >= 3,
    ensures
        request_command(payload) == payload[0] + 256 * payload[1],
        request_parameter(payload).len() == payload[2],
        forall|i: int|
            0 <= i < payload[2] ==> #[trigger] request_parameter(payload)[i] == if 3 + i
                < payload.len() {
                payload[3 + i]
            } else {
                0u8
            },
{
}

/// A request that breaks off reads as if zeros followed.
pub proof fn law_short_request_fields(payload: Seq<u8>)
    requires
        payload.len() < 3,
    ensures
        payload.len() == 0 ==> request_command(payload) == 0,
        payload.len() == 1 ==> request_command(payload) == payload[0],
        payload.len() == 2 ==> request_command(payload) == payload[0] + 256 * payload[1],
        request_parameter(payload).len() == 0,
{
}

} // verus!
