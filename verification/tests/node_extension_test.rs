//! Unit tests for the [`NodeExtension`] methods:
//! `on_tick`, `register_publishers`, `handle_execute_command`,
//! and `preferred_loop_period`.

use cyphal_node::execute_command::{DefaultCommandHandler, IdentifyCallback};
use cyphal_node::handler::Subscription;
use cyphal_node::ota::OtaAction;
use cyphal_node::outbox::{Action, Outbox};
use cyphal_node::time::Duration;
use cyphal_node::wire::{
    CanNodeId, ExecuteCommandRequest, ExecuteCommandResponse, MessageTransfer, ServiceTransfer,
};
use cyphal_node::{CyphalHandler, NodeExtension, NoopHandler, OtaSession};

// ---- Minimal NodeExtension impl for testing -------------------------------

struct TestExtension {
    last_command: Option<u16>,
    preferred_period: Duration,
    seen: Vec<&'static str>,
}

impl TestExtension {
    fn new() -> Self {
        Self {
            last_command: None,
            preferred_period: Duration::from_millis(5),
            seen: Vec::new(),
        }
    }
}

impl NodeExtension for TestExtension {
    fn handle_message(&mut self, _node: &mut Outbox, _transfer: &MessageTransfer) -> bool {
        self.seen.push("message");
        false
    }

    fn handle_request(&mut self, node: &mut Outbox, _transfer: &ServiceTransfer) -> bool {
        self.seen.push("request");
        node.push(Action::Respond { payload: vec![9, 9] });
        true
    }

    fn handle_response(&mut self, _node: &mut Outbox, _transfer: &ServiceTransfer) -> bool {
        self.seen.push("response");
        true
    }

    fn register_subscriptions(&self) -> Vec<Subscription> {
        Vec::new()
    }

    fn on_tick(&mut self, node: &mut Outbox, now_ticks: u64) {
        node.push(Action::Publish { subject: 7, payload: vec![now_ticks as u8] });
    }

    fn handle_execute_command(
        &mut self,
        request: &ExecuteCommandRequest,
    ) -> Option<(u8, &'static [u8])> {
        self.last_command = Some(request.command);
        if request.command == 0x0001 {
            Some((ExecuteCommandResponse::STATUS_SUCCESS, b"vendor_ok"))
        } else if request.command == 0x0003 {
            Some((ExecuteCommandResponse::STATUS_SUCCESS, &[b'x'; 47]))
        } else {
            None
        }
    }

    fn preferred_loop_period(&self) -> Duration {
        self.preferred_period
    }
}

fn handler() -> CyphalHandler<TestExtension> {
    let cmd = DefaultCommandHandler::new(None, 0x480000..0x500000);
    CyphalHandler::new(cmd, TestExtension::new())
}

fn node(id: u8) -> CanNodeId {
    CanNodeId::try_from(id).unwrap()
}

fn command(command: u16, parameter: &[u8]) -> ServiceTransfer {
    let mut payload = vec![command as u8, (command >> 8) as u8, parameter.len() as u8];
    payload.extend_from_slice(parameter);
    ServiceTransfer { service: 435, source: node(42), payload }
}

/// Path and server of the next request of the download.
fn download(handler: &mut CyphalHandler<TestExtension>) -> (Vec<u8>, CanNodeId) {
    match handler.ota.drive_step(0) {
        OtaAction::SendRequest { path, server, .. } => (path, server),
        other => panic!("{:?}", other),
    }
}

fn responses(outbox: &Outbox) -> Vec<Vec<u8>> {
    outbox
        .actions
        .iter()
        .filter_map(|a| match a {
            Action::Respond { payload } => Some(payload.clone()),
            _ => None,
        })
        .collect()
}

// ---- Tests ----------------------------------------------------------------

#[test]
fn noop_handler_default_preferred_loop_period() {
    let handler = NoopHandler;
    assert_eq!(handler.preferred_loop_period(), Duration::from_millis(20));
}

#[test]
fn noop_handler_handle_execute_command_returns_none() {
    let mut handler = NoopHandler;
    let request = ExecuteCommandRequest {
        command: 0x0001,
        parameter: Vec::new(),
    };
    assert_eq!(handler.handle_execute_command(&request), None);
}

#[test]
fn test_extension_preferred_loop_period_override() {
    let ext = TestExtension::new();
    assert_eq!(ext.preferred_loop_period(), Duration::from_millis(5));
}

#[test]
fn test_extension_handle_vendor_command_success() {
    let mut ext = TestExtension::new();
    let request = ExecuteCommandRequest {
        command: 0x0001,
        parameter: Vec::new(),
    };
    let result = ext.handle_execute_command(&request);
    assert_eq!(
        result,
        Some((ExecuteCommandResponse::STATUS_SUCCESS, b"vendor_ok" as &[u8]))
    );
    assert_eq!(ext.last_command, Some(0x0001));
}

#[test]
fn test_extension_handle_unknown_vendor_command_returns_none() {
    let mut ext = TestExtension::new();
    let request = ExecuteCommandRequest {
        command: 0x0002,
        parameter: Vec::new(),
    };
    let result = ext.handle_execute_command(&request);
    assert_eq!(result, None);
    assert_eq!(ext.last_command, Some(0x0002));
}

#[test]
fn cyphal_handler_delegates_preferred_loop_period() {
    let cmd = DefaultCommandHandler::new(None, 0x480000..0x500000);
    let handler = CyphalHandler::new(cmd, TestExtension::new());
    assert_eq!(handler.preferred_loop_period(), Duration::from_millis(5));
}

#[test]
fn cyphal_handler_noop_extension_has_20ms_period() {
    let cmd = DefaultCommandHandler::new(None, 0x480000..0x500000);
    let handler = CyphalHandler::new(cmd, NoopHandler);
    assert_eq!(handler.preferred_loop_period(), Duration::from_millis(20));
}

#[test]
fn cyphal_handler_delegates_handle_execute_command() {
    let cmd = DefaultCommandHandler::new(None, 0x480000..0x500000);
    let mut handler = CyphalHandler::new(cmd, TestExtension::new());
    let request = ExecuteCommandRequest {
        command: 0x0001,
        parameter: Vec::new(),
    };
    let result = handler.handle_execute_command(&request);
    assert_eq!(
        result,
        Some((ExecuteCommandResponse::STATUS_SUCCESS, b"vendor_ok" as &[u8]))
    );
    assert_eq!(handler.extension.last_command, Some(0x0001));
}

#[test]
fn cyphal_handler_noop_handle_execute_command_returns_none() {
    let cmd = DefaultCommandHandler::new(None, 0x480000..0x500000);
    let mut handler = CyphalHandler::new(cmd, NoopHandler);
    let request = ExecuteCommandRequest {
        command: 0x0001,
        parameter: Vec::new(),
    };
    assert_eq!(handler.handle_execute_command(&request), None);
}

// ---- Requests through the handler -----------------------------------------

#[test]
fn identify_asks_for_the_callback_and_succeeds() {
    let cmd = DefaultCommandHandler::new(Some(IdentifyCallback), 0x480000..0x500000);
    let mut handler = CyphalHandler::new(cmd, NoopHandler);
    let mut out = Outbox::new();
    assert!(handler.handle_request(&mut out, &command(65529, b"")));
    assert!(matches!(out.actions[0], Action::Identify(d) if d == Duration::from_secs(5)));
    assert_eq!(responses(&out), vec![b"\x00\x08identify".to_vec()]);
}

#[test]
fn identify_without_callback_still_succeeds() {
    let mut handler = handler();
    let mut out = Outbox::new();
    assert!(handler.handle_request(&mut out, &command(65529, b"")));
    assert_eq!(out.actions.len(), 1);
    assert_eq!(responses(&out), vec![b"\x00\x08identify".to_vec()]);
}

#[test]
fn restart_and_factory_reset_ask_for_resets() {
    let mut handler = handler();
    let mut out = Outbox::new();
    assert!(handler.handle_request(&mut out, &command(65535, b"")));
    assert!(handler.handle_request(&mut out, &command(65532, b"")));
    assert!(matches!(out.actions[0], Action::Reset(1)));
    assert!(matches!(out.actions[2], Action::Reset(2)));
    assert_eq!(
        responses(&out),
        vec![b"\x00\x07restart".to_vec(), b"\x00\x0dfactory_reset".to_vec()]
    );
}

#[test]
fn begin_software_update_starts_one_download() {
    let mut handler = handler();
    let mut out = Outbox::new();
    assert!(handler.handle_request(&mut out, &command(65533, b"")));
    assert!(!handler.is_ota_active());
    assert!(handler.handle_request(&mut out, &command(65533, b"/fw/app.bin")));
    assert!(handler.is_ota_active());
    assert_eq!(download(&mut handler), (b"/fw/app.bin".to_vec(), node(42)));
    assert!(handler.handle_request(&mut out, &command(65533, b"/fw/other.bin")));
    assert_eq!(download(&mut handler), (b"/fw/app.bin".to_vec(), node(42)));
    assert_eq!(
        responses(&out),
        vec![
            b"\x04\x08bad path".to_vec(),
            b"\x00\x03ota".to_vec(),
            b"\x05\x08ota busy".to_vec(),
        ]
    );
}

#[test]
fn unknown_commands_are_refused() {
    for code in [0x1234u16, 0x0000] {
        let cmd = DefaultCommandHandler::new(None, 0..1);
        let mut handler = CyphalHandler::new(cmd, NoopHandler);
        let mut out = Outbox::new();
        assert!(handler.handle_request(&mut out, &command(code, b"")));
        assert_eq!(responses(&out), vec![b"\x03\x0bunsupported".to_vec()]);
    }
}

#[test]
fn vendor_commands_reach_the_extension() {
    let mut handler = handler();
    let mut out = Outbox::new();
    assert!(handler.handle_request(&mut out, &command(1, b"")));
    assert!(handler.handle_request(&mut out, &command(2, b"")));
    // An output that does not fit is left out.
    assert!(handler.handle_request(&mut out, &command(3, b"")));
    assert_eq!(handler.extension.last_command, Some(3));
    assert_eq!(
        responses(&out),
        vec![
            b"\x00\x09vendor_ok".to_vec(),
            b"\x03\x0bunsupported".to_vec(),
            b"\x00\x00".to_vec(),
        ]
    );
}

#[test]
fn truncated_requests_read_as_zeros() {
    let mut handler = handler();
    let mut out = Outbox::new();
    let transfer = ServiceTransfer { service: 435, source: node(1), payload: vec![1] };
    assert!(handler.handle_request(&mut out, &transfer));
    assert_eq!(handler.extension.last_command, Some(1));
    // A parameter that is announced and missing reads as zeros too.
    let transfer = ServiceTransfer { service: 435, source: node(1), payload: vec![0xfd, 0xff, 2, 7] };
    assert!(handler.handle_request(&mut out, &transfer));
    assert_eq!(download(&mut handler), (vec![7, 0], node(1)));
}

#[test]
fn other_transfers_go_to_the_extension() {
    let mut handler = handler();
    let mut out = Outbox::new();
    let other = ServiceTransfer { service: 430, source: node(1), payload: vec![] };
    assert!(handler.handle_request(&mut out, &other));
    assert!(handler.handle_response(&mut out, &other));
    let message = MessageTransfer { subject: 1, source: None, payload: vec![] };
    assert!(!handler.handle_message(&mut out, &message));
    handler.on_tick(&mut out, 3);
    assert_eq!(handler.extension.seen, vec!["request", "response", "message"]);
    assert!(matches!(&out.actions[1], Action::Publish { subject: 7, payload } if payload == &[3]));
    assert_eq!(handler.register_subscriptions(), Vec::new());
    assert_eq!(handler.register_publishers(), Vec::new());
}

#[test]
fn read_responses_are_captured_for_the_download() {
    let mut handler = handler();
    let mut out = Outbox::new();
    let response =
        |source: u8, len: usize| ServiceTransfer { service: 408, source: node(source), payload: vec![1; len] };
    // No download, or none that waits.
    assert!(!handler.handle_response(&mut out, &response(42, 4)));
    handler.handle_request(&mut out, &command(65533, b"/a"));
    assert!(!handler.handle_response(&mut out, &response(42, 4)));
    handler.ota.waiting_response = true;
    // Another node.
    assert!(!handler.handle_response(&mut out, &response(41, 4)));
    assert!(handler.ota.pending_response_payload.is_none());
    // Too large: taken and dropped.
    assert!(handler.handle_response(&mut out, &response(42, 301)));
    assert!(handler.ota.pending_response_payload.is_none());
    assert!(handler.handle_response(&mut out, &response(42, 300)));
    assert_eq!(handler.ota.pending_response_payload.as_ref().unwrap().as_slice(), &[1; 300]);
}

#[test]
fn registration_needs_every_call_to_succeed() {
    assert!(cyphal_node::handler::registration_succeeded(&[]));
    assert!(cyphal_node::handler::registration_succeeded(&[true, true]));
    assert!(!cyphal_node::handler::registration_succeeded(&[true, false]));
}

#[test]
fn a_new_handler_has_no_download() {
    let fresh = OtaSession::new();
    let handler = handler();
    assert_eq!(handler.is_ota_active(), fresh.active);
    assert_eq!(handler.command_handler.nvs_range, 0x480000..0x500000);
}
