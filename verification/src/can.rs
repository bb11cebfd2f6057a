//! The CAN service of a node: what it does about each event, and the reports it sends.
use vstd::prelude::*;
use crate::bytes::{be16, be16_bytes, bits16, to_bits16};
use crate::can_consumer::{address, CanFrameConsumer};
use crate::can_frame::{CanFrame, Id, MAX_EXTENDED_ID};
use crate::node_task::{controller_config, filters_for, ControllerConfig, ReceiveMode};
use crate::time::{hz_period, Duration};

verus! {

/// The node ID where none is stored.
pub const DEFAULT_NODE_ID: u32 = 0;

/// Mask under which an identifier is compared with a node's address: all but the command ID.
pub const NODE_MASK: u32 = 0x1FFF_FFE0;

/// The rate (Hz) of reports that a remote frame asks for.
pub const REQUESTED_REPORT_HZ: u64 = 10;

/// A change of the configuration.
#[derive(Clone, Copy, Debug, PartialEq, Eq, Structural)]
pub enum ConfigurationEvent {
    NodeIdUpdate { node_id: u32 },
    IntervalUpdate { hz: u64 },
}

/// Something that the service wakes up for.
#[derive(Clone, Copy, Debug, PartialEq, Eq, Structural)]
pub enum CanEvent {
    /// The interrupt pin went low: a frame was received.
    Interrupt,
    /// The configuration changed.
    Configuration(ConfigurationEvent),
    /// A frame was queued for transmission.
    FrameQueued,
    /// A tick of the consumers was asked for.
    TickRequested,
    /// A report is due.
    ReportDue,
}

/// What the service does about an event.
#[derive(Clone, Copy, Debug)]
pub enum CanAction {
    /// Receive a frame and dispatch it.
    Receive,
    /// Apply this configuration, and tell the dispatcher the node ID.
    Configure { config: ControllerConfig, node_id: u32 },
    /// Report with this period from now on.
    SetReportPeriod(Duration),
    /// Transmit the queued frame.
    Transmit,
    /// Tick all consumers.
    TickConsumers,
    /// Send a report (see [`tx_report`]).
    Report,
}

/// Whether a node ID makes an address that fits an extended identifier.
pub open spec fn is_addressable(node_id: u32) -> bool {
    address(node_id, 0) <= MAX_EXTENDED_ID
}

/// The raw identifier of command 0 of a node.
pub fn node_address(node_id: u32) -> (raw: u32)
    ensures
        raw == address(node_id, 0),
{
    node_id.wrapping_mul(32)
}

/// Whether `config` accepts only what is destined for a node.
pub open spec fn accepts_only(config: ControllerConfig, node_id: u32) -> bool {
    &&& config.filters@ == filters_for(address(node_id, 0) as u32, NODE_MASK)
    &&& config.receive_mode == ReceiveMode::Filter
    &&& config.interrupts == 3
}

/// The configuration in which the controller accepts only messages destined for a node, and
/// signals received messages.
pub fn node_config(node_id: u32) -> (config: ControllerConfig)
    requires
        is_addressable(node_id),
    ensures
        accepts_only(config, node_id),
{
    controller_config(node_address(node_id), NODE_MASK, ReceiveMode::Filter, false).unwrap()
}

/// Whether the service can act on an event: a node ID has an address, and a rate is not zero.
pub open spec fn is_acceptable(event: CanEvent) -> bool {
    match event {
        CanEvent::Configuration(ConfigurationEvent::NodeIdUpdate { node_id }) => is_addressable(
            node_id,
        ),
        CanEvent::Configuration(ConfigurationEvent::IntervalUpdate { hz }) => hz > 0,
        _ => true,
    }
}

/// State of the CAN service.
#[derive(Clone, Copy, Debug, PartialEq, Eq, Structural)]
pub struct CanService {
    pub node_id: u32,
    /// The period of reports; none are sent without one.
    pub report_period: Option<Duration>,
}

impl CanService {
    /// A service that sends no reports yet.
    pub fn new(node_id: u32) -> (s: CanService)
        ensures
            s == (CanService { node_id, report_period: None }),
    {
        CanService { node_id, report_period: None }
    }

    /// Decides what to do about an event.
    pub fn on_event(&mut self, event: CanEvent) -> (action: CanAction)
        requires
            is_acceptable(event),
        ensures
            match event {
                CanEvent::Interrupt => action == CanAction::Receive && *final(self) == *old(self),
                CanEvent::FrameQueued => action == CanAction::Transmit && *final(self) == *old(
                    self),
                CanEvent::TickRequested => action == CanAction::TickConsumers && *final(self)
                    == *old(self),
                CanEvent::ReportDue => action == CanAction::Report && *final(self) == *old(self),
                CanEvent::Configuration(ConfigurationEvent::NodeIdUpdate { node_id }) => {
                    &&& action matches CanAction::Configure { config, node_id: told }
                    &&& accepts_only(config, node_id)
                    &&& told == node_id
                    &&& *final(self) == (CanService { node_id, ..*old(self) })
                },
                CanEvent::Configuration(ConfigurationEvent::IntervalUpdate { hz }) => {
                    &&& action matches CanAction::SetReportPeriod(period)
                    &&& period.ticks == hz_period(hz as int)
                    &&& *final(self) == (CanService { report_period: Some(period), ..*old(self) })
                },
            },
    {
        match event {
            CanEvent::Interrupt => CanAction::Receive,
            CanEvent::FrameQueued => CanAction::Transmit,
            CanEvent::TickRequested => CanAction::TickConsumers,
            CanEvent::ReportDue => CanAction::Report,
            CanEvent::Configuration(ConfigurationEvent::NodeIdUpdate { node_id }) => {
                self.node_id = node_id;
                CanAction::Configure { config: node_config(node_id), node_id }
            },
            CanEvent::Configuration(ConfigurationEvent::IntervalUpdate { hz }) => {
                let period = Duration::from_hz(hz);
                self.report_period = Some(period);
                CanAction::SetReportPeriod(period)
            },
        }
    }
}

/// The data of a report: a sequence number, the sensor angle and the sensor temperature, both
/// big-endian.
pub open spec fn report_data(sequence: u8, angle: i16, temp: i16) -> Seq<u8> {
    seq![sequence] + be16(bits16(angle)) + be16(bits16(temp))
}

/// Builds a data report of a node, and counts the sequence number on, rolling over.
pub fn tx_report(node_id: u32, sequence: &mut u8, angle: i16, temp: i16) -> (frame: Option<
    CanFrame,
>)
    requires
        is_addressable(node_id),
    ensures
        frame matches Some(f) && f.id == Id::Extended(address(node_id, 0) as u32) && !f.remote
            && f.data@ == report_data(*old(sequence), angle, temp),
        *final(sequence) == (*old(sequence) + 1) % 256,
{
    let mut data: Vec<u8> = Vec::new();
    data.push(*sequence);
    data.extend_from_slice(&be16_bytes(to_bits16(angle)));
    data.extend_from_slice(&be16_bytes(to_bits16(temp)));
    proof {
        assert(data@ =~= report_data(*old(sequence), angle, temp));
    }
    *sequence = sequence.wrapping_add(1);
    CanFrame::extended(node_address(node_id), data.as_slice())
}

/// Consumer of the remote frames that ask for reports.
#[derive(Clone, Copy, Debug, PartialEq, Eq, Structural)]
pub struct MyHandler;

impl MyHandler {
    /// What a frame asks for: reports at a fixed rate.
    pub fn on_frame(&self, frame: &CanFrame) -> (event: ConfigurationEvent)
        ensures
            event == (ConfigurationEvent::IntervalUpdate { hz: REQUESTED_REPORT_HZ }),
            event == (ConfigurationEvent::IntervalUpdate { hz: 10 }),
            is_acceptable(CanEvent::Configuration(event)),
    {
        ConfigurationEvent::IntervalUpdate { hz: REQUESTED_REPORT_HZ }
    }
}

impl CanFrameConsumer for MyHandler {
    fn accepts(&self, id: u8, is_remote: bool) -> (accepted: bool)
        ensures
            accepted == (id == 0 && is_remote),
    {
        id == 0 && is_remote
    }
}

/// A node has an address as long as 32 times its ID, cut off at 32 bits, fits the 29 bits of an
/// extended identifier. So has every node with an ID of 24 bits.
pub proof fn law_ids_that_have_an_address(node_id: u32)
    ensures
        is_addressable(node_id) <==> node_id * 32 % 0x1_0000_0000 < 0x2000_0000,
        node_id < 0x100_0000 ==> is_addressable(node_id),
{
}

/// The controller of a node filters both buffers for its address, under a mask that leaves out
/// the five bits of the command, and signals received messages only.
pub proof fn law_controller_filters_for_the_node(config: ControllerConfig, node_id: u32)
    requires
        accepts_only(config, node_id),
    ensures
        config.filters@.len() == 4,
        config.filters@[0].1 == Id::Extended((node_id * 32 % 0x1_0000_0000) as u32),
        config.filters@[1].1 == Id::Extended((node_id * 32 % 0x1_0000_0000) as u32),
        config.filters@[2].1 == Id::Extended(0x1fff_ffe0),
        config.filters@[3].1 == Id::Extended(0x1fff_ffe0),
        config.receive_mode is Filter,
        config.interrupts == 3,
{
}

/// Under that mask exactly the commands of the node match its address.
pub proof fn law_mask_selects_the_commands_of_a_node(raw: u32, node_id: u32)
    requires
        raw < 0x2000_0000,
        node_id < 0x100_0000,
    ensures
        raw & NODE_MASK == address(node_id, 0) <==> raw / 32 == node_id,
{
    assert(raw & 0x1fff_ffe0u32 == (raw / 32) * 32) by (bit_vector)
        requires
            raw < 0x2000_0000u32,
    ;
}

/// The service acts on every event but a node ID without an address and a rate of zero.
pub proof fn law_events_that_are_acted_on(event: CanEvent, node_id: u32, hz: u64)
    ensures
        event is Configuration || is_acceptable(event),
        is_acceptable(CanEvent::Configuration(ConfigurationEvent::IntervalUpdate { hz })) <==> hz
            != 0,
        is_acceptable(CanEvent::Configuration(ConfigurationEvent::NodeIdUpdate { node_id }))
            <==> node_id * 32 % 0x1_0000_0000 < 0x2000_0000,
{
}

/// A report is a sequence number, the angle and the temperature: five bytes, the numbers in two's
/// complement with the high byte first.
pub proof fn law_report_layout(sequence: u8, angle: i16, temp: i16)
    ensures
        ({
            let data = report_data(sequence, angle, temp);
            &&& data.len() == 5
            &&& data[0] == sequence
            &&& data[1] * 256 + data[2] == if angle >= 0 { angle as int } else { angle + 65536 }
            &&& data[3] * 256 + data[4] == if temp >= 0 { temp as int } else { temp + 65536 }
        }),
{
}

/// A node without a stored ID is node 0.
pub proof fn law_default_node_id()
    ensures
        DEFAULT_NODE_ID == 0,
{
}

/// The consumer of report requests works under any node ID.
pub proof fn law_reports_work_under_any_node_id(handler: MyHandler, node_id: u32)
    ensures
        handler.takes_node_id(node_id),
{
}

} // verus!
