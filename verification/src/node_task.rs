//! The life of a Cyphal node, as decisions for the task that performs them:
//!
//! 1. MCP25xx hardware initialisation (with retry)
//! 2. PnP v1 dynamic node-ID allocation (see [`crate::pnp::PnpClient`])
//! 3. Node promotion to a named node
//! 4. Service subscriptions (ExecuteCommand, file.Read)
//! 5. Bootloader mark-booted handshake
//! 6. Main loop (receive → extension tick → OTA drive → health/mode update → flush)
use vstd::prelude::*;
use crate::can_frame::{Id, MAX_EXTENDED_ID};
use crate::driver::ControllerStatus;
use crate::execute_command::{RESET_FACTORY, RESET_NONE};
use crate::pnp::LOOP_SLEEP_IDLE_MS;
use crate::time::{Duration, TICK_HZ};
use crate::wire::{CanNodeId, MODE_OPERATIONAL, MODE_SOFTWARE_UPDATE};

verus! {

pub const MAX_PUBLISH_TOPICS: usize = 4;
pub const MAX_REQUEST_SERVICES: usize = 4;
pub const TX_QUEUE_SIZE: usize = 32;
/// Frames received at most in one round.
pub const RX_DRAIN_BUDGET: usize = 128;
/// Further rounds while a download is active.
pub const RX_DRAIN_EXTRA_ROUNDS_OTA: usize = 4;
pub const EXECUTE_COMMAND_PAYLOAD_MAX: usize = 300;
/// Wait for CAN activity (µs) while a download is active.
pub const CAN_WAIT_TIMEOUT_OTA_US: u64 = 100;
/// Sleep between iterations (µs) while a download is active.
pub const LOOP_SLEEP_OTA_US: u64 = 20;
/// How long the controller is held in reset (ms).
pub const RESET_HOLD_MS: u64 = 100;
/// How long the controller gets after a reset (ms).
pub const RESET_SETTLE_MS: u64 = 10;
/// Wait before the controller is initialised again (ms).
pub const INIT_RETRY_MS: u64 = 250;
/// Wait after each flush before a reset (ms).
pub const RESET_FLUSH_MS: u64 = 100;

/// Stands for "no node ID" where an ID is stored.
pub const NO_NODE_ID: u8 = 255;

/// The assigned Cyphal node ID in what is stored of it, or `None` if PnP allocation has not
/// yet completed.
pub fn assigned_node_id(stored: u8) -> (id: Option<u8>)
    ensures
        id == if stored == NO_NODE_ID { None::<u8> } else { Some(stored) },
        id is None <==> stored == 255,
{
    if stored == NO_NODE_ID {
        None
    } else {
        Some(stored)
    }
}

/// What other tasks see of the node, and ask of it.
#[derive(Clone, Copy, Debug, PartialEq, Eq, Structural)]
pub struct NodeFlags {
    /// The assigned node ID, [`NO_NODE_ID`] until there is one.
    pub node_id: u8,
    /// The reset that was asked for.
    pub pending_reset: u8,
}

impl NodeFlags {
    /// No node ID, and no reset asked for.
    pub fn new() -> (f: NodeFlags)
        ensures
            f == (NodeFlags { node_id: NO_NODE_ID, pending_reset: RESET_NONE }),
            f.node_id == 255 && f.pending_reset == 0,
    {
        NodeFlags { node_id: NO_NODE_ID, pending_reset: RESET_NONE }
    }

    /// Stores the ID that was allocated. From then on [`assigned_node_id`] returns it.
    pub fn set_node_id(&mut self, id: CanNodeId)
        ensures
            final(self).node_id == id.id(),
            final(self).node_id != NO_NODE_ID,
            final(self).pending_reset == old(self).pending_reset,
    {
        self.node_id = id.to_u8();
    }

    /// Asks for a reset; the last one asked for counts.
    pub fn request_reset(&mut self, mode: u8)
        ensures
            *final(self) == (NodeFlags { pending_reset: mode, ..*old(self) }),
    {
        self.pending_reset = mode;
    }

    /// Takes the reset that was asked for, and leaves none behind.
    pub fn take_reset(&mut self) -> (mode: u8)
        ensures
            mode == old(self).pending_reset,
            *final(self) == (NodeFlags { pending_reset: RESET_NONE, ..*old(self) }),
            final(self).pending_reset == 0,
    {
        let mode: u8 = self.pending_reset;
        self.pending_reset = RESET_NONE;
        mode
    }
}

/// A filter or a mask of the controller.
#[derive(Clone, Copy, Debug, PartialEq, Eq, Structural)]
pub enum AcceptanceFilter {
    Filter0,
    Filter2,
    Mask0,
    Mask1,
}

/// How the receive buffers use the filters.
#[derive(Clone, Copy, Debug, PartialEq, Eq, Structural)]
pub enum ReceiveMode {
    /// Only messages that meet the filters.
    Filter,
    /// Any message.
    ReceiveAny,
}

/// Configuration of the controller, in normal operation at 1 Mbit/s.
#[derive(Clone, Copy, Debug)]
pub struct ControllerConfig {
    pub filters: [(AcceptanceFilter, Id); 4],
    pub receive_mode: ReceiveMode,
    /// Raw value of the interrupt enable register.
    pub interrupts: u8,
}

/// The setters of `mcp25xx::registers::CANINTE`, from its default: bit 0 is `rx0ie`, 1 `rx1ie`,
/// 2 `tx0ie`; the other bits are clear.
#[verifier::external_body]
fn mcp25xx_caninte(rx0ie: bool, rx1ie: bool, tx0ie: bool) -> (raw: u8)
    ensures
        raw == (if rx0ie { 1int } else { 0 }) + (if rx1ie { 2int } else { 0 }) + (if tx0ie {
            4int
        } else {
            0
        }),
{
    u8::from(
        mcp25xx::registers::CANINTE::default().with_rx0ie(rx0ie).with_rx1ie(rx1ie).with_tx0ie(tx0ie),
    )
}

/// One address for both receive buffers, with one mask.
pub open spec fn filters_for(address: u32, mask: u32) -> Seq<(AcceptanceFilter, Id)> {
    seq![
        (AcceptanceFilter::Filter0, Id::Extended(address)),
        (AcceptanceFilter::Filter2, Id::Extended(address)),
        (AcceptanceFilter::Mask0, Id::Extended(mask)),
        (AcceptanceFilter::Mask1, Id::Extended(mask)),
    ]
}

/// The configuration for an address and a mask, if both are extended identifiers. `tx` says
/// whether a free transmit buffer raises an interrupt too.
pub fn controller_config(address: u32, mask: u32, receive_mode: ReceiveMode, tx: bool) -> (config:
    Option<ControllerConfig>)
    ensures
        config is Some <==> address <= MAX_EXTENDED_ID && mask <= MAX_EXTENDED_ID,
        config matches Some(c) ==> {
            &&& c.filters@ == filters_for(address, mask)
            &&& c.receive_mode == receive_mode
            &&& c.interrupts == if tx { 7u8 } else { 3u8 }
        },
{
    let address = match Id::extended(address) {
        Some(id) => id,
        None => return None,
    };
    let mask = match Id::extended(mask) {
        Some(id) => id,
        None => return None,
    };
    let filters = [
        (AcceptanceFilter::Filter0, address),
        (AcceptanceFilter::Filter2, address),
        (AcceptanceFilter::Mask0, mask),
        (AcceptanceFilter::Mask1, mask),
    ];
    proof {
        assert(filters@ =~= filters_for(address->Extended_0, mask->Extended_0));
    }
    Some(
        ControllerConfig { filters, receive_mode, interrupts: mcp25xx_caninte(true, true, tx) },
    )
}

/// The configuration of a Cyphal node's controller. Filter gating is disabled so that service
/// requests (e.g. GetInfo) are never dropped.
pub fn cyphal_controller_config() -> (config: Option<ControllerConfig>)
    ensures
        config matches Some(c) && c.filters@ == filters_for(0, 0) && c.receive_mode
            == ReceiveMode::ReceiveAny && c.interrupts == 7,
{
    controller_config(0, 0, ReceiveMode::ReceiveAny, true)
}

/// Initialisation of the controller: it is reset and configured until that succeeds.
#[derive(Clone, Copy, Debug, PartialEq, Eq, Structural)]
pub struct InitSequence {
    pub attempt: u32,
}

impl InitSequence {
    pub fn new() -> (s: InitSequence)
        ensures
            s.attempt == 0,
    {
        InitSequence { attempt: 0 }
    }

    /// Begins an attempt: the times (hold, settle) for which the controller is held in reset and
    /// left alone after it.
    pub fn begin(&mut self) -> (times: (Duration, Duration))
        ensures
            final(self).attempt == (old(self).attempt + 1) % 0x1_0000_0000,
            times.0.ticks == RESET_HOLD_MS * 1000,
            times.1.ticks == RESET_SETTLE_MS * 1000,
            times.0.ticks == 100_000 && times.1.ticks == 10_000,
    {
        self.attempt = self.attempt.wrapping_add(1);
        (Duration::from_millis(RESET_HOLD_MS), Duration::from_millis(RESET_SETTLE_MS))
    }

    /// After the controller was configured, or not: `None` when it is ready, else the time after
    /// which the next attempt begins.
    pub fn retry_after(&self, configured: bool) -> (wait: Option<Duration>)
        ensures
            wait is None <==> configured,
            wait matches Some(d) ==> d.ticks == INIT_RETRY_MS * 1000,
            wait matches Some(d) ==> d.ticks == 250_000,
    {
        if configured {
            None
        } else {
            Some(Duration::from_millis(INIT_RETRY_MS))
        }
    }
}

/// A step on the way to the main loop. Every step is performed once, in this order.
#[derive(Clone, Copy, Debug, PartialEq, Eq, Structural)]
pub enum SetupStep {
    SubscribeAllocation,
    PublishAllocation,
    /// Ask for a node ID until one is allocated.
    Allocate,
    /// Take the ID and become a named node in nominal health.
    Promote,
    SubscribeExecuteCommand,
    RegisterSubscriptions,
    RegisterPublishers,
    /// Read the boot state and, where that worked, mark the image as booted.
    MarkBooted,
    StartFileRead,
    Running,
    /// The node does nothing more.
    Halted,
}

/// The step that follows in order.
pub open spec fn step_after(step: SetupStep) -> SetupStep {
    match step {
        SetupStep::SubscribeAllocation => SetupStep::PublishAllocation,
        SetupStep::PublishAllocation => SetupStep::Allocate,
        SetupStep::Allocate => SetupStep::Promote,
        SetupStep::Promote => SetupStep::SubscribeExecuteCommand,
        SetupStep::SubscribeExecuteCommand => SetupStep::RegisterSubscriptions,
        SetupStep::RegisterSubscriptions => SetupStep::RegisterPublishers,
        SetupStep::RegisterPublishers => SetupStep::MarkBooted,
        SetupStep::MarkBooted => SetupStep::StartFileRead,
        SetupStep::StartFileRead => SetupStep::Running,
        SetupStep::Running => SetupStep::Running,
        SetupStep::Halted => SetupStep::Halted,
    }
}

/// Whether the node cannot go on when a step fails. An extension that fails to register, or a
/// boot state that cannot be marked, is only reported.
pub open spec fn is_essential(step: SetupStep) -> bool {
    match step {
        SetupStep::SubscribeAllocation | SetupStep::PublishAllocation | SetupStep::Promote
        | SetupStep::SubscribeExecuteCommand | SetupStep::StartFileRead => true,
        _ => false,
    }
}

impl SetupStep {
    /// The step after this one went as given.
    pub fn next(self, ok: bool) -> (step: SetupStep)
        ensures
            step == if !ok && is_essential(self) { SetupStep::Halted } else { step_after(self) },
    {
        match self {
            SetupStep::SubscribeAllocation => if ok {
                SetupStep::PublishAllocation
            } else {
                SetupStep::Halted
            },
            SetupStep::PublishAllocation => if ok {
                SetupStep::Allocate
            } else {
                SetupStep::Halted
            },
            SetupStep::Allocate => SetupStep::Promote,
            SetupStep::Promote => if ok {
                SetupStep::SubscribeExecuteCommand
            } else {
                SetupStep::Halted
            },
            SetupStep::SubscribeExecuteCommand => if ok {
                SetupStep::RegisterSubscriptions
            } else {
                SetupStep::Halted
            },
            SetupStep::RegisterSubscriptions => SetupStep::RegisterPublishers,
            SetupStep::RegisterPublishers => SetupStep::MarkBooted,
            SetupStep::MarkBooted => SetupStep::StartFileRead,
            SetupStep::StartFileRead => if ok {
                SetupStep::Running
            } else {
                SetupStep::Halted
            },
            SetupStep::Running => SetupStep::Running,
            SetupStep::Halted => SetupStep::Halted,
        }
    }
}

/// The step reached from `step` after the outcomes of the steps in between.
pub open spec fn setup_after(step: SetupStep, outcomes: Seq<bool>) -> SetupStep
    decreases outcomes.len(),
{
    if outcomes.len() == 0 {
        step
    } else {
        let before = setup_after(step, outcomes.drop_last());
        if !outcomes.last() && is_essential(before) {
            SetupStep::Halted
        } else {
            step_after(before)
        }
    }
}

/// Whether the boot image is to be marked as booted: always, unless the boot state could not be
/// read.
pub fn should_mark_booted(state_read: bool) -> (mark: bool)
    ensures
        mark == state_read,
{
    state_read
}

/// The position of a setup step in the order.
pub open spec fn setup_rank(step: SetupStep) -> int {
    match step {
        SetupStep::SubscribeAllocation => 0,
        SetupStep::PublishAllocation => 1,
        SetupStep::Allocate => 2,
        SetupStep::Promote => 3,
        SetupStep::SubscribeExecuteCommand => 4,
        SetupStep::RegisterSubscriptions => 5,
        SetupStep::RegisterPublishers => 6,
        SetupStep::MarkBooted => 7,
        SetupStep::StartFileRead => 8,
        SetupStep::Running => 9,
        SetupStep::Halted => 10,
    }
}

/// Setup either halts or reaches the main loop after exactly nine steps; and it reaches the main
/// loop only if every essential step on the way succeeded.
pub proof fn law_setup_runs_or_halts(outcomes: Seq<bool>)
    ensures
        ({
            let s = setup_after(SetupStep::SubscribeAllocation, outcomes);
            &&& s != SetupStep::Halted ==> setup_rank(s) == if outcomes.len() < 9 {
                outcomes.len() as int
            } else {
                9
            }
            &&& s == SetupStep::Running ==> outcomes.len() >= 9 && outcomes[0] && outcomes[1]
                && outcomes[3] && outcomes[4] && outcomes[8]
        }),
    decreases outcomes.len(),
{
    lemma_setup_progress(outcomes);
}

proof fn lemma_setup_progress(outcomes: Seq<bool>)
    ensures
        ({
            let s = setup_after(SetupStep::SubscribeAllocation, outcomes);
            s != SetupStep::Halted ==> {
                &&& setup_rank(s) == if outcomes.len() < 9 { outcomes.len() as int } else { 9 }
                &&& outcomes.len() > 0 ==> outcomes[0]
                &&& outcomes.len() > 1 ==> outcomes[1]
                &&& outcomes.len() > 3 ==> outcomes[3]
                &&& outcomes.len() > 4 ==> outcomes[4]
                &&& outcomes.len() > 8 ==> outcomes[8]
            }
        }),
    decreases outcomes.len(),
{
    if outcomes.len() > 0 {
        lemma_setup_progress(outcomes.drop_last());
    }
}

/// Something to do before the device resets.
#[derive(Clone, Copy, Debug, PartialEq, Eq, Structural)]
pub enum ResetStep {
    /// Flush the TX queue, then wait this long.
    Flush(Duration),
    /// Erase this range of flash.
    Erase { start: u32, end: u32 },
    /// Reset the device.
    Reset,
}

/// The steps of a reset: the TX queue is flushed twice so that response frames reach the bus
/// before any long blocking operation, a factory reset erases the settings, and the queue is
/// flushed once more.
pub open spec fn reset_steps(mode: u8, start: u32, end: u32) -> Seq<ResetStep> {
    let flush = ResetStep::Flush(Duration { ticks: (RESET_FLUSH_MS * 1000) as u64 });
    if mode == RESET_NONE {
        Seq::empty()
    } else if mode == RESET_FACTORY {
        seq![flush, flush, ResetStep::Erase { start, end }, flush, ResetStep::Reset]
    } else {
        seq![flush, flush, flush, ResetStep::Reset]
    }
}

/// The steps for the reset that was asked for; none where none was.
pub fn reset_sequence(mode: u8, nvs_start: u32, nvs_end: u32) -> (steps: Vec<ResetStep>)
    ensures
        steps@ == reset_steps(mode, nvs_start, nvs_end),
        steps@.len() == 0 <==> mode == 0,
        mode != 0 ==> steps@.last() == ResetStep::Reset,
        mode == 2 <==> steps@.contains(ResetStep::Erase { start: nvs_start, end: nvs_end }),
{
    let mut steps: Vec<ResetStep> = Vec::new();
    if mode != RESET_NONE {
        let pause = Duration::from_millis(RESET_FLUSH_MS);
        steps.push(ResetStep::Flush(pause));
        steps.push(ResetStep::Flush(pause));
        if mode == RESET_FACTORY {
            steps.push(ResetStep::Erase { start: nvs_start, end: nvs_end });
        }
        steps.push(ResetStep::Flush(pause));
        steps.push(ResetStep::Reset);
    }
    proof {
        assert(steps@ =~= reset_steps(mode, nvs_start, nvs_end));
        if mode == RESET_FACTORY {
            assert(steps@[2] == ResetStep::Erase { start: nvs_start, end: nvs_end });
        }
    }
    steps
}

/// The part of the preferred period that is kept for the sleep between iterations.
pub open spec fn sleep_share(preferred: Duration) -> int {
    if preferred.ticks < LOOP_SLEEP_IDLE_MS * 1000 {
        preferred.ticks as int
    } else {
        LOOP_SLEEP_IDLE_MS * 1000
    }
}

/// The wait for CAN activity in an iteration.
pub open spec fn wait_time(int_high: bool, ota_active: bool, preferred: Duration) -> Option<
    Duration,
> {
    let left = preferred.ticks - sleep_share(preferred);
    if !int_high {
        None
    } else if ota_active && CAN_WAIT_TIMEOUT_OTA_US < left {
        Some(Duration { ticks: CAN_WAIT_TIMEOUT_OTA_US })
    } else {
        Some(Duration { ticks: left as u64 })
    }
}

fn sleep_share_ticks(preferred: Duration) -> (ticks: u64)
    ensures
        ticks == sleep_share(preferred),
{
    let idle: u64 = Duration::from_millis(LOOP_SLEEP_IDLE_MS).as_ticks();
    if preferred.as_ticks() < idle {
        preferred.as_ticks()
    } else {
        idle
    }
}

/// How long to wait for CAN activity. With the interrupt pin already low there is no wait; during
/// a download it is short; and it never takes more than what the sleep leaves of the period that
/// the extension prefers.
pub fn can_wait_timeout(int_high: bool, ota_active: bool, preferred: Duration) -> (wait: Option<
    Duration,
>)
    ensures
        wait == wait_time(int_high, ota_active, preferred),
{
    let left: u64 = preferred.as_ticks() - sleep_share_ticks(preferred);
    let short = Duration::from_micros(CAN_WAIT_TIMEOUT_OTA_US);
    if !int_high {
        None
    } else if ota_active && short.as_ticks() < left {
        Some(short)
    } else {
        Some(Duration { ticks: left })
    }
}

/// When the next per-second maintenance is due.
#[derive(Clone, Copy, Debug, PartialEq, Eq, Structural)]
pub struct SecondTimer {
    pub next: u64,
}

/// The number of whole seconds that have come due by `now`, the one at `next` included.
pub open spec fn seconds_due(next: int, now: int) -> int {
    if now < next {
        0
    } else {
        (now - next) / (TICK_HZ as int) + 1
    }
}

impl SecondTimer {
    /// The first maintenance is due in one second.
    pub fn new(now_ticks: u64) -> (t: SecondTimer)
        requires
            now_ticks + TICK_HZ <= u64::MAX,
        ensures
            t.next == now_ticks + TICK_HZ,
            t.next == now_ticks + 1_000_000,
    {
        SecondTimer { next: now_ticks + Duration::from_secs(1).as_ticks() }
    }

    /// How often the maintenance is to run now. It is made up for every second that has passed,
    /// and afterwards the next one lies ahead, on the same beat.
    pub fn take_due(&mut self, now_ticks: u64) -> (due: u64)
        requires
            now_ticks + TICK_HZ <= u64::MAX,
        ensures
            due == seconds_due(old(self).next as int, now_ticks as int),
            final(self).next == old(self).next + due * TICK_HZ,
            now_ticks < final(self).next,
            due > 0 ==> final(self).next <= now_ticks + TICK_HZ,
    {
        let mut due: u64 = 0;
        let second: u64 = Duration::from_secs(1).as_ticks();
        while now_ticks >= self.next
            invariant
                second == TICK_HZ,
                now_ticks + TICK_HZ <= u64::MAX,
                self.next == old(self).next + due * TICK_HZ,
                due > 0 ==> self.next <= now_ticks + TICK_HZ,
                due <= self.next,
            decreases now_ticks + TICK_HZ - self.next,
        {
            self.next = self.next + second;
            due += 1;
        }
        proof {
            lemma_seconds_due(old(self).next as int, now_ticks as int, due as int);
        }
        due
    }
}

proof fn lemma_seconds_due(next: int, now: int, due: int)
    requires
        due >= 0,
        now < next + due * TICK_HZ,
        due > 0 ==> next + due * TICK_HZ <= now + TICK_HZ,
    ensures
        due == seconds_due(next, now),
{
    if due > 0 {
        assert((now - next) / (TICK_HZ as int) == due - 1) by (nonlinear_arith)
            requires
                (due - 1) * TICK_HZ <= now - next < due * TICK_HZ,
        ;
    }
}

/// The condition of the bus.
#[derive(Clone, Copy, Debug, PartialEq, Eq, Structural)]
pub enum BusWarning {
    Healthy,
    ErrorWarning,
    ErrorPassive,
    BusOff,
}

/// What the per-second maintenance makes of the controller's status.
#[derive(Clone, Copy, Debug, PartialEq, Eq, Structural)]
pub struct StatusReport {
    pub warning: BusWarning,
    /// Whether the state of transmit buffer 0 is reported.
    pub report_txb0: bool,
    /// Whether pending transmissions are aborted.
    pub abort_pending: bool,
}

/// Assesses the controller's status. The worst condition is reported; the transmit buffer is
/// looked at when transmission is affected, and freed when a frame is stuck in it.
pub fn assess_status(status: &ControllerStatus) -> (report: StatusReport)
    ensures
        report.warning == if status.txbo {
            BusWarning::BusOff
        } else if status.txep || status.rxep {
            BusWarning::ErrorPassive
        } else if status.txwar || status.rxwar {
            BusWarning::ErrorWarning
        } else {
            BusWarning::Healthy
        },
        report.report_txb0 == (status.txbo || status.txep || status.txwar),
        report.abort_pending == (report.report_txb0 && status.txb0.txreq),
{
    let warning = if status.txbo {
        BusWarning::BusOff
    } else if status.txep || status.rxep {
        BusWarning::ErrorPassive
    } else if status.txwar || status.rxwar {
        BusWarning::ErrorWarning
    } else {
        BusWarning::Healthy
    };
    let report_txb0 = status.txbo || status.txep || status.txwar;
    StatusReport { warning, report_txb0, abort_pending: report_txb0 && status.txb0.txreq }
}

/// Receiving in an iteration. During a download response frames can arrive in bursts: several
/// rounds are drained, but their number is capped so that request progress never starves.
#[derive(Clone, Copy, Debug, PartialEq, Eq, Structural)]
pub struct Drain {
    /// Rounds left, the present one included.
    pub rounds: usize,
    /// Frames left in the present round.
    pub frames: usize,
    /// Whether the present round has received a frame.
    pub drained_any: bool,
}

/// The number of rounds in an iteration.
pub open spec fn drain_rounds(ota_active: bool) -> int {
    if ota_active { 1 + RX_DRAIN_EXTRA_ROUNDS_OTA } else { 1 }
}

impl Drain {
    /// There is something left to receive.
    pub open spec fn wf(&self) -> bool {
        &&& 1 <= self.rounds <= 1 + RX_DRAIN_EXTRA_ROUNDS_OTA
        &&& 1 <= self.frames <= RX_DRAIN_BUDGET
    }

    /// An upper bound on how often `receive` is still called.
    pub open spec fn calls_left(&self) -> int {
        (self.rounds - 1) * RX_DRAIN_BUDGET + self.frames
    }

    /// The beginning of an iteration.
    pub open spec fn start(ota_active: bool) -> Drain {
        Drain {
            rounds: drain_rounds(ota_active) as usize,
            frames: RX_DRAIN_BUDGET,
            drained_any: false,
        }
    }

    /// What is left after one more call of `receive`; `None` when the iteration is done with it.
    pub open spec fn after(self, received: bool) -> Option<Drain> {
        if received && self.frames > 1 {
            Some(Drain { frames: (self.frames - 1) as usize, drained_any: true, ..self })
        } else if (received || self.drained_any) && self.rounds > 1 {
            Some(
                Drain {
                    rounds: (self.rounds - 1) as usize,
                    frames: RX_DRAIN_BUDGET,
                    drained_any: false,
                },
            )
        } else {
            None
        }
    }

    pub fn new(ota_active: bool) -> (d: Drain)
        ensures
            d.wf(),
            d == Drain::start(ota_active),
            d.calls_left() == drain_rounds(ota_active) * RX_DRAIN_BUDGET,
    {
        Drain {
            rounds: if ota_active {
                1 + RX_DRAIN_EXTRA_ROUNDS_OTA
            } else {
                1
            },
            frames: RX_DRAIN_BUDGET,
            drained_any: false,
        }
    }

    /// Takes in whether a frame was received, and returns whether to go on. A round ends when
    /// nothing more comes or its budget is used up; the next one begins if this one received
    /// anything and rounds are left.
    pub fn step(&mut self, received: bool) -> (go_on: bool)
        requires
            old(self).wf(),
        ensures
            go_on <==> old(self).after(received) is Some,
            go_on ==> *final(self) == old(self).after(received)->0,
            go_on ==> final(self).wf() && final(self).calls_left() < old(self).calls_left(),
    {
        if received {
            self.drained_any = true;
            self.frames = self.frames - 1;
            if self.frames > 0 {
                return true;
            }
        }
        if !self.drained_any || self.rounds == 1 {
            return false;
        }
        self.rounds = self.rounds - 1;
        self.frames = RX_DRAIN_BUDGET;
        self.drained_any = false;
        true
    }
}

/// The mode of a node, during a download and otherwise.
pub open spec fn reported_mode(ota_active: bool) -> u8 {
    if ota_active { MODE_SOFTWARE_UPDATE } else { MODE_OPERATIONAL }
}

/// The mode that the node reports.
pub fn node_mode(ota_active: bool) -> (mode: u8)
    ensures
        mode == reported_mode(ota_active),
        mode == if ota_active { 3u8 } else { 0u8 },
{
    if ota_active {
        MODE_SOFTWARE_UPDATE
    } else {
        MODE_OPERATIONAL
    }
}

/// The sleep before the next iteration.
pub open spec fn sleep_time(ota_active: bool, int_low: bool, preferred: Duration) -> Option<
    Duration,
> {
    if ota_active && int_low {
        None
    } else if ota_active && LOOP_SLEEP_OTA_US < sleep_share(preferred) {
        Some(Duration { ticks: LOOP_SLEEP_OTA_US })
    } else {
        Some(Duration { ticks: sleep_share(preferred) as u64 })
    }
}

/// How long to sleep before the next iteration. While a download is active and the interrupt pin
/// remains low, the loop goes on at once to keep draining burst traffic.
pub fn loop_sleep(ota_active: bool, int_low: bool, preferred: Duration) -> (sleep: Option<Duration>)
    ensures
        sleep == sleep_time(ota_active, int_low, preferred),
{
    let share: u64 = sleep_share_ticks(preferred);
    let short = Duration::from_micros(LOOP_SLEEP_OTA_US);
    if ota_active && int_low {
        None
    } else if ota_active && short.as_ticks() < share {
        Some(short)
    } else {
        Some(Duration { ticks: share })
    }
}

/// Where the main loop is: what it asked for last.
#[derive(Clone, Copy, Debug, PartialEq, Eq, Structural)]
pub enum LoopPhase {
    HandleReset,
    WaitForCan,
    Waiting,
    PerSecond,
    Maintain,
    DrainReceived,
    ExtensionTick,
    DriveOta,
    FlushRequests,
    UpdateMode,
    Flush,
    BeforeSleep,
    Sleeping,
    Stopped,
}

/// What the task reports back to the main loop.
#[derive(Clone, Copy, Debug, PartialEq, Eq, Structural)]
pub enum Observation {
    /// The reset that was asked for.
    Reset(u8),
    /// Whether the interrupt pin is high.
    IntHigh(bool),
    /// The current tick.
    Now(u64),
    /// Whether a frame was received.
    Received(bool),
    /// The command was performed.
    Done,
}

/// What the main loop has the task do next.
#[derive(Clone, Copy, Debug, PartialEq, Eq, Structural)]
pub enum LoopCommand {
    /// Take the pending reset.
    TakeReset,
    /// Perform the steps of [`reset_sequence`]; the loop ends.
    Reset(u8),
    /// Look at the interrupt pin.
    ReadInt,
    /// Wait for the interrupt pin to go low, at most this long.
    Wait(Duration),
    /// Read the clock.
    ReadClock,
    /// Run the per-second maintenance (heartbeat, error reporting) this many times.
    Maintain(u64),
    /// Receive a frame and have the handler handle it.
    Receive,
    /// Have the extension do its periodic work.
    Tick,
    /// Drive the download one step.
    DriveOta,
    /// Flush the TX queue.
    Flush,
    /// Report this mode.
    SetMode(u8),
    Sleep(Duration),
}

/// The main loop of a node.
#[derive(Clone, Copy, Debug, PartialEq, Eq, Structural)]
pub struct MainLoop {
    pub phase: LoopPhase,
    pub timer: SecondTimer,
    pub drain: Drain,
}

/// Whether `seen` is an answer to what the loop asked for in `phase`.
pub open spec fn answers(phase: LoopPhase, seen: Observation) -> bool {
    match phase {
        LoopPhase::HandleReset => seen is Reset,
        LoopPhase::WaitForCan | LoopPhase::BeforeSleep => seen is IntHigh,
        LoopPhase::PerSecond => seen matches Observation::Now(t) && t + TICK_HZ <= u64::MAX,
        LoopPhase::DrainReceived => seen is Received,
        LoopPhase::Stopped => false,
        _ => seen == Observation::Done,
    }
}

impl MainLoop {
    pub open spec fn wf(&self) -> bool {
        self.phase == LoopPhase::DrainReceived ==> self.drain.wf()
    }

    /// The loop after `seen`, and what it asks for then.
    pub open spec fn after(
        self,
        seen: Observation,
        ota_active: bool,
        preferred: Duration,
    ) -> (MainLoop, LoopCommand) {
        let draining = MainLoop {
            phase: LoopPhase::DrainReceived,
            drain: Drain::start(ota_active),
            ..self
        };
        match self.phase {
            LoopPhase::HandleReset => if seen->Reset_0 != RESET_NONE {
                (MainLoop { phase: LoopPhase::Stopped, ..self }, LoopCommand::Reset(seen->Reset_0))
            } else {
                (MainLoop { phase: LoopPhase::WaitForCan, ..self }, LoopCommand::ReadInt)
            },
            LoopPhase::WaitForCan => match wait_time(seen->IntHigh_0, ota_active, preferred) {
                Some(d) => (MainLoop { phase: LoopPhase::Waiting, ..self }, LoopCommand::Wait(d)),
                None => (MainLoop { phase: LoopPhase::PerSecond, ..self }, LoopCommand::ReadClock),
            },
            LoopPhase::Waiting => (
                MainLoop { phase: LoopPhase::PerSecond, ..self },
                LoopCommand::ReadClock,
            ),
            LoopPhase::PerSecond => {
                let due = seconds_due(self.timer.next as int, seen->Now_0 as int);
                let timer = SecondTimer { next: (self.timer.next + due * TICK_HZ) as u64 };
                if due > 0 {
                    (
                        MainLoop { phase: LoopPhase::Maintain, timer, ..self },
                        LoopCommand::Maintain(due as u64),
                    )
                } else {
                    (draining, LoopCommand::Receive)
                }
            },
            LoopPhase::Maintain => (draining, LoopCommand::Receive),
            LoopPhase::DrainReceived => match self.drain.after(seen->Received_0) {
                Some(drain) => (MainLoop { drain, ..self }, LoopCommand::Receive),
                None => (MainLoop { phase: LoopPhase::ExtensionTick, ..self }, LoopCommand::Tick),
            },
            LoopPhase::ExtensionTick => (
                MainLoop { phase: LoopPhase::DriveOta, ..self },
                LoopCommand::DriveOta,
            ),
            LoopPhase::DriveOta => (
                MainLoop { phase: LoopPhase::FlushRequests, ..self },
                LoopCommand::Flush,
            ),
            LoopPhase::FlushRequests => (
                MainLoop { phase: LoopPhase::UpdateMode, ..self },
                LoopCommand::SetMode(reported_mode(ota_active)),
            ),
            LoopPhase::UpdateMode => (
                MainLoop { phase: LoopPhase::Flush, ..self },
                LoopCommand::Flush,
            ),
            LoopPhase::Flush => (
                MainLoop { phase: LoopPhase::BeforeSleep, ..self },
                LoopCommand::ReadInt,
            ),
            LoopPhase::BeforeSleep => match sleep_time(ota_active, !seen->IntHigh_0, preferred) {
                Some(d) => (MainLoop { phase: LoopPhase::Sleeping, ..self }, LoopCommand::Sleep(d)),
                None => (MainLoop { phase: LoopPhase::HandleReset, ..self }, LoopCommand::TakeReset),
            },
            LoopPhase::Sleeping => (
                MainLoop { phase: LoopPhase::HandleReset, ..self },
                LoopCommand::TakeReset,
            ),
            LoopPhase::Stopped => (self, LoopCommand::TakeReset),
        }
    }

    /// The loop at its beginning. The first command is to take the pending reset.
    pub fn new(now_ticks: u64) -> (l: MainLoop)
        requires
            now_ticks + TICK_HZ <= u64::MAX,
        ensures
            l.wf(),
            l.phase == LoopPhase::HandleReset,
            l.timer.next == now_ticks + TICK_HZ,
    {
        MainLoop {
            phase: LoopPhase::HandleReset,
            timer: SecondTimer::new(now_ticks),
            drain: Drain::new(false),
        }
    }

    /// Takes in what came of the last command, and returns the next one. `ota_active` says
    /// whether a download is active at present, and `preferred` is the extension's loop period.
    pub fn next(&mut self, seen: Observation, ota_active: bool, preferred: Duration) -> (command:
        LoopCommand)
        requires
            old(self).wf(),
            answers(old(self).phase, seen),
        ensures
            final(self).wf(),
            final(self).phase == old(self).after(seen, ota_active, preferred).0.phase,
            final(self).timer == old(self).after(seen, ota_active, preferred).0.timer,
            final(self).phase == LoopPhase::DrainReceived ==> final(self).drain == old(self).after(
                seen,
                ota_active,
                preferred,
            ).0.drain,
            command == old(self).after(seen, ota_active, preferred).1,
            old(self).phase == LoopPhase::HandleReset ==> (seen matches Observation::Reset(mode)
                ==> if mode != 0 {
                command == LoopCommand::Reset(mode) && final(self).phase == LoopPhase::Stopped
            } else {
                command == LoopCommand::ReadInt && final(self).phase == LoopPhase::WaitForCan
            }),
            command is Reset ==> old(self).phase == LoopPhase::HandleReset && (seen
                matches Observation::Reset(mode) && command == LoopCommand::Reset(mode)),
    {
        match (self.phase, seen) {
            (LoopPhase::HandleReset, Observation::Reset(mode)) => {
                if mode != RESET_NONE {
                    self.phase = LoopPhase::Stopped;
                    LoopCommand::Reset(mode)
                } else {
                    self.phase = LoopPhase::WaitForCan;
                    LoopCommand::ReadInt
                }
            },
            (LoopPhase::WaitForCan, Observation::IntHigh(high)) => {
                match can_wait_timeout(high, ota_active, preferred) {
                    Some(d) => {
                        self.phase = LoopPhase::Waiting;
                        LoopCommand::Wait(d)
                    },
                    None => {
                        self.phase = LoopPhase::PerSecond;
                        LoopCommand::ReadClock
                    },
                }
            },
            (LoopPhase::Waiting, _) => {
                self.phase = LoopPhase::PerSecond;
                LoopCommand::ReadClock
            },
            (LoopPhase::PerSecond, Observation::Now(now)) => {
                let due: u64 = self.timer.take_due(now);
                if due > 0 {
                    self.phase = LoopPhase::Maintain;
                    LoopCommand::Maintain(due)
                } else {
                    self.begin_drain(ota_active)
                }
            },
            (LoopPhase::Maintain, _) => self.begin_drain(ota_active),
            (LoopPhase::DrainReceived, Observation::Received(received)) => {
                if self.drain.step(received) {
                    LoopCommand::Receive
                } else {
                    self.phase = LoopPhase::ExtensionTick;
                    LoopCommand::Tick
                }
            },
            (LoopPhase::ExtensionTick, _) => {
                self.phase = LoopPhase::DriveOta;
                LoopCommand::DriveOta
            },
            (LoopPhase::DriveOta, _) => {
                self.phase = LoopPhase::FlushRequests;
                LoopCommand::Flush
            },
            (LoopPhase::FlushRequests, _) => {
                self.phase = LoopPhase::UpdateMode;
                LoopCommand::SetMode(node_mode(ota_active))
            },
            (LoopPhase::UpdateMode, _) => {
                self.phase = LoopPhase::Flush;
                LoopCommand::Flush
            },
            (LoopPhase::Flush, _) => {
                self.phase = LoopPhase::BeforeSleep;
                LoopCommand::ReadInt
            },
            (LoopPhase::BeforeSleep, Observation::IntHigh(high)) => {
                match loop_sleep(ota_active, !high, preferred) {
                    Some(d) => {
                        self.phase = LoopPhase::Sleeping;
                        LoopCommand::Sleep(d)
                    },
                    None => {
                        self.phase = LoopPhase::HandleReset;
                        LoopCommand::TakeReset
                    },
                }
            },
            (LoopPhase::Sleeping, _) => {
                self.phase = LoopPhase::HandleReset;
                LoopCommand::TakeReset
            },
            _ => LoopCommand::TakeReset,
        }
    }

    fn begin_drain(&mut self, ota_active: bool) -> (command: LoopCommand)
        ensures
            *final(self) == (MainLoop {
                phase: LoopPhase::DrainReceived,
                drain: Drain::start(ota_active),
                ..*old(self)
            }),
            final(self).wf(),
            command == LoopCommand::Receive,
    {
        self.phase = LoopPhase::DrainReceived;
        self.drain = Drain::new(ota_active);
        LoopCommand::Receive
    }
}

/// What is fed to the loop at each step: what was seen, whether a download is active, and the
/// preferred period.
pub type LoopInput = (Observation, bool, Duration);

/// The loop after some inputs.
pub open spec fn loop_after(l: MainLoop, inputs: Seq<LoopInput>) -> MainLoop
    decreases inputs.len(),
{
    if inputs.len() == 0 {
        l
    } else {
        let (seen, ota_active, preferred) = inputs.last();
        loop_after(l, inputs.drop_last()).after(seen, ota_active, preferred).0
    }
}

/// Whether every input answers what the loop asked for.
pub open spec fn inputs_fit(l: MainLoop, inputs: Seq<LoopInput>) -> bool
    decreases inputs.len(),
{
    inputs.len() == 0 || {
        &&& inputs_fit(l, inputs.drop_last())
        &&& answers(loop_after(l, inputs.drop_last()).phase, inputs.last().0)
    }
}

/// How many of the commands for some inputs satisfy `wanted`.
pub open spec fn count_commands(
    l: MainLoop,
    inputs: Seq<LoopInput>,
    wanted: spec_fn(LoopCommand) -> bool,
) -> int
    decreases inputs.len(),
{
    if inputs.len() == 0 {
        0
    } else {
        let (seen, ota_active, preferred) = inputs.last();
        let command = loop_after(l, inputs.drop_last()).after(seen, ota_active, preferred).1;
        count_commands(l, inputs.drop_last(), wanted) + if wanted(command) { 1int } else { 0 }
    }
}

/// The position of a phase within an iteration.
pub open spec fn phase_rank(phase: LoopPhase) -> int {
    match phase {
        LoopPhase::HandleReset | LoopPhase::Stopped => 0,
        LoopPhase::WaitForCan => 1,
        LoopPhase::Waiting => 2,
        LoopPhase::PerSecond => 3,
        LoopPhase::Maintain => 4,
        LoopPhase::DrainReceived => 5,
        LoopPhase::ExtensionTick => 6,
        LoopPhase::DriveOta => 7,
        LoopPhase::FlushRequests => 8,
        LoopPhase::UpdateMode => 9,
        LoopPhase::Flush => 10,
        LoopPhase::BeforeSleep => 11,
        LoopPhase::Sleeping => 12,
    }
}

/// In every iteration of the main loop the extension ticks once, the download is driven once, the
/// mode is reported once and the TX queue is flushed twice: over any run that began at the top of
/// the loop, each has happened as often as iterations were completed, and once more (the flush
/// up to twice) where the present iteration is already past it.
pub proof fn law_iteration_does_everything_once(l: MainLoop, inputs: Seq<LoopInput>)
    requires
        l.phase == LoopPhase::HandleReset,
        inputs_fit(l, inputs),
    ensures
        ({
            let rank = phase_rank(loop_after(l, inputs).phase);
            let done = count_commands(l, inputs, |c: LoopCommand| c is TakeReset);
            &&& count_commands(l, inputs, |c: LoopCommand| c is Tick) == done + if rank >= 6 {
                1int
            } else {
                0
            }
            &&& count_commands(l, inputs, |c: LoopCommand| c is DriveOta) == done + if rank >= 7 {
                1int
            } else {
                0
            }
            &&& count_commands(l, inputs, |c: LoopCommand| c is SetMode) == done + if rank >= 9 {
                1int
            } else {
                0
            }
            &&& count_commands(l, inputs, |c: LoopCommand| c is Flush) == 2 * done + if rank >= 10 {
                2int
            } else if rank >= 8 {
                1
            } else {
                0
            }
        }),
    decreases inputs.len(),
{
    if inputs.len() > 0 {
        law_iteration_does_everything_once(l, inputs.drop_last());
    }
}

/// Where draining stands after some calls of `receive`; `None` once it is done.
pub open spec fn drain_after(ota_active: bool, received: Seq<bool>) -> Option<Drain>
    decreases received.len(),
{
    if received.len() == 0 {
        Some(Drain::start(ota_active))
    } else {
        match drain_after(ota_active, received.drop_last()) {
            Some(d) => d.after(received.last()),
            None => None,
        }
    }
}

/// Draining ends, however many frames there are: an iteration receives at most 128 times, or 640
/// times during a download, so that request progress never starves.
pub proof fn law_draining_is_bounded(ota_active: bool, received: Seq<bool>)
    ensures
        received.len() >= drain_rounds(ota_active) * RX_DRAIN_BUDGET ==> drain_after(
            ota_active,
            received,
        ) is None,
{
    lemma_drain_progress(ota_active, received);
}

proof fn lemma_drain_progress(ota_active: bool, received: Seq<bool>)
    ensures
        drain_after(ota_active, received) matches Some(d) ==> d.wf() && d.calls_left()
            + received.len() <= drain_rounds(ota_active) * RX_DRAIN_BUDGET,
    decreases received.len(),
{
    if received.len() > 0 {
        lemma_drain_progress(ota_active, received.drop_last());
    }
}

/// Between two ticks of the extension the loop rests at most for the preferred period: the sleep at
/// the end of an iteration and the wait in the next one, whether or not a download is active in
/// either of them. During a download it rests at most 120 microseconds.
pub proof fn law_loop_rests_at_most_the_preferred_period(
    int_low: bool,
    ota_before: bool,
    int_high: bool,
    ota_after: bool,
    preferred: Duration,
)
    ensures
        ({
            let rest = resting(sleep_time(ota_before, int_low, preferred)) + resting(
                wait_time(int_high, ota_after, preferred),
            );
            &&& rest <= preferred.ticks
            &&& ota_before && ota_after ==> rest <= CAN_WAIT_TIMEOUT_OTA_US + LOOP_SLEEP_OTA_US
        }),
{
}

/// The length of a rest; none is none.
pub open spec fn resting(rest: Option<Duration>) -> int {
    match rest {
        Some(d) => d.ticks as int,
        None => 0,
    }
}

/// How long the loop has rested since the extension last ticked, or since the beginning.
pub open spec fn rest_since_tick(l: MainLoop, inputs: Seq<LoopInput>) -> int
    decreases inputs.len(),
{
    if inputs.len() == 0 {
        0
    } else {
        let (seen, ota_active, preferred) = inputs.last();
        let before = rest_since_tick(l, inputs.drop_last());
        match loop_after(l, inputs.drop_last()).after(seen, ota_active, preferred).1 {
            LoopCommand::Tick => 0,
            LoopCommand::Wait(d) => before + d.ticks,
            LoopCommand::Sleep(d) => before + d.ticks,
            _ => before,
        }
    }
}

/// However a run of the main loop goes, it never rests longer than the preferred period between
/// two ticks of the extension.
pub proof fn law_ticks_come_within_the_preferred_period(
    l: MainLoop,
    inputs: Seq<LoopInput>,
    preferred: Duration,
)
    requires
        l.phase == LoopPhase::HandleReset,
        inputs_fit(l, inputs),
        forall|i: int| 0 <= i < inputs.len() ==> (#[trigger] inputs[i]).2 == preferred,
    ensures
        rest_since_tick(l, inputs) <= preferred.ticks,
{
    lemma_rest(l, inputs, preferred);
}

proof fn lemma_rest(l: MainLoop, inputs: Seq<LoopInput>, preferred: Duration)
    requires
        l.phase == LoopPhase::HandleReset,
        inputs_fit(l, inputs),
        forall|i: int| 0 <= i < inputs.len() ==> (#[trigger] inputs[i]).2 == preferred,
    ensures
        ({
            let rank = phase_rank(loop_after(l, inputs).phase);
            rest_since_tick(l, inputs) <= if rank <= 1 || rank == 12 {
                sleep_share(preferred)
            } else if rank <= 5 {
                preferred.ticks as int
            } else {
                0
            }
        }),
    decreases inputs.len(),
{
    if inputs.len() > 0 {
        let rest = inputs.drop_last();
        assert(forall|i: int| 0 <= i < rest.len() ==> rest[i] == inputs[i]);
        assert(inputs.last() == inputs[inputs.len() - 1]);
        lemma_rest(l, rest, preferred);
    }
}

/// At the top of an iteration every reset that was asked for is performed, whatever its mode, and
/// ends the loop; only where none was does the loop go on to look at the interrupt pin.
pub proof fn law_reset_is_performed_at_once(
    l: MainLoop,
    mode: u8,
    ota_active: bool,
    preferred: Duration,
)
    requires
        l.phase == LoopPhase::HandleReset,
    ensures
        ({
            let (next, command) = l.after(Observation::Reset(mode), ota_active, preferred);
            &&& mode != 0 ==> command == LoopCommand::Reset(mode) && next.phase
                == LoopPhase::Stopped
            &&& mode == 0 ==> command == LoopCommand::ReadInt && next.phase
                == LoopPhase::WaitForCan
            &&& next.timer == l.timer && next.drain == l.drain
        }),
{
}

proof fn lemma_prefix_fits(l: MainLoop, inputs: Seq<LoopInput>, i: int)
    requires
        inputs_fit(l, inputs),
        0 <= i < inputs.len(),
    ensures
        inputs_fit(l, inputs.take(i)),
        answers(loop_after(l, inputs.take(i)).phase, inputs[i].0),
    decreases inputs.len(),
{
    let rest = inputs.drop_last();
    if i == inputs.len() - 1 {
        assert(inputs.take(i) =~= rest);
    } else {
        lemma_prefix_fits(l, rest, i);
        assert(rest.take(i) =~= inputs.take(i));
    }
}

/// Over any run of the main loop, a reset that is observed is answered by that very reset at
/// once and is the last thing the run takes in; and the loop resets for no other reason.
#[verifier::rlimit(40)]
pub proof fn law_every_observed_reset_is_answered(
    l: MainLoop,
    inputs: Seq<LoopInput>,
    i: int,
    mode: u8,
)
    requires
        inputs_fit(l, inputs),
        0 <= i < inputs.len(),
    ensures
        ({
            let (seen, ota_active, preferred) = inputs[i];
            let command = loop_after(l, inputs.take(i)).after(seen, ota_active, preferred).1;
            &&& mode != 0 && seen == Observation::Reset(mode) ==> command == LoopCommand::Reset(
                mode,
            ) && i == inputs.len() - 1
            &&& command == LoopCommand::Reset(mode) ==> mode != 0 && seen == Observation::Reset(
                mode,
            )
            &&& seen == Observation::Reset(0) ==> command == LoopCommand::ReadInt
        }),
{
    lemma_prefix_fits(l, inputs, i);
    let (seen, ota_active, preferred) = inputs[i];
    let before = loop_after(l, inputs.take(i));
    assert(answers(before.phase, seen));
    if seen is Reset && seen->Reset_0 != 0 && i + 1 < inputs.len() {
        lemma_prefix_fits(l, inputs, i + 1);
        let longer = inputs.take(i + 1);
        assert(longer.drop_last() =~= inputs.take(i));
        assert(longer.last() == inputs[i]);
        assert(loop_after(l, longer).phase == LoopPhase::Stopped);
        assert(false);
    }
}

/// An iteration goes through its phases in order: after the wait the clock is read; after
/// receiving come the extension, the download, a flush, the mode, a flush and the pin; and after
/// the sleep the loop is at its top again. None of these touches the timer.
#[verifier::rlimit(40)]
pub proof fn law_iteration_goes_in_order(
    l: MainLoop,
    seen: Observation,
    ota_active: bool,
    preferred: Duration,
)
    ensures
        ({
            let (next, command) = l.after(seen, ota_active, preferred);
            &&& l.phase != LoopPhase::PerSecond ==> next.timer == l.timer
            &&& l.phase == LoopPhase::Waiting ==> next.phase == LoopPhase::PerSecond && command
                == LoopCommand::ReadClock
            &&& l.phase == LoopPhase::Maintain ==> next.phase == LoopPhase::DrainReceived
                && command == LoopCommand::Receive
            &&& l.phase == LoopPhase::ExtensionTick ==> next.phase == LoopPhase::DriveOta
                && command == LoopCommand::DriveOta
            &&& l.phase == LoopPhase::DriveOta ==> next.phase == LoopPhase::FlushRequests
                && command == LoopCommand::Flush
            &&& l.phase == LoopPhase::FlushRequests ==> next.phase == LoopPhase::UpdateMode
                && command == LoopCommand::SetMode(if ota_active { 3u8 } else { 0u8 })
            &&& l.phase == LoopPhase::UpdateMode ==> next.phase == LoopPhase::Flush && command
                == LoopCommand::Flush
            &&& l.phase == LoopPhase::Flush ==> next.phase == LoopPhase::BeforeSleep && command
                == LoopCommand::ReadInt
            &&& l.phase == LoopPhase::Sleeping ==> next.phase == LoopPhase::HandleReset && command
                == LoopCommand::TakeReset
        }),
{
}

/// The rests of an iteration. With the pin low there is no wait, and none to sleep through during
/// a download; the sleep takes up to a millisecond of the preferred period and the wait what is
/// left of it; and during a download they are cut to 20 and 100 microseconds.
pub proof fn law_rests_of_an_iteration(
    l: MainLoop,
    high: bool,
    ota_active: bool,
    preferred: Duration,
)
    ensures
        ({
            let period = preferred.ticks;
            let share: int = if period < 1000 { period as int } else { 1000 };
            let (next, command) = l.after(Observation::IntHigh(high), ota_active, preferred);
            &&& l.phase == LoopPhase::WaitForCan && !high ==> next.phase == LoopPhase::PerSecond
                && command == LoopCommand::ReadClock
            &&& l.phase == LoopPhase::WaitForCan && high ==> {
                &&& next.phase == LoopPhase::Waiting
                &&& command matches LoopCommand::Wait(d)
                &&& !ota_active || period - share <= 100 ==> d.ticks == period - share
                &&& ota_active && period - share > 100 ==> d.ticks == 100
            }
            &&& l.phase == LoopPhase::BeforeSleep && ota_active && !high ==> next.phase
                == LoopPhase::HandleReset && command == LoopCommand::TakeReset
            &&& l.phase == LoopPhase::BeforeSleep && (!ota_active || high) ==> {
                &&& next.phase == LoopPhase::Sleeping
                &&& command matches LoopCommand::Sleep(d)
                &&& !ota_active || share <= 20 ==> d.ticks == share
                &&& ota_active && share > 20 ==> d.ticks == 20
            }
        }),
{
}

/// The two rests, whatever the loop: see [`law_rests_of_an_iteration`].
pub proof fn law_rests_are_shared_out(
    int_high: bool,
    int_low: bool,
    ota_active: bool,
    preferred: Duration,
)
    ensures
        ({
            let period = preferred.ticks;
            let share: int = if period < 1000 { period as int } else { 1000 };
            let wait = wait_time(int_high, ota_active, preferred);
            let sleep = sleep_time(ota_active, int_low, preferred);
            &&& sleep_share(preferred) == share
            &&& wait is None <==> !int_high
            &&& wait matches Some(d) ==> d.ticks == if ota_active && period - share > 100 {
                100
            } else {
                period - share
            }
            &&& sleep is None <==> ota_active && int_low
            &&& sleep matches Some(d) ==> d.ticks == if ota_active && share > 20 {
                20
            } else {
                share
            }
        }),
{
}

/// Maintenance that has come due: the last second that counts is not in the future, and the one
/// after it is.
pub proof fn law_every_passed_second_is_due(next: int, now: int)
    ensures
        ({
            let due = seconds_due(next, now);
            &&& due >= 0
            &&& now < next + due * 1_000_000
            &&& due > 0 ==> next + (due - 1) * 1_000_000 <= now
        }),
{
}

/// When the clock is read, maintenance runs once for every second that has come due, and the
/// timer moves on by as many seconds; with none due the loop goes on to receive.
pub proof fn law_maintenance_keeps_up_with_the_clock(
    l: MainLoop,
    now: u64,
    ota_active: bool,
    preferred: Duration,
)
    requires
        l.phase == LoopPhase::PerSecond,
        now + 1_000_000 <= u64::MAX,
    ensures
        ({
            let (next, command) = l.after(Observation::Now(now), ota_active, preferred);
            &&& now < l.timer.next ==> {
                &&& command == LoopCommand::Receive
                &&& next.phase == LoopPhase::DrainReceived
                &&& next.timer == l.timer
            }
            &&& now >= l.timer.next ==> {
                &&& next.phase == LoopPhase::Maintain
                &&& command matches LoopCommand::Maintain(times)
                &&& next.timer.next == l.timer.next + times * 1_000_000
                &&& now < next.timer.next <= now + 1_000_000
            }
        }),
{
    law_every_passed_second_is_due(l.timer.next as int, now as int);
}

proof fn lemma_full_drain(ota_active: bool, received: Seq<bool>)
    requires
        forall|i: int| 0 <= i < received.len() ==> received[i],
    ensures
        ({
            let n = received.len() as int;
            let rounds: int = if ota_active { 5 } else { 1 };
            if n < rounds * 128 {
                &&& drain_after(ota_active, received) matches Some(d)
                &&& d.rounds == rounds - n / 128
                &&& d.frames == 128 - n % 128
            } else {
                drain_after(ota_active, received) is None
            }
        }),
    decreases received.len(),
{
    if received.len() > 0 {
        let rest = received.drop_last();
        assert(forall|i: int| 0 <= i < rest.len() ==> rest[i] == received[i]);
        lemma_full_drain(ota_active, rest);
        assert(received.last());
    }
}

/// While frames keep coming, an iteration receives exactly 128 of them, and 640 during a
/// download.
pub proof fn law_draining_uses_its_budget(ota_active: bool, received: Seq<bool>)
    requires
        forall|i: int| 0 <= i < received.len() ==> received[i],
    ensures
        drain_after(ota_active, received) is Some <==> received.len() < if ota_active {
            640int
        } else {
            128
        },
{
    lemma_full_drain(ota_active, received);
}

/// A round that received nothing is the last one; one that received something is followed by
/// another, as long as rounds are left.
pub proof fn law_silence_ends_a_round(d: Drain)
    ensures
        !d.drained_any || d.rounds <= 1 ==> d.after(false) is None,
        d.drained_any && d.rounds > 1 ==> (d.after(false) matches Some(e) && e.rounds == d.rounds
            - 1 && e.frames == 128 && !e.drained_any),
        d.frames > 1 ==> (d.after(true) matches Some(e) && e.rounds == d.rounds && e.frames
            == d.frames - 1 && e.drained_any),
        d.frames <= 1 && d.rounds > 1 ==> (d.after(true) matches Some(e) && e.rounds == d.rounds
            - 1 && e.frames == 128 && !e.drained_any),
        d.frames <= 1 && d.rounds <= 1 ==> d.after(true) is None,
{
}

/// Receiving in the main loop: every iteration begins it afresh, and goes on to the extension
/// when it is done.
pub proof fn law_iteration_receives_within_its_budget(
    l: MainLoop,
    received: bool,
    ota_active: bool,
    preferred: Duration,
)
    ensures
        ({
            let (next, command) = l.after(Observation::Received(received), ota_active, preferred);
            l.phase == LoopPhase::DrainReceived ==> match l.drain.after(received) {
                Some(d) => command == LoopCommand::Receive && next.phase == l.phase && next.drain
                    == d,
                None => command == LoopCommand::Tick && next.phase == LoopPhase::ExtensionTick,
            }
        }),
        ({
            let (next, command) = l.after(Observation::Done, ota_active, preferred);
            l.phase == LoopPhase::Maintain ==> command == LoopCommand::Receive && next.drain.rounds
                == (if ota_active { 5int } else { 1 }) && next.drain.frames == 128
                && !next.drain.drained_any
        }),
        forall|now: u64|
            l.phase == LoopPhase::PerSecond && now < l.timer.next ==> {
                let (next, command) = #[trigger] l.after(
                    Observation::Now(now),
                    ota_active,
                    preferred,
                );
                next.drain.rounds == (if ota_active { 5int } else { 1 }) && next.drain.frames == 128
                    && !next.drain.drained_any
            },
{
}

/// Setup performs its steps in this order, and halts exactly where a subscription or publication
/// of its own, the promotion or the file client fails.
pub proof fn law_setup_order(step: SetupStep, ok: bool)
    ensures
        ({
            let next = setup_after(step, seq![ok]);
            match step {
                SetupStep::SubscribeAllocation => next == if ok {
                    SetupStep::PublishAllocation
                } else {
                    SetupStep::Halted
                },
                SetupStep::PublishAllocation => next == if ok {
                    SetupStep::Allocate
                } else {
                    SetupStep::Halted
                },
                SetupStep::Allocate => next == SetupStep::Promote,
                SetupStep::Promote => next == if ok {
                    SetupStep::SubscribeExecuteCommand
                } else {
                    SetupStep::Halted
                },
                SetupStep::SubscribeExecuteCommand => next == if ok {
                    SetupStep::RegisterSubscriptions
                } else {
                    SetupStep::Halted
                },
                SetupStep::RegisterSubscriptions => next == SetupStep::RegisterPublishers,
                SetupStep::RegisterPublishers => next == SetupStep::MarkBooted,
                SetupStep::MarkBooted => next == SetupStep::StartFileRead,
                SetupStep::StartFileRead => next == if ok {
                    SetupStep::Running
                } else {
                    SetupStep::Halted
                },
                SetupStep::Running => next == SetupStep::Running,
                SetupStep::Halted => next == SetupStep::Halted,
            }
        }),
        (if !ok && is_essential(step) { SetupStep::Halted } else { step_after(step) })
            == setup_after(step, seq![ok]),
{
    let one = seq![ok];
    assert(one.drop_last() =~= Seq::<bool>::empty());
    reveal_with_fuel(setup_after, 2);
}

/// Before a reset the queue is flushed for 100 ms three times, the settings are erased between
/// the second and the third time if and only if it is a factory reset, and the device is reset
/// last. Without a reset nothing is done.
pub proof fn law_reset_flushes_before_it_resets(mode: u8, start: u32, end: u32)
    ensures
        ({
            let steps = reset_steps(mode, start, end);
            let flush = ResetStep::Flush(Duration { ticks: 100_000 });
            &&& mode == 0 ==> steps.len() == 0
            &&& mode != 0 ==> steps[0] == flush && steps[1] == flush && steps.last()
                == ResetStep::Reset && steps[steps.len() - 2] == flush
            &&& mode == 2 ==> steps.len() == 5 && steps[2] == (ResetStep::Erase { start, end })
            &&& mode != 0 && mode != 2 ==> steps.len() == 4
        }),
{
}

/// Both receive buffers filter for the same address with the same mask.
pub proof fn law_buffers_filter_alike(address: u32, mask: u32)
    ensures
        ({
            let filters = filters_for(address, mask);
            &&& filters.len() == 4
            &&& filters[0] == (AcceptanceFilter::Filter0, Id::Extended(address))
            &&& filters[1] == (AcceptanceFilter::Filter2, Id::Extended(address))
            &&& filters[2] == (AcceptanceFilter::Mask0, Id::Extended(mask))
            &&& filters[3] == (AcceptanceFilter::Mask1, Id::Extended(mask))
        }),
{
}

/// What answers what the loop asked for: a reset at its top, the pin before a wait or a sleep, a
/// tick when the clock was read, a reception when a frame was asked for, and nothing once it has
/// stopped; everything else is only done.
pub proof fn law_answers_fit_the_question(phase: LoopPhase, mode: u8, high: bool, now: u64)
    ensures
        answers(phase, Observation::Reset(mode)) <==> phase == LoopPhase::HandleReset,
        answers(phase, Observation::IntHigh(high)) <==> phase == LoopPhase::WaitForCan || phase
            == LoopPhase::BeforeSleep,
        answers(phase, Observation::Now(now)) <==> phase == LoopPhase::PerSecond && now + 1_000_000
            <= u64::MAX,
        answers(phase, Observation::Received(high)) <==> phase == LoopPhase::DrainReceived,
        answers(phase, Observation::Done) <==> phase == LoopPhase::Waiting || phase
            == LoopPhase::Maintain || phase == LoopPhase::ExtensionTick || phase
            == LoopPhase::DriveOta || phase == LoopPhase::FlushRequests || phase
            == LoopPhase::UpdateMode || phase == LoopPhase::Flush || phase == LoopPhase::Sleeping,
{
}

/// The sizes that the node is built with: four topics and four services, 32 queued frames, and
/// commands of up to 300 bytes.
pub proof fn law_sizes_of_the_node()
    ensures
        MAX_PUBLISH_TOPICS == 4,
        MAX_REQUEST_SERVICES == 4,
        TX_QUEUE_SIZE == 32,
        EXECUTE_COMMAND_PAYLOAD_MAX == 300,
{
}

} // verus!
