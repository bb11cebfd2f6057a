//! The life of a node.

use cyphal_node::can_frame::Id;
use cyphal_node::driver::{ControllerStatus, TxBufferStatus};
use cyphal_node::node_task::{
    assess_status, assigned_node_id, can_wait_timeout, controller_config, cyphal_controller_config,
    loop_sleep, node_mode, reset_sequence, should_mark_booted, AcceptanceFilter, BusWarning, Drain,
    InitSequence, LoopCommand, LoopPhase, MainLoop, NodeFlags, Observation, ReceiveMode, ResetStep,
    SecondTimer, SetupStep,
};
use cyphal_node::time::Duration;
use cyphal_node::wire::CanNodeId;

const SECOND: u64 = 1_000_000;

#[test]
fn node_id_is_unknown_until_assigned() {
    let mut flags = NodeFlags::new();
    assert_eq!(assigned_node_id(flags.node_id), None);
    flags.set_node_id(CanNodeId::try_from(127).unwrap());
    assert_eq!(assigned_node_id(flags.node_id), Some(127));
    assert!(CanNodeId::try_from(128).is_none());
}

#[test]
fn a_pending_reset_is_taken_once() {
    let mut flags = NodeFlags::new();
    assert_eq!(flags.take_reset(), 0);
    flags.request_reset(1);
    flags.request_reset(2);
    assert_eq!(flags.take_reset(), 2);
    assert_eq!(flags.take_reset(), 0);
}

#[test]
fn the_controller_of_a_cyphal_node_receives_everything() {
    let c = cyphal_controller_config().unwrap();
    assert_eq!(
        c.filters,
        [
            (AcceptanceFilter::Filter0, Id::Extended(0)),
            (AcceptanceFilter::Filter2, Id::Extended(0)),
            (AcceptanceFilter::Mask0, Id::Extended(0)),
            (AcceptanceFilter::Mask1, Id::Extended(0)),
        ]
    );
    assert_eq!(c.receive_mode, ReceiveMode::ReceiveAny);
    assert_eq!(c.interrupts, 0b111);
    assert!(controller_config(0x2000_0000, 0, ReceiveMode::Filter, false).is_none());
    assert!(controller_config(0, 0x2000_0000, ReceiveMode::Filter, false).is_none());
}

#[test]
fn initialisation_is_retried() {
    let mut init = InitSequence::new();
    let (hold, settle) = init.begin();
    assert_eq!((hold.as_millis(), settle.as_millis()), (100, 10));
    assert_eq!(init.attempt, 1);
    assert_eq!(init.retry_after(false), Some(Duration::from_millis(250)));
    assert_eq!(init.retry_after(true), None);
    init.attempt = u32::MAX;
    init.begin();
    assert_eq!(init.attempt, 0);
}

#[test]
fn setup_halts_on_essential_failures_only() {
    let order = [
        (SetupStep::SubscribeAllocation, true),
        (SetupStep::PublishAllocation, true),
        (SetupStep::Allocate, false),
        (SetupStep::Promote, true),
        (SetupStep::SubscribeExecuteCommand, true),
        (SetupStep::RegisterSubscriptions, false),
        (SetupStep::RegisterPublishers, false),
        (SetupStep::MarkBooted, false),
        (SetupStep::StartFileRead, true),
    ];
    let mut step = SetupStep::SubscribeAllocation;
    for (expected, essential) in order {
        assert_eq!(step, expected);
        let failed = step.next(false);
        step = step.next(true);
        assert_eq!(failed, if essential { SetupStep::Halted } else { step });
    }
    assert_eq!(step, SetupStep::Running);
    assert_eq!(SetupStep::Halted.next(true), SetupStep::Halted);
    assert!(should_mark_booted(true));
    assert!(!should_mark_booted(false));
}

#[test]
fn resets_flush_first_and_factory_resets_erase() {
    let flush = ResetStep::Flush(Duration::from_millis(100));
    assert!(reset_sequence(0, 1, 2).is_empty());
    assert_eq!(reset_sequence(1, 1, 2), vec![flush, flush, flush, ResetStep::Reset]);
    assert_eq!(
        reset_sequence(2, 0x480000, 0x500000),
        vec![
            flush,
            flush,
            ResetStep::Erase { start: 0x480000, end: 0x500000 },
            flush,
            ResetStep::Reset
        ]
    );
}

#[test]
fn waits_and_sleeps() {
    let preferred = Duration::from_millis(5);
    assert_eq!(can_wait_timeout(false, true, preferred), None);
    assert_eq!(can_wait_timeout(true, true, preferred), Some(Duration::from_micros(100)));
    assert_eq!(can_wait_timeout(true, false, preferred), Some(Duration::from_millis(4)));
    assert_eq!(loop_sleep(true, true, preferred), None);
    assert_eq!(loop_sleep(true, false, preferred), Some(Duration::from_micros(20)));
    assert_eq!(loop_sleep(false, true, preferred), Some(Duration::from_millis(1)));
    // A preferred period that leaves little room, and one that leaves none.
    let tight = Duration::from_micros(1050);
    assert_eq!(can_wait_timeout(true, true, tight), Some(Duration::from_micros(50)));
    assert_eq!(can_wait_timeout(true, false, tight), Some(Duration::from_micros(50)));
    let tiny = Duration::from_micros(10);
    assert_eq!(can_wait_timeout(true, false, tiny), Some(Duration::from_micros(0)));
    assert_eq!(loop_sleep(true, false, tiny), Some(tiny));
    assert_eq!(loop_sleep(false, false, tiny), Some(tiny));
    assert_eq!((node_mode(false), node_mode(true)), (0, 3));
}

#[test]
fn seconds_are_made_up_for() {
    let mut t = SecondTimer::new(500);
    assert_eq!(t.take_due(500 + SECOND - 1), 0);
    assert_eq!(t.take_due(500 + SECOND), 1);
    assert_eq!(t.take_due(500 + SECOND), 0);
    assert_eq!(t.take_due(500 + 5 * SECOND + 3), 4);
    assert_eq!(t.next, 500 + 6 * SECOND);
}

fn status() -> ControllerStatus {
    ControllerStatus {
        txbo: false,
        txep: false,
        rxep: false,
        txwar: false,
        rxwar: false,
        tec: 0,
        rec: 0,
        txb0: TxBufferStatus { txreq: true, txerr: false, mloa: false, abtf: false, txif: false },
        tx0if: false,
    }
}

#[test]
fn the_worst_condition_is_reported() {
    let r = assess_status(&status());
    assert_eq!((r.warning, r.report_txb0, r.abort_pending), (BusWarning::Healthy, false, false));
    let r = assess_status(&ControllerStatus { rxwar: true, ..status() });
    assert_eq!((r.warning, r.report_txb0, r.abort_pending), (BusWarning::ErrorWarning, false, false));
    let r = assess_status(&ControllerStatus { txwar: true, rxep: true, ..status() });
    assert_eq!((r.warning, r.report_txb0, r.abort_pending), (BusWarning::ErrorPassive, true, true));
    let r = assess_status(&ControllerStatus { txep: true, ..status() });
    assert_eq!(r.warning, BusWarning::ErrorPassive);
    let mut s = ControllerStatus { txbo: true, txep: true, txwar: true, ..status() };
    s.txb0.txreq = false;
    let r = assess_status(&s);
    assert_eq!((r.warning, r.report_txb0, r.abort_pending), (BusWarning::BusOff, true, false));
}

fn drained(ota_active: bool, available: usize) -> (usize, usize) {
    let mut d = Drain::new(ota_active);
    let mut left = available;
    let mut calls = 0;
    loop {
        calls += 1;
        let received = left > 0;
        if received {
            left -= 1;
        }
        if !d.step(received) {
            return (available - left, calls);
        }
    }
}

#[test]
fn draining_is_capped() {
    assert_eq!(drained(false, 0), (0, 1));
    assert_eq!(drained(false, 3), (3, 4));
    assert_eq!(drained(false, 1000), (128, 128));
    // Another round follows one that received something.
    assert_eq!(drained(true, 0), (0, 1));
    assert_eq!(drained(true, 3), (3, 5));
    assert_eq!(drained(true, 128), (128, 129));
    assert_eq!(drained(true, 10_000), (640, 640));
}

#[test]
fn an_iteration_goes_through_every_phase() {
    let preferred = Duration::from_millis(20);
    let mut l = MainLoop::new(0);
    assert_eq!(l.phase, LoopPhase::HandleReset);
    let idle = [
        (Observation::Reset(0), LoopCommand::ReadInt),
        (Observation::IntHigh(true), LoopCommand::Wait(Duration::from_millis(19))),
        (Observation::Done, LoopCommand::ReadClock),
        (Observation::Now(2 * SECOND), LoopCommand::Maintain(2)),
        (Observation::Done, LoopCommand::Receive),
        (Observation::Received(true), LoopCommand::Receive),
        (Observation::Received(false), LoopCommand::Tick),
        (Observation::Done, LoopCommand::DriveOta),
        (Observation::Done, LoopCommand::Flush),
        (Observation::Done, LoopCommand::SetMode(0)),
        (Observation::Done, LoopCommand::Flush),
        (Observation::Done, LoopCommand::ReadInt),
        (Observation::IntHigh(false), LoopCommand::Sleep(Duration::from_millis(1))),
        (Observation::Done, LoopCommand::TakeReset),
    ];
    for (seen, command) in idle {
        assert_eq!(l.next(seen, false, preferred), command);
    }
    // During a download, with the interrupt pin low throughout.
    let busy = [
        (Observation::Reset(0), LoopCommand::ReadInt),
        (Observation::IntHigh(false), LoopCommand::ReadClock),
        (Observation::Now(2 * SECOND), LoopCommand::Receive),
        (Observation::Received(false), LoopCommand::Tick),
        (Observation::Done, LoopCommand::DriveOta),
        (Observation::Done, LoopCommand::Flush),
        (Observation::Done, LoopCommand::SetMode(3)),
        (Observation::Done, LoopCommand::Flush),
        (Observation::Done, LoopCommand::ReadInt),
        (Observation::IntHigh(false), LoopCommand::TakeReset),
    ];
    for (seen, command) in busy {
        assert_eq!(l.next(seen, true, preferred), command);
    }
    assert_eq!(l.next(Observation::Reset(2), true, preferred), LoopCommand::Reset(2));
    assert_eq!(l.phase, LoopPhase::Stopped);
}
