//! Register values, transmit attempts and received frames.

use cyphal_node::can_frame::{CanFrame, Id};
use cyphal_node::driver::{
    abort_pending_transmissions, clear_tx0if, controller_status, convert_incoming, txb0_busy,
    CanCounters, Register, RegisterModify, TxNext, TxStage,
};

#[test]
fn status_follows_the_registers() {
    let s = controller_status(Some(0b0010_1010), Some(7), Some(9), Some(0b100), Some(0b0101_1000)).unwrap();
    assert!(s.txbo && !s.txep && s.rxep && !s.txwar && s.rxwar);
    assert_eq!((s.tec, s.rec), (7, 9));
    assert!(s.tx0if && s.txb0.txif);
    assert!(s.txb0.txreq && s.txb0.txerr && !s.txb0.mloa && s.txb0.abtf);

    let s = controller_status(Some(0b1101_0101), Some(0), Some(0), Some(0b1111_1011), Some(0b1010_0111)).unwrap();
    assert!(!s.txbo && s.txep && !s.rxep && s.txwar && !s.rxwar);
    assert!(!s.tx0if && !s.txb0.txif);
    assert!(!s.txb0.txreq && !s.txb0.txerr && s.txb0.mloa && !s.txb0.abtf);
}

#[test]
fn status_needs_every_register() {
    let regs = [Some(0u8); 5];
    assert!(controller_status(regs[0], regs[1], regs[2], regs[3], regs[4]).is_some());
    for missing in 0..5 {
        let mut r = regs;
        r[missing] = None;
        assert!(controller_status(r[0], r[1], r[2], r[3], r[4]).is_none());
    }
}

#[test]
fn the_buffer_is_busy_unless_known_to_be_free() {
    assert!(txb0_busy(None));
    assert!(txb0_busy(Some(0b1000)));
    assert!(!txb0_busy(Some(0b1111_0111)));
}

#[test]
fn aborting_clears_the_buffer() {
    let steps = abort_pending_transmissions();
    assert_eq!(
        steps,
        vec![
            RegisterModify { register: Register::CanCtrl, value: 0x10, mask: 0x10 },
            RegisterModify { register: Register::Txb0Ctrl, value: 0, mask: 0x78 },
            RegisterModify { register: Register::CanIntf, value: 0, mask: 0x04 },
            RegisterModify { register: Register::CanCtrl, value: 0, mask: 0x10 },
        ]
    );
    assert_eq!(clear_tx0if(), steps[2]);
}

#[test]
fn attempts_are_counted_once() {
    let mut c = CanCounters::new();
    // Does not fit.
    assert!(c.transmit_begin(0x2000_0000, &[1]).is_none());
    assert!(c.transmit_begin(5, &[0; 9]).is_none());
    assert_eq!((c.tx_attempts, c.tx_ok, c.tx_would_block), (2, 0, 2));
    // Fails at each stage.
    for stage in [TxStage::CheckFree, TxStage::Load, TxStage::RequestToSend] {
        assert!(c.transmit_begin(5, &[1]).is_some());
        assert_eq!(c.transmit_step(stage, false), TxNext::WouldBlock);
    }
    assert_eq!((c.tx_attempts, c.tx_ok, c.tx_would_block), (5, 0, 5));
    // Succeeds.
    let f = c.transmit_begin(0x1FFF_FFFF, &[1, 2, 3, 4, 5, 6, 7, 8]).unwrap();
    assert_eq!(f.id, Id::Extended(0x1FFF_FFFF));
    assert_eq!(f.data, vec![1, 2, 3, 4, 5, 6, 7, 8]);
    assert!(!f.remote);
    assert_eq!(c.transmit_step(TxStage::CheckFree, true), TxNext::ClearFlagAndLoad);
    assert_eq!(c.transmit_step(TxStage::Load, true), TxNext::RequestToSend);
    assert_eq!(c.transmit_step(TxStage::RequestToSend, true), TxNext::Sent);
    assert_eq!((c.tx_attempts, c.tx_ok, c.tx_would_block), (6, 1, 5));
    // Counters roll over.
    c.tx_attempts = u32::MAX;
    c.transmit_begin(5, &[]);
    assert_eq!(c.tx_attempts, 0);
}

#[test]
fn only_extended_frames_go_up() {
    let mut c = CanCounters::new();
    let frame = |id| CanFrame { id, remote: false, data: vec![1, 2] };
    let up = c.receive(Some(&frame(Id::Extended(0x1234))), 77).unwrap();
    assert_eq!((up.timestamp, up.id, up.data), (77, 0x1234, vec![1, 2]));
    assert!(c.receive(Some(&frame(Id::Standard(0x123))), 0).is_none());
    assert!(c.receive(Some(&frame(Id::Extended(0x2000_0000))), 0).is_none());
    assert!(c.receive(None, 0).is_none());
    assert_eq!((c.rx_ok, c.rx_would_block), (1, 3));
    assert!(convert_incoming(&frame(Id::Extended(0x1FFF_FFFF)), 0).is_some());
}
