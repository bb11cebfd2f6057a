//! ISO-TP transfers between two nodes.

use cyphal_node::can_frame::{CanFrame, Id};
use cyphal_node::isotp::{IsoTpError, IsoTpMessage, IsoTpNode, IsoTpStep};

const A: Id = Id::Extended(0x42);
const B: Id = Id::Extended(0x43);

fn frame(id: Id, data: &[u8]) -> CanFrame {
    CanFrame { id, remote: false, data: data.to_vec() }
}

fn complete(step: Result<IsoTpStep, IsoTpError>) -> Vec<u8> {
    match step {
        Ok(IsoTpStep::Done(Some(IsoTpMessage::Complete(v)))) => v,
        other => panic!("{:?}", other),
    }
}

/// Sends `payload` from one node to another, and returns what arrives and how many frames it took.
fn transfer(payload: &[u8]) -> (Vec<u8>, usize) {
    let mut tx = IsoTpNode::new(A, B);
    let mut rx = IsoTpNode::new(B, A);
    let first = tx.send(payload).unwrap();
    tx.send_result(true).unwrap();
    let mut step = rx.receive(&frame(A, &first));
    let mut frames = 1;
    if let Ok(IsoTpStep::FlowControl(fc)) = step {
        assert_eq!(fc, [0x30, 0, 0, 0, 0, 0, 0, 0]);
        assert!(matches!(rx.flow_control_result(true), Ok(Some(IsoTpMessage::InProgress))));
        let mut next = match tx.receive(&frame(B, &fc)) {
            Ok(IsoTpStep::Consecutive(f)) => Some(f),
            other => panic!("{:?}", other),
        };
        while let Some(f) = next {
            frames += 1;
            step = rx.receive(&frame(A, &f));
            next = tx.consecutive_result(true).unwrap();
            if next.is_some() {
                assert!(matches!(step, Ok(IsoTpStep::Done(Some(IsoTpMessage::InProgress)))));
            }
        }
    }
    (complete(step), frames)
}

#[test]
fn payloads_arrive_as_they_were_sent() {
    for len in [0usize, 1, 7, 8, 10, 12, 13, 14, 20, 100, 118, 119, 1000, 4094, 4095] {
        let payload: Vec<u8> = (0..len).map(|i| (i % 251) as u8 + 1).collect();
        let (arrived, frames) = transfer(&payload);
        assert_eq!(arrived, payload, "length {}", len);
        assert_eq!(frames, if len <= 7 { 1 } else { 1 + (len - 6 + 6) / 7 }, "length {}", len);
    }
}

#[test]
fn single_frames_carry_their_length() {
    let mut node = IsoTpNode::new(A, B);
    assert_eq!(node.send(&[1, 2, 3]).unwrap(), [3, 1, 2, 3, 0, 0, 0, 0]);
    assert!(node.send_result(true).is_ok());
    assert_eq!(complete(node.receive(&frame(B, &[2, 8, 9, 10]))), vec![8, 9]);
    // A single frame needs no flow control.
    assert!(matches!(node.receive(&frame(B, &[0x30])), Err(IsoTpError::UnexpectedFrame)));
}

#[test]
fn first_frames_announce_the_length() {
    let mut node = IsoTpNode::new(A, B);
    let payload = [7u8; 0x123];
    assert_eq!(node.send(&payload).unwrap(), [0x11, 0x23, 7, 7, 7, 7, 7, 7]);
    // Before the frame is queued there is no session.
    assert!(matches!(node.receive(&frame(B, &[0x30])), Err(IsoTpError::UnexpectedFrame)));
    assert!(node.send_result(true).is_ok());
    assert!(matches!(node.receive(&frame(B, &[0x31])), Ok(IsoTpStep::Done(None))));
    assert!(matches!(node.receive(&frame(B, &[0x32])), Err(IsoTpError::UnexpectedFlowStatus)));
    match node.receive(&frame(B, &[0x30])) {
        Ok(IsoTpStep::Consecutive(f)) => assert_eq!(f, [0x21, 7, 7, 7, 7, 7, 7, 7]),
        other => panic!("{:?}", other),
    }
}

#[test]
fn payloads_beyond_the_maximum_are_refused() {
    let mut node = IsoTpNode::new(A, B);
    assert!(node.send(&[0; 4095]).is_ok());
    assert!(matches!(node.send(&[0; 4096]), Err(IsoTpError::FrameTooLarge)));
}

#[test]
fn bytes_beyond_the_announced_length_are_left_out() {
    let mut node = IsoTpNode::new(B, A);
    node.receive(&frame(A, &[0x10, 9, 1, 2, 3, 4, 5, 6])).unwrap();
    let last = frame(A, &[0x21, 7, 8, 9, 0xaa, 0xaa, 0xaa, 0xaa]);
    assert_eq!(complete(node.receive(&last)), (1..=9).collect::<Vec<u8>>());
    // The session is over.
    assert!(matches!(node.receive(&last), Err(IsoTpError::UnexpectedFrame)));
    // A first frame that announces less than it carries.
    node.receive(&frame(A, &[0x10, 2, 1, 2, 3, 4, 5, 6])).unwrap();
    assert_eq!(complete(node.receive(&frame(A, &[0x21, 7]))), vec![1, 2]);
}

#[test]
fn frames_that_cannot_be_queued_are_reported() {
    let mut node = IsoTpNode::new(A, B);
    node.send(&[1; 20]).unwrap();
    assert!(matches!(node.send_result(false), Err(IsoTpError::CanTransmitError)));
    assert!(matches!(node.receive(&frame(B, &[0x30])), Err(IsoTpError::UnexpectedFrame)));
    assert!(matches!(node.flow_control_result(false), Err(IsoTpError::CanTransmitError)));

    node.send(&[1; 20]).unwrap();
    node.send_result(true).unwrap();
    let again = |node: &mut IsoTpNode| match node.receive(&frame(B, &[0x30])) {
        Ok(IsoTpStep::Consecutive(f)) => f,
        other => panic!("{:?}", other),
    };
    let f = again(&mut node);
    assert!(matches!(node.consecutive_result(false), Err(IsoTpError::CanTransmitError)));
    // The session stands where it was.
    assert_eq!(again(&mut node), f);
    assert_eq!(node.consecutive_result(true).unwrap(), Some([0x22, 1, 1, 1, 1, 1, 1, 1]));
    assert_eq!(node.consecutive_result(true).unwrap(), None);
}

#[test]
fn frames_out_of_order_are_refused() {
    let mut node = IsoTpNode::new(B, A);
    assert!(matches!(node.receive(&frame(A, &[0x21, 1])), Err(IsoTpError::UnexpectedFrame)));
    node.receive(&frame(A, &[0x10, 20, 1, 2, 3, 4, 5, 6])).unwrap();
    assert!(matches!(node.receive(&frame(A, &[0x22, 1])), Err(IsoTpError::UnexpectedFrame)));
    // The expected frame is still taken.
    assert!(matches!(
        node.receive(&frame(A, &[0x21, 7, 8, 9, 10, 11, 12, 13])),
        Ok(IsoTpStep::Done(Some(IsoTpMessage::InProgress)))
    ));
    assert_eq!(
        complete(node.receive(&frame(A, &[0x22, 14, 15, 16, 17, 18, 19, 20]))),
        (1..=20).collect::<Vec<u8>>()
    );
}

#[test]
fn other_frames_are_ignored() {
    let mut node = IsoTpNode::new(B, A);
    assert!(matches!(
        node.receive(&frame(Id::Extended(0x44), &[])),
        Err(IsoTpError::InvalidFrame)
    ));
    assert!(matches!(
        node.receive(&frame(Id::Standard(0x42), &[1, 1])),
        Err(IsoTpError::InvalidFrame)
    ));
    assert!(matches!(node.receive(&frame(A, &[0x40])), Err(IsoTpError::InvalidFrame)));
}

#[test]
fn identifiers_can_be_changed() {
    let mut node = IsoTpNode::new(A, B);
    node.set_tx_id(Id::Extended(1));
    node.set_rx_id(Id::Extended(2));
    assert_eq!(node.tx_id(), Id::Extended(1));
    assert_eq!(complete(node.receive(&frame(Id::Extended(2), &[1, 5]))), vec![5]);
    assert_eq!(complete(node.receive(&frame(Id::Extended(1), &[0]))), Vec::<u8>::new());
}
