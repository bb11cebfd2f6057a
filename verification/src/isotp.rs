//! ISO-TP (ISO 15765-2) segmentation, reassembly and basic flow control (CTS only).
//!
//! The node never touches the bus. `send` and `receive` say which frame is to be queued next,
//! and the `*_result` functions take in whether the queue accepted it.
use vstd::prelude::*;
use vstd::slice::slice_subrange;
use vstd::slice::slice_to_vec;
use crate::byte_buf::ByteBuf;
use crate::can_frame::{CanFrame, Id};

verus! {

pub const MAX_SINGLE_FRAME_DATA: usize = 7;
pub const MAX_FIRST_FRAME_DATA: usize = 6;
pub const MAX_CONSECUTIVE_FRAME_DATA: usize = 7;
/// The largest payload that a first frame can announce.
pub const MAX_PAYLOAD_SIZE: usize = 4095;

/// Why a payload or a frame was turned down.
#[derive(Clone, Copy, Debug, PartialEq, Eq, Structural)]
pub enum IsoTpError {
    FrameTooLarge,
    InvalidFrame,
    UnexpectedFrame,
    CanTransmitError,
    UnexpectedFlowStatus,
}

/// Progress of a reception.
#[derive(Debug)]
pub enum IsoTpMessage {
    /// A complete reassembled payload
    Complete(Vec<u8>),
    /// More segments are still coming
    InProgress,
}

/// What is to be done after a received frame was taken in.
#[derive(Debug)]
pub enum IsoTpStep {
    /// Nothing is to be sent.
    Done(Option<IsoTpMessage>),
    /// Queue this flow control frame, then call `flow_control_result`.
    FlowControl([u8; 8]),
    /// Queue this consecutive frame, then call `consecutive_result`.
    Consecutive([u8; 8]),
}

/// Model of a reception under way.
pub struct RxState {
    pub buffer: Seq<u8>,
    pub expected: int,
    pub total: int,
}

/// Model of a transmission under way: the payload, how much of it was sent, and the next
/// sequence number.
pub struct TxState {
    pub payload: Seq<u8>,
    pub offset: int,
    pub sn: int,
}

/// Model of an [`IsoTpNode`].
pub struct IsoTpState {
    pub tx_id: Id,
    pub rx_id: Id,
    pub rx: Option<RxState>,
    pub tx: Option<TxState>,
    /// The transmission that begins once the first frame has been queued.
    pub pending: Option<TxState>,
}

/// Model of what a received data frame leads to.
pub enum RxOutcome {
    Complete(Seq<u8>),
    InProgress,
    FlowControl,
    Error(IsoTpError),
}

/// `head` followed by zeros up to eight bytes.
pub open spec fn pad8(head: Seq<u8>) -> Seq<u8> {
    Seq::new(8, |i: int| if i < head.len() { head[i] } else { 0u8 })
}

pub open spec fn single_frame(payload: Seq<u8>) -> Seq<u8> {
    pad8(seq![payload.len() as u8] + payload)
}

pub open spec fn first_frame(payload: Seq<u8>) -> Seq<u8> {
    seq![(0x10 + payload.len() / 256) as u8, (payload.len() % 256) as u8] + payload.take(6)
}

pub open spec fn flow_control_frame() -> Seq<u8> {
    pad8(seq![0x30u8])
}

pub open spec fn min_int(a: int, b: int) -> int {
    if a < b { a } else { b }
}

impl TxState {
    /// The transmission of `payload` right after its first frame.
    pub open spec fn start(payload: Seq<u8>) -> TxState {
        TxState { payload, offset: 6, sn: 1 }
    }

    pub open spec fn wf(self) -> bool {
        &&& 8 <= self.payload.len() <= MAX_PAYLOAD_SIZE
        &&& 6 <= self.offset < self.payload.len()
        &&& 0 <= self.sn < 16
    }

    /// The number of payload bytes in the next consecutive frame.
    pub open spec fn chunk(self) -> int {
        min_int(7, self.payload.len() - self.offset)
    }

    /// The next consecutive frame.
    pub open spec fn frame(self) -> Seq<u8> {
        pad8(
            seq![(0x20 + self.sn) as u8]
                + self.payload.subrange(self.offset, self.offset + self.chunk()),
        )
    }

    /// The transmission after that frame was queued; `None` once the payload is through.
    pub open spec fn advance(self) -> Option<TxState> {
        if self.offset + self.chunk() < self.payload.len() {
            Some(TxState {
                payload: self.payload,
                offset: self.offset + self.chunk(),
                sn: (self.sn + 1) % 16,
            })
        } else {
            None
        }
    }

    /// All consecutive frames still to come, in order.
    pub open spec fn frames(self) -> Seq<Seq<u8>>
        decreases self.payload.len() - self.offset,
    {
        if 0 <= self.offset < self.payload.len() {
            match self.advance() {
                Some(next) => seq![self.frame()] + next.frames(),
                None => seq![self.frame()],
            }
        } else {
            Seq::empty()
        }
    }
}

impl RxState {
    pub open spec fn wf(self) -> bool {
        &&& self.buffer.len() <= self.total <= MAX_PAYLOAD_SIZE
        &&& 0 <= self.expected < 16
    }
}

impl IsoTpState {
    pub open spec fn wf(self) -> bool {
        &&& self.rx matches Some(rx) ==> rx.wf()
        &&& self.tx matches Some(tx) ==> tx.wf()
        &&& self.pending matches Some(tx) ==> tx.wf()
    }
}

/// Whether the bytes that the frame's own header calls for are there.
pub open spec fn frame_is_whole(data: Seq<u8>) -> bool {
    &&& data.len() >= 1
    &&& data[0] < 0x10 ==> data.len() >= 1 + data[0]
    &&& 0x10 <= data[0] < 0x20 ==> data.len() >= 8
}

/// The bytes of `data` that belong to a payload of which `missing` bytes are missing: what goes
/// beyond its announced length fills up the frame.
pub open spec fn payload_part(data: Seq<u8>, missing: int) -> Seq<u8> {
    data.take(min_int(data.len() as int, missing))
}

/// Reassembly: how a single, first or consecutive frame changes the reception under way.
pub open spec fn rx_step(rx: Option<RxState>, data: Seq<u8>) -> (Option<RxState>, RxOutcome) {
    if data[0] < 0x10 {
        (None, RxOutcome::Complete(data.subrange(1, 1 + data[0])))
    } else if data[0] < 0x20 {
        let total = (data[0] - 0x10) * 256 + data[1];
        (
            Some(RxState { buffer: payload_part(data.subrange(2, 8), total), expected: 1, total }),
            RxOutcome::FlowControl,
        )
    } else {
        match rx {
            None => (None, RxOutcome::Error(IsoTpError::UnexpectedFrame)),
            Some(s) => if data[0] - 0x20 != s.expected {
                (rx, RxOutcome::Error(IsoTpError::UnexpectedFrame))
            } else {
                let buffer = s.buffer + payload_part(data.skip(1), s.total - s.buffer.len());
                if buffer.len() == s.total {
                    (None, RxOutcome::Complete(buffer))
                } else {
                    (
                        Some(RxState { buffer, expected: (s.expected + 1) % 16, total: s.total }),
                        RxOutcome::InProgress,
                    )
                }
            },
        }
    }
}

/// What the receiver reports for each of `frames`, taken in order.
pub open spec fn deliver(rx: Option<RxState>, frames: Seq<Seq<u8>>) -> Seq<RxOutcome>
    decreases frames.len(),
{
    if frames.len() == 0 {
        Seq::empty()
    } else {
        let (next, outcome) = rx_step(rx, frames[0]);
        seq![outcome] + deliver(next, frames.skip(1))
    }
}

/// The data frames that carry `payload`, in order.
pub open spec fn transfer_frames(payload: Seq<u8>) -> Seq<Seq<u8>> {
    if payload.len() <= MAX_SINGLE_FRAME_DATA {
        seq![single_frame(payload)]
    } else {
        seq![first_frame(payload)] + TxState::start(payload).frames()
    }
}

struct RxSession {
    buffer: ByteBuf,
    expected: u8,
    total: usize,
}

struct TxSession {
    buffer: ByteBuf,
    offset: usize,
    sn: u8,
}

impl RxSession {
    spec fn state(&self) -> RxState {
        RxState { buffer: self.buffer@, expected: self.expected as int, total: self.total as int }
    }
}

impl TxSession {
    spec fn state(&self) -> TxState {
        TxState { payload: self.buffer@, offset: self.offset as int, sn: self.sn as int }
    }

    fn next_frame(&self) -> (frame: [u8; 8])
        requires
            self.state().wf(),
        ensures
            frame@ == self.state().frame(),
    {
        let payload = self.buffer.as_slice();
        let left: usize = payload.len() - self.offset;
        let chunk: usize = if left < MAX_CONSECUTIVE_FRAME_DATA {
            left
        } else {
            MAX_CONSECUTIVE_FRAME_DATA
        };
        let mut head: Vec<u8> = Vec::new();
        head.push(0x20 + self.sn);
        head.extend_from_slice(slice_subrange(payload, self.offset, self.offset + chunk));
        proof {
            assert(head@ =~= seq![(0x20 + self.sn) as u8] + self.buffer@.subrange(
                self.offset as int,
                self.offset + self.state().chunk(),
            ));
        }
        padded_frame(head.as_slice())
    }
}

/// The part of `data` that belongs to a payload of which `missing` bytes are missing.
fn first_bytes(data: &[u8], missing: usize) -> (part: &[u8])
    ensures
        part@ == payload_part(data@, missing as int),
{
    let n: usize = if data.len() < missing {
        data.len()
    } else {
        missing
    };
    slice_subrange(data, 0, n)
}

/// `head` in a frame of eight bytes, zeros behind it.
fn padded_frame(head: &[u8]) -> (frame: [u8; 8])
    requires
        head@.len() <= 8,
    ensures
        frame@ == pad8(head@),
{
    let mut frame: [u8; 8] = [0u8; 8];
    let mut i: usize = 0;
    while i < head.len()
        invariant
            i <= head@.len() <= 8,
            forall|j: int| 0 <= j < 8 ==> frame@[j] == if j < i { head@[j] } else { 0u8 },
        decreases head@.len() - i,
    {
        frame[i] = head[i];
        i += 1;
    }
    proof {
        assert(frame@ =~= pad8(head@));
    }
    frame
}

/// ISO-TP endpoint with a single RX and a single TX session.
pub struct IsoTpNode {
    tx_id: Id,
    rx_id: Id,
    rx_session: Option<RxSession>,
    tx_session: Option<TxSession>,
    pending: Option<TxSession>,
}

impl View for IsoTpNode {
    type V = IsoTpState;

    closed spec fn view(&self) -> IsoTpState {
        IsoTpState {
            tx_id: self.tx_id,
            rx_id: self.rx_id,
            rx: match self.rx_session {
                Some(s) => Some(s.state()),
                None => None,
            },
            tx: match self.tx_session {
                Some(s) => Some(s.state()),
                None => None,
            },
            pending: match self.pending {
                Some(s) => Some(s.state()),
                None => None,
            },
        }
    }
}

/// Whether `step` is what the outcome of a data frame asks for.
pub open spec fn step_matches(r: Result<IsoTpStep, IsoTpError>, outcome: RxOutcome) -> bool {
    match outcome {
        RxOutcome::Complete(bytes) => r matches Ok(IsoTpStep::Done(Some(IsoTpMessage::Complete(v))))
            && v@ == bytes,
        RxOutcome::InProgress => r == Ok::<IsoTpStep, IsoTpError>(
            IsoTpStep::Done(Some(IsoTpMessage::InProgress)),
        ),
        RxOutcome::FlowControl => r matches Ok(IsoTpStep::FlowControl(f)) && f@
            == flow_control_frame(),
        RxOutcome::Error(e) => r == Err::<IsoTpStep, IsoTpError>(e),
    }
}

/// What a frame does to a node in state `s`: the state afterwards and the result.
pub open spec fn received(
    s: IsoTpState,
    id: Id,
    data: Seq<u8>,
    after: IsoTpState,
    r: Result<IsoTpStep, IsoTpError>,
) -> bool {
    if id != s.rx_id && id != s.tx_id {
        r == Err::<IsoTpStep, IsoTpError>(IsoTpError::InvalidFrame) && after == s
    } else if data[0] < 0x30 {
        step_matches(r, rx_step(s.rx, data).1) && after == (IsoTpState {
            rx: rx_step(s.rx, data).0,
            ..s
        })
    } else if data[0] >= 0x40 {
        r == Err::<IsoTpStep, IsoTpError>(IsoTpError::InvalidFrame) && after == s
    } else {
        &&& after == s
        &&& match s.tx {
            None => r == Err::<IsoTpStep, IsoTpError>(IsoTpError::UnexpectedFrame),
            Some(tx) => if data[0] == 0x30 {
                r matches Ok(IsoTpStep::Consecutive(f)) && f@ == tx.frame()
            } else if data[0] == 0x31 {
                r == Ok::<IsoTpStep, IsoTpError>(IsoTpStep::Done(None))
            } else {
                r == Err::<IsoTpStep, IsoTpError>(IsoTpError::UnexpectedFlowStatus)
            },
        }
    }
}

/// What remains to be done about a payload that is handed to a node in state `s`.
pub open spec fn sending(
    s: IsoTpState,
    payload: Seq<u8>,
    after: IsoTpState,
    r: Result<[u8; 8], IsoTpError>,
) -> bool {
    &&& r is Err <==> payload.len() > MAX_PAYLOAD_SIZE
    &&& r matches Err(e) ==> e == IsoTpError::FrameTooLarge
    &&& r matches Ok(frame) ==> frame@ == transfer_frames(payload)[0]
    &&& after == (IsoTpState {
        tx: None,
        pending: if MAX_SINGLE_FRAME_DATA < payload.len() <= MAX_PAYLOAD_SIZE {
            Some(TxState::start(payload))
        } else {
            None
        },
        ..s
    })
}

impl IsoTpNode {
    /// The buffers are those of the sessions and the sessions are consistent.
    pub closed spec fn wf(&self) -> bool {
        &&& self@.wf()
        &&& self.rx_session matches Some(s) ==> s.buffer.cap() == MAX_PAYLOAD_SIZE
        &&& self.tx_session matches Some(s) ==> s.buffer.cap() == MAX_PAYLOAD_SIZE
        &&& self.pending matches Some(s) ==> s.buffer.cap() == MAX_PAYLOAD_SIZE
    }

    /// Create a new ISO-TP node.
    /// `tx_id` is the CAN ID you send frames to.
    /// `rx_id` is the CAN ID you listen on for incoming frames.
    pub fn new(tx_id: Id, rx_id: Id) -> (node: IsoTpNode)
        ensures
            node.wf(),
            node@ == (IsoTpState { tx_id, rx_id, rx: None, tx: None, pending: None }),
    {
        IsoTpNode { tx_id, rx_id, rx_session: None, tx_session: None, pending: None }
    }

    /// Change the transmit CAN ID.
    pub fn set_tx_id(&mut self, id: Id)
        requires
            old(self).wf(),
        ensures
            final(self).wf(),
            final(self)@ == (IsoTpState { tx_id: id, ..old(self)@ }),
    {
        self.tx_id = id;
    }

    /// Change the receive CAN ID.
    pub fn set_rx_id(&mut self, id: Id)
        requires
            old(self).wf(),
        ensures
            final(self).wf(),
            final(self)@ == (IsoTpState { rx_id: id, ..old(self)@ }),
    {
        self.rx_id = id;
    }

    /// The CAN ID that frames are sent to.
    pub fn tx_id(&self) -> (id: Id)
        ensures
            id == self@.tx_id,
    {
        self.tx_id
    }

    /// The CAN ID that is listened on.
    pub fn rx_id(&self) -> (id: Id)
        ensures
            id == self@.rx_id,
    {
        self.rx_id
    }

    /// Send a payload; single-frame or segmented. Clears any previous TX session and returns
    /// the frame to queue for `tx_id`; report the outcome to `send_result`.
    pub fn send(&mut self, data: &[u8]) -> (r: Result<[u8; 8], IsoTpError>)
        requires
            old(self).wf(),
        ensures
            final(self).wf(),
            sending(old(self)@, data@, final(self)@, r),
            r is Ok <==> data@.len() <= 4095,
            data@.len() <= 7 ==> (r matches Ok(f) && f@[0] == data@.len() && forall|j: int|
                0 <= j < 7 ==> #[trigger] f@[1 + j] == if j < data@.len() { data@[j] } else { 0u8 }),
            7 < data@.len() <= 4095 ==> (r matches Ok(f) && f@[0] == 0x10 + data@.len() / 256
                && f@[1] == data@.len() % 256 && forall|j: int|
                0 <= j < 6 ==> #[trigger] f@[2 + j] == data@[j]),
    {
        self.tx_session = None;
        self.pending = None;
        let len: usize = data.len();
        if len > MAX_PAYLOAD_SIZE {
            return Err(IsoTpError::FrameTooLarge);
        }
        let mut head: Vec<u8> = Vec::new();
        if len <= MAX_SINGLE_FRAME_DATA {
            head.push(len as u8);
            head.extend_from_slice(data);
            proof {
                assert(head@ =~= seq![data@.len() as u8] + data@);
            }
            return Ok(padded_frame(head.as_slice()));
        }
        let buffer = match ByteBuf::from_slice::<MAX_PAYLOAD_SIZE>(data) {
            Some(buffer) => buffer,
            None => return Err(IsoTpError::FrameTooLarge),
        };
        self.pending = Some(TxSession { buffer, offset: MAX_FIRST_FRAME_DATA, sn: 1 });
        head.push((0x10 + len / 256) as u8);
        head.push((len % 256) as u8);
        head.extend_from_slice(slice_subrange(data, 0, MAX_FIRST_FRAME_DATA));
        proof {
            assert(head@ =~= first_frame(data@));
            assert(pad8(head@) =~= head@);
        }
        Ok(padded_frame(head.as_slice()))
    }

    /// Takes in whether the frame of `send` was queued. The TX session of a segmented payload
    /// begins only if it was.
    pub fn send_result(&mut self, sent: bool) -> (r: Result<(), IsoTpError>)
        requires
            old(self).wf(),
        ensures
            final(self).wf(),
            r == if sent { Ok(()) } else { Err::<(), IsoTpError>(IsoTpError::CanTransmitError) },
            final(self)@ == (IsoTpState {
                tx: if sent && old(self)@.pending is Some {
                    old(self)@.pending
                } else {
                    old(self)@.tx
                },
                pending: None,
                ..old(self)@
            }),
    {
        let session = self.pending.take();
        if sent {
            if session.is_some() {
                self.tx_session = session;
            }
            Ok(())
        } else {
            Err(IsoTpError::CanTransmitError)
        }
    }

    /// Process an incoming CAN frame.
    /// Ignores frames not matching `rx_id`/`tx_id`: they change nothing and are reported as
    /// `InvalidFrame`.
    pub fn receive(&mut self, frame: &CanFrame) -> (r: Result<IsoTpStep, IsoTpError>)
        requires
            old(self).wf(),
            frame.id == old(self)@.rx_id || frame.id == old(self)@.tx_id ==> frame_is_whole(
                frame.data@,
            ),
        ensures
            final(self).wf(),
            received(old(self)@, frame.id, frame.data@, final(self)@, r),
            r is Ok && 0x20 <= frame.data@[0] < 0x30 ==> (old(self)@.rx matches Some(before)
                && frame.data@[0] == 0x20 + before.expected && (final(self)@.rx matches Some(after)
                ==> after.expected == if before.expected == 15 { 0 } else { before.expected + 1 })),
    {
        if frame.id != self.rx_id && frame.id != self.tx_id {
            return Err(IsoTpError::InvalidFrame);
        }
        let data = frame.data.as_slice();
        let low: u8 = data[0] % 16;
        let kind: u8 = data[0] / 16;
        if kind == 0 {
            let len: usize = low as usize;
            self.rx_session = None;
            return Ok(
                IsoTpStep::Done(
                    Some(IsoTpMessage::Complete(slice_to_vec(slice_subrange(data, 1, 1 + len)))),
                ),
            );
        }
        if kind == 1 {
            let total: usize = (low as usize) * 256 + (data[1] as usize);
            let mut buffer = ByteBuf::new::<MAX_PAYLOAD_SIZE>();
            let part = first_bytes(slice_subrange(data, 2, 8), total);
            if !buffer.extend_from_slice(part) {
                return Err(IsoTpError::FrameTooLarge);
            }
            proof {
                assert(buffer@ =~= part@);
            }
            self.rx_session = Some(RxSession { buffer, expected: 1, total });
            let fc: [u8; 1] = [0x30u8];
            proof {
                assert(fc@ =~= seq![0x30u8]);
            }
            return Ok(IsoTpStep::FlowControl(padded_frame(&fc)));
        }
        if kind == 2 {
            let mut session = match self.rx_session.take() {
                Some(session) => session,
                None => return Err(IsoTpError::UnexpectedFrame),
            };
            if low != session.expected {
                self.rx_session = Some(session);
                return Err(IsoTpError::UnexpectedFrame);
            }
            session.expected = (session.expected + 1) % 16;
            let rest = slice_subrange(data, 1, data.len());
            proof {
                assert(rest@ =~= frame.data@.skip(1));
            }
            let missing: usize = session.total - session.buffer.len();
            if !session.buffer.extend_from_slice(first_bytes(rest, missing)) {
                self.rx_session = Some(session);
                return Err(IsoTpError::FrameTooLarge);
            }
            if session.buffer.len() >= session.total {
                let complete = slice_to_vec(session.buffer.as_slice());
                return Ok(IsoTpStep::Done(Some(IsoTpMessage::Complete(complete))));
            }
            self.rx_session = Some(session);
            return Ok(IsoTpStep::Done(Some(IsoTpMessage::InProgress)));
        }
        if kind == 3 {
            return match &self.tx_session {
                None => Err(IsoTpError::UnexpectedFrame),
                Some(session) => if low == 0 {
                    Ok(IsoTpStep::Consecutive(session.next_frame()))
                } else if low == 1 {
                    Ok(IsoTpStep::Done(None))
                } else {
                    Err(IsoTpError::UnexpectedFlowStatus)
                },
            };
        }
        Err(IsoTpError::InvalidFrame)
    }

    /// Takes in whether the flow control frame was queued. The RX session stands either way.
    pub fn flow_control_result(&self, sent: bool) -> (r: Result<Option<IsoTpMessage>, IsoTpError>)
        ensures
            r == if sent {
                Ok::<Option<IsoTpMessage>, IsoTpError>(Some(IsoTpMessage::InProgress))
            } else {
                Err(IsoTpError::CanTransmitError)
            },
    {
        if sent {
            Ok(Some(IsoTpMessage::InProgress))
        } else {
            Err(IsoTpError::CanTransmitError)
        }
    }

    /// Takes in whether a consecutive frame was queued, and returns the one after it; `None`
    /// once the payload is through. After a failure the session stands where it was.
    pub fn consecutive_result(&mut self, sent: bool) -> (r: Result<Option<[u8; 8]>, IsoTpError>)
        requires
            old(self).wf(),
            old(self)@.tx is Some,
        ensures
            final(self).wf(),
            r is Err <==> !sent,
            r matches Err(e) ==> e == IsoTpError::CanTransmitError,
            final(self)@ == (IsoTpState {
                tx: if sent { old(self)@.tx->0.advance() } else { old(self)@.tx },
                ..old(self)@
            }),
            r matches Ok(next) ==> match final(self)@.tx {
                Some(tx) => next matches Some(f) && f@ == tx.frame(),
                None => next is None,
            },
            r matches Ok(Some(f)) ==> {
                let before = old(self)@.tx->0;
                &&& f@[0] == 0x20 + if before.sn == 15 { 0 } else { before.sn + 1 }
                &&& before.offset + 7 < before.payload.len()
                &&& forall|j: int|
                    0 <= j < 7 ==> #[trigger] f@[1 + j] == if before.offset + 7 + j
                        < before.payload.len() {
                        before.payload[before.offset + 7 + j]
                    } else {
                        0u8
                    }
            },
    {
        if !sent {
            return Err(IsoTpError::CanTransmitError);
        }
        let mut session = match self.tx_session.take() {
            Some(session) => session,
            None => return Ok(None),
        };
        let left: usize = session.buffer.len() - session.offset;
        if left <= MAX_CONSECUTIVE_FRAME_DATA {
            return Ok(None);
        }
        session.offset = session.offset + MAX_CONSECUTIVE_FRAME_DATA;
        session.sn = (session.sn + 1) % 16;
        let frame = session.next_frame();
        self.tx_session = Some(session);
        Ok(Some(frame))
    }
}

proof fn lemma_deliver_consecutive(tx: TxState, rx: RxState)
    requires
        tx.wf(),
        rx.wf(),
        rx.buffer == tx.payload.take(tx.offset),
        rx.expected == tx.sn,
        rx.total == tx.payload.len(),
    ensures
        ({
            let out = deliver(Some(rx), tx.frames());
            &&& out.len() == tx.frames().len()
            &&& out.len() > 0
            &&& out.last() == RxOutcome::Complete(tx.payload)
            &&& forall|i: int| 0 <= i < out.len() - 1 ==> out[i] == RxOutcome::InProgress
        }),
    decreases tx.payload.len() - tx.offset,
{
    let chunk = tx.chunk();
    let frame = tx.frame();
    let frames = tx.frames();
    let body = tx.payload.subrange(tx.offset, tx.offset + chunk);
    assert(frame[0] == (0x20 + tx.sn) as u8);
    assert(frames[0] == frame);
    let (next_rx, outcome) = rx_step(Some(rx), frame);
    assert(payload_part(frame.skip(1), rx.total - rx.buffer.len()) =~= body);
    assert(rx.buffer + body =~= tx.payload.take(tx.offset + chunk));
    match tx.advance() {
        Some(next) => {
            assert(frames.skip(1) =~= next.frames());
            lemma_deliver_consecutive(next, next_rx->0);
        },
        None => {
            assert(frames.skip(1) =~= Seq::<Seq<u8>>::empty());
            assert(deliver(next_rx, frames.skip(1)) =~= Seq::<RxOutcome>::empty());
            assert(rx.buffer + body =~= tx.payload);
        },
    }
}

/// A payload that is cut into frames and delivered in order arrives as it was sent: the last
/// frame completes it, every frame before that one reports progress, and what arrives is exactly
/// the payload. Whatever reception was under way before is dropped.
pub proof fn law_transfer_delivers_payload(rx: Option<RxState>, payload: Seq<u8>)
    requires
        payload.len() <= MAX_PAYLOAD_SIZE,
    ensures
        ({
            let out = deliver(rx, transfer_frames(payload));
            &&& out.len() == transfer_frames(payload).len()
            &&& out.last() == RxOutcome::Complete(payload)
            &&& payload.len() > MAX_SINGLE_FRAME_DATA ==> out[0] == RxOutcome::FlowControl
            &&& forall|i: int| 1 <= i < out.len() - 1 ==> out[i] == RxOutcome::InProgress
        }),
{
    let frames = transfer_frames(payload);
    let (next, outcome) = rx_step(rx, frames[0]);
    if payload.len() <= MAX_SINGLE_FRAME_DATA {
        let frame = single_frame(payload);
        assert(frame.subrange(1, 1 + payload.len() as int) =~= payload);
        assert(deliver(next, frames.skip(1)) =~= Seq::<RxOutcome>::empty());
    } else {
        let frame = first_frame(payload);
        let tx = TxState::start(payload);
        assert((payload.len() as int) / 256 * 256 + (payload.len() as int) % 256 == payload.len());
        assert(payload_part(frame.subrange(2, 8), payload.len() as int) =~= payload.take(6));
        assert(frames.skip(1) =~= tx.frames());
        lemma_deliver_consecutive(tx, next->0);
    }
}

/// A transmission after `n` more of its frames were queued; `None` once the payload is through.
pub open spec fn tx_after(tx: TxState, n: nat) -> Option<TxState>
    decreases n,
{
    if n == 0 {
        Some(tx)
    } else {
        match tx.advance() {
            Some(next) => tx_after(next, (n - 1) as nat),
            None => None,
        }
    }
}

proof fn lemma_tx_frames(tx: TxState, n: nat)
    requires
        tx.wf(),
        n <= tx.frames().len(),
    ensures
        n < tx.frames().len() ==> (tx_after(tx, n) matches Some(t) && t.frame() == tx.frames()[n as int]),
        n == tx.frames().len() ==> tx_after(tx, n) is None,
    decreases n,
{
    match tx.advance() {
        Some(next) => {
            if n > 0 {
                lemma_tx_frames(next, (n - 1) as nat);
            }
        },
        None => {},
    }
}

/// A segmented transmission sends the frames that carry its payload: the frame after `n`
/// consecutive frames were queued is the next one of them, and after the last one the
/// transmission ends.
pub proof fn law_transmission_sends_the_frames(payload: Seq<u8>, n: nat)
    requires
        MAX_SINGLE_FRAME_DATA < payload.len() <= MAX_PAYLOAD_SIZE,
        n + 1 <= transfer_frames(payload).len(),
    ensures
        ({
            let tx = tx_after(TxState::start(payload), n);
            if n + 1 < transfer_frames(payload).len() {
                tx matches Some(t) && t.frame() == transfer_frames(payload)[n as int + 1]
            } else {
                tx is None
            }
        }),
{
    lemma_tx_frames(TxState::start(payload), n);
}

#[verifier::rlimit(40)]
proof fn lemma_frames_at(payload: Seq<u8>, m: int, i: int)
    requires
        7 < payload.len() <= 4095,
        0 <= m,
        0 <= i,
        6 + 7 * (m + i) < payload.len(),
    ensures
        ({
            let frames = (TxState { payload, offset: 6 + 7 * m, sn: (m + 1) % 16 }).frames();
            &&& frames.len() == (payload.len() - 7 * m) / 7
            &&& frames[i].len() == 8
            &&& frames[i][0] == 0x20 + (m + i + 1) % 16
            &&& forall|j: int|
                0 <= j < 7 ==> #[trigger] frames[i][1 + j] == if 6 + 7 * (m + i) + j
                    < payload.len() {
                    payload[6 + 7 * (m + i) + j]
                } else {
                    0u8
                }
        }),
    decreases payload.len() - 7 * m,
{
    let tx = TxState { payload, offset: 6 + 7 * m, sn: (m + 1) % 16 };
    let frames = tx.frames();
    if tx.offset + 7 < payload.len() {
        let next = TxState { payload, offset: 6 + 7 * (m + 1), sn: (m + 2) % 16 };
        assert(tx.advance() == Some(next));
        assert(frames == seq![tx.frame()] + next.frames());
        if i > 0 {
            lemma_frames_at(payload, m + 1, i - 1);
            assert(frames[i] == next.frames()[i - 1]);
            assert(m + 1 + (i - 1) == m + i);
        } else {
            lemma_frames_at(payload, m + 1, 0);
            assert(frames[0] == tx.frame());
        }
    } else {
        assert(tx.advance() is None);
        assert(frames == seq![tx.frame()]);
        assert(i == 0);
        assert(frames[0] == tx.frame());
    }
}

/// The frames of a payload on the wire. Up to 7 bytes go into one frame behind their number. More
/// of them are announced by a first frame with the 12-bit length and the first six bytes; behind
/// it, consecutive frame `k` begins with 0x20 plus `k` modulo 16 and holds the next seven bytes,
/// zeros where the payload has ended.
#[verifier::rlimit(40)]
pub proof fn law_wire_format(payload: Seq<u8>, k: int)
    requires
        payload.len() <= 4095,
    ensures
        ({
            let n = payload.len();
            let frames = transfer_frames(payload);
            &&& n <= 7 ==> {
                &&& frames.len() == 1
                &&& frames[0].len() == 8
                &&& frames[0][0] == n
                &&& forall|j: int|
                    0 <= j < 7 ==> #[trigger] frames[0][1 + j] == if j < n { payload[j] } else { 0u8 }
            }
            &&& n > 7 ==> {
                &&& frames.len() == 1 + n / 7
                &&& frames[0].len() == 8
                &&& frames[0][0] == 0x10 + n / 256
                &&& frames[0][1] == n % 256
                &&& forall|j: int| 0 <= j < 6 ==> #[trigger] frames[0][2 + j] == payload[j]
            }
            &&& n > 7 && 1 <= k <= n / 7 ==> {
                &&& frames[k].len() == 8
                &&& frames[k][0] == 0x20 + k % 16
                &&& forall|j: int|
                    0 <= j < 7 ==> #[trigger] frames[k][1 + j] == if 6 + 7 * (k - 1) + j < n {
                        payload[6 + 7 * (k - 1) + j]
                    } else {
                        0u8
                    }
            }
        }),
{
    if payload.len() > 7 {
        let frames = transfer_frames(payload);
        assert(TxState::start(payload) == TxState { payload, offset: 6, sn: 1 });
        lemma_frames_at(payload, 0, 0);
        if 1 <= k <= payload.len() / 7 {
            lemma_frames_at(payload, 0, k - 1);
            assert(frames[k] == TxState::start(payload).frames()[k - 1]);
        }
    }
}

/// A receiver that takes in frames of the wire format in order ends with exactly the payload, and
/// reports progress until then, whoever made the frames.
#[verifier::rlimit(40)]
pub proof fn law_wire_frames_deliver_the_payload(
    rx: Option<RxState>,
    frames: Seq<Seq<u8>>,
    payload: Seq<u8>,
)
    requires
        7 < payload.len() <= 4095,
        frames.len() == 1 + payload.len() / 7,
        forall|k: int| 0 <= k < frames.len() ==> (#[trigger] frames[k]).len() == 8,
        frames[0][0] == 0x10 + payload.len() / 256,
        frames[0][1] == payload.len() % 256,
        forall|j: int| 0 <= j < 6 ==> #[trigger] frames[0][2 + j] == payload[j],
        forall|k: int|
            1 <= k < frames.len() ==> (#[trigger] frames[k])[0] == 0x20 + k % 16,
        forall|k: int, j: int|
            1 <= k < frames.len() && 0 <= j < 7 ==> #[trigger] frames[k][1 + j] == if 6 + 7 * (k - 1)
                + j < payload.len() {
                payload[6 + 7 * (k - 1) + j]
            } else {
                0u8
            },
    ensures
        ({
            let out = deliver(rx, frames);
            &&& out.len() == frames.len()
            &&& out[0] == RxOutcome::FlowControl
            &&& forall|i: int| 1 <= i < out.len() - 1 ==> out[i] == RxOutcome::InProgress
            &&& out.last() == RxOutcome::Complete(payload)
        }),
{
    let made = transfer_frames(payload);
    law_wire_format(payload, 1);
    assert forall|k: int| 0 <= k < frames.len() implies #[trigger] frames[k] == made[k] by {
        law_wire_format(payload, k);
        assert forall|i: int| 0 <= i < 8 implies frames[k][i] == made[k][i] by {
            if k == 0 {
                if i >= 2 {
                    assert(frames[0][2 + (i - 2)] == made[0][2 + (i - 2)]);
                }
            } else if i >= 1 {
                assert(frames[k][1 + (i - 1)] == made[k][1 + (i - 1)]);
            }
        }
        assert(frames[k] =~= made[k]);
    }
    assert(frames =~= made);
    law_transfer_delivers_payload(rx, payload);
}

/// A payload in a single frame arrives as the bytes behind their number, whoever made the frame
/// and whatever fills it up.
pub proof fn law_single_frame_delivers_the_payload(
    rx: Option<RxState>,
    frame: Seq<u8>,
    payload: Seq<u8>,
)
    requires
        payload.len() <= 15,
        frame.len() >= 1 + payload.len(),
        frame[0] == payload.len(),
        forall|j: int| 0 <= j < payload.len() ==> #[trigger] frame[1 + j] == payload[j],
    ensures
        rx_step(rx, frame) == (None::<RxState>, RxOutcome::Complete(payload)),
{
    assert forall|j: int| 0 <= j < payload.len() implies frame.subrange(
        1,
        1 + payload.len() as int,
    )[j] == payload[j] by {
        assert(frame[1 + j] == payload[j]);
    }
    assert(frame.subrange(1, 1 + payload.len() as int) =~= payload);
}

/// A consecutive frame is taken only when it is the one that is expected; one that is not changes
/// nothing and is reported. Sequence numbers follow each other modulo 16.
pub proof fn law_only_the_expected_frame_is_taken(rx: Option<RxState>, data: Seq<u8>)
    requires
        data.len() >= 1,
        0x20 <= data[0] < 0x30,
        rx matches Some(s) ==> s.wf(),
    ensures
        rx is None || data[0] != 0x20 + rx->0.expected ==> rx_step(rx, data) == (
            rx,
            RxOutcome::Error(IsoTpError::UnexpectedFrame),
        ),
        rx is Some && data[0] == 0x20 + rx->0.expected ==> {
            let s = rx->0;
            let taken = if data.len() - 1 < s.total - s.buffer.len() {
                data.len() - 1
            } else {
                s.total - s.buffer.len()
            };
            match rx_step(rx, data) {
                (None, RxOutcome::Complete(bytes)) => {
                    &&& s.buffer.len() + taken == s.total
                    &&& bytes == s.buffer + data.subrange(1, 1 + taken)
                },
                (Some(t), RxOutcome::InProgress) => {
                    &&& s.buffer.len() + taken < s.total
                    &&& t.buffer == s.buffer + data.subrange(1, 1 + taken)
                    &&& t.total == s.total
                    &&& s.expected < 15 ==> t.expected == s.expected + 1
                    &&& s.expected == 15 ==> t.expected == 0
                },
                _ => false,
            }
        },
{
    if rx is Some {
        let s = rx->0;
        let taken = min_int(data.len() - 1, s.total - s.buffer.len());
        assert(payload_part(data.skip(1), s.total - s.buffer.len()) =~= data.subrange(
            1,
            1 + taken,
        ));
    }
}

/// A first frame begins a reception with the length that it announces in 12 bits and the bytes
/// that it carries, whatever was received before, and asks for flow control.
pub proof fn law_first_frame_begins_a_reception(rx: Option<RxState>, data: Seq<u8>)
    requires
        data.len() >= 8,
        0x10 <= data[0] < 0x20,
    ensures
        ({
            let total = (data[0] - 0x10) * 256 + data[1];
            &&& rx_step(rx, data).1 is FlowControl
            &&& rx_step(rx, data).0 matches Some(s)
            &&& s.total == total
            &&& s.expected == 1
            &&& total >= 6 ==> s.buffer == data.subrange(2, 8)
            &&& total < 6 ==> s.buffer == data.subrange(2, 2 + total)
        }),
{
    let total = (data[0] - 0x10) * 256 + data[1];
    if total >= 6 {
        assert(payload_part(data.subrange(2, 8), total) =~= data.subrange(2, 8));
    } else {
        assert(payload_part(data.subrange(2, 8), total) =~= data.subrange(2, 2 + total));
    }
}

/// What a node does about a frame. One with a foreign identifier or an unknown kind changes
/// nothing and is reported as invalid. A flow control frame needs a transmission: clear to send
/// goes on with it, wait does nothing, and any other status is reported; none of them changes the
/// state by itself. All other frames belong to the reception.
#[verifier::rlimit(40)]
pub proof fn law_frames_are_told_apart(
    s: IsoTpState,
    id: Id,
    data: Seq<u8>,
    after: IsoTpState,
    r: Result<IsoTpStep, IsoTpError>,
)
    requires
        received(s, id, data, after, r),
        data.len() >= 1,
    ensures
        after.tx == s.tx,
        after.pending == s.pending,
        after.tx_id == s.tx_id,
        after.rx_id == s.rx_id,
        (id != s.rx_id && id != s.tx_id) || data[0] >= 0x40 ==> after == s && r == Err::<
            IsoTpStep,
            IsoTpError,
        >(IsoTpError::InvalidFrame),
        (id == s.rx_id || id == s.tx_id) && data[0] < 0x30 ==> after.rx == rx_step(s.rx, data).0
            && match rx_step(s.rx, data).1 {
            RxOutcome::Complete(bytes) => r matches Ok(
                IsoTpStep::Done(Some(IsoTpMessage::Complete(v))),
            ) && v@ == bytes,
            RxOutcome::InProgress => r matches Ok(IsoTpStep::Done(Some(IsoTpMessage::InProgress))),
            RxOutcome::FlowControl => r matches Ok(IsoTpStep::FlowControl(f)) && f@ =~= seq![
                0x30u8,
                0u8,
                0u8,
                0u8,
                0u8,
                0u8,
                0u8,
                0u8,
            ],
            RxOutcome::Error(e) => r matches Err(reported) && reported == e,
        },
        (id == s.rx_id || id == s.tx_id) && 0x30 <= data[0] < 0x40 ==> after == s && match s.tx {
            None => r matches Err(e) && e == IsoTpError::UnexpectedFrame,
            Some(tx) => if data[0] == 0x30 {
                r matches Ok(IsoTpStep::Consecutive(f)) && f@ == tx.frame()
            } else if data[0] == 0x31 {
                r matches Ok(IsoTpStep::Done(None))
            } else {
                r matches Err(e) && e == IsoTpError::UnexpectedFlowStatus
            },
        },
{
}

/// Handing a payload to a node drops the transmission under way and leaves the reception alone. A
/// payload of more than 4095 bytes is refused; otherwise its first frame is sent, and a payload of
/// more than 7 bytes waits with its seventh byte for flow control.
pub proof fn law_sending_begins_a_transmission(
    s: IsoTpState,
    payload: Seq<u8>,
    after: IsoTpState,
    r: Result<[u8; 8], IsoTpError>,
)
    requires
        sending(s, payload, after, r),
    ensures
        after.rx == s.rx,
        after.tx_id == s.tx_id,
        after.rx_id == s.rx_id,
        after.tx is None,
        payload.len() > 4095 ==> after.pending is None && r == Err::<[u8; 8], IsoTpError>(
            IsoTpError::FrameTooLarge,
        ),
        payload.len() <= 7 ==> after.pending is None,
        7 < payload.len() <= 4095 ==> (after.pending matches Some(tx) && tx.payload == payload
            && tx.offset == 6 && tx.sn == 1),
        payload.len() <= 4095 ==> (r matches Ok(f) && f@ == transfer_frames(payload)[0]),
{
}

/// A transmission under way sends the bytes at which it stands, behind 0x20 plus its sequence
/// number, and stands seven bytes further afterwards, with the number that follows modulo 16; it
/// ends with the frame that holds the last byte.
pub proof fn law_transmission_moves_by_seven_bytes(tx: TxState)
    requires
        0 <= tx.offset < tx.payload.len(),
        0 <= tx.sn < 16,
    ensures
        tx.frame().len() == 8,
        tx.frame()[0] == 0x20 + tx.sn,
        forall|j: int|
            0 <= j < 7 ==> #[trigger] tx.frame()[1 + j] == if tx.offset + j < tx.payload.len() {
                tx.payload[tx.offset + j]
            } else {
                0u8
            },
        tx.payload.len() - tx.offset <= 7 ==> tx.advance() is None,
        tx.payload.len() - tx.offset > 7 ==> (tx.advance() matches Some(next) && next.payload
            == tx.payload && next.offset == tx.offset + 7 && if tx.sn == 15 {
            next.sn == 0
        } else {
            next.sn == tx.sn + 1
        }),
{
}

/// The bytes that a frame must have: its header, and as many as the header calls for.
pub proof fn law_whole_frames(data: Seq<u8>)
    ensures
        frame_is_whole(data) <==> data.len() > 0 && (data[0] < 16 ==> data.len() > data[0]) && (16
            <= data[0] < 32 ==> data.len() >= 8),
{
}

} // verus!
