//! Decisions of the MCP25xx CAN driver: what its registers say, how a frame is sent through
//! transmit buffer 0, and which received frames go up to the Cyphal stack.
use vstd::prelude::*;
use vstd::slice::slice_to_vec;
use crate::can_frame::{CanFrame, Id, MAX_EXTENDED_ID, MAX_FRAME_DATA};

verus! {

/// State of transmit buffer 0.
#[derive(Clone, Copy, Debug, PartialEq, Eq, Structural)]
pub struct TxBufferStatus {
    pub txreq: bool,
    pub txerr: bool,
    pub mloa: bool,
    pub abtf: bool,
    pub txif: bool,
}

/// Error state of the controller.
#[derive(Clone, Copy, Debug, PartialEq, Eq, Structural)]
pub struct ControllerStatus {
    pub txbo: bool,
    pub txep: bool,
    pub rxep: bool,
    pub txwar: bool,
    pub rxwar: bool,
    pub tec: u8,
    pub rec: u8,
    pub txb0: TxBufferStatus,
    pub tx0if: bool,
}

/// The flags of the EFLG register that the driver looks at.
#[derive(Clone, Copy, Debug, PartialEq, Eq, Structural)]
pub struct ErrorFlags {
    pub txbo: bool,
    pub txep: bool,
    pub rxep: bool,
    pub txwar: bool,
    pub rxwar: bool,
}

/// Whether the bit of weight `weight` is set.
pub open spec fn bit(raw: u8, weight: int) -> bool {
    raw as int / weight % 2 == 1
}

/// The getters of `mcp25xx::registers::EFLG`: bit 5 is `txbo`, 4 `txep`, 3 `rxep`, 2 `txwar`,
/// 1 `rxwar`.
#[verifier::external_body]
fn mcp25xx_eflg(raw: u8) -> (flags: ErrorFlags)
    ensures
        flags.txbo == bit(raw, 32),
        flags.txep == bit(raw, 16),
        flags.rxep == bit(raw, 8),
        flags.txwar == bit(raw, 4),
        flags.rxwar == bit(raw, 2),
{
    let eflg = mcp25xx::registers::EFLG::from(raw);
    ErrorFlags {
        txbo: eflg.txbo(),
        txep: eflg.txep(),
        rxep: eflg.rxep(),
        txwar: eflg.txwar(),
        rxwar: eflg.rxwar(),
    }
}

/// `mcp25xx::registers::CANINTF::tx0if`: bit 2.
#[verifier::external_body]
fn mcp25xx_canintf_tx0if(raw: u8) -> (tx0if: bool)
    ensures
        tx0if == bit(raw, 4),
{
    mcp25xx::registers::CANINTF::from(raw).tx0if()
}

/// The getters of `mcp25xx::registers::TXB0CTRL`: bit 3 is `txreq`, 4 `txerr`, 5 `mloa`,
/// 6 `abtf`. The flag `txif` is taken over.
#[verifier::external_body]
fn mcp25xx_txb0ctrl(raw: u8, txif: bool) -> (status: TxBufferStatus)
    ensures
        status.txreq == bit(raw, 8),
        status.txerr == bit(raw, 16),
        status.mloa == bit(raw, 32),
        status.abtf == bit(raw, 64),
        status.txif == txif,
{
    let txb = mcp25xx::registers::TXB0CTRL::from(raw);
    TxBufferStatus {
        txreq: txb.txreq(),
        txerr: txb.txerr(),
        mloa: txb.mloa(),
        abtf: txb.abtf(),
        txif,
    }
}

/// `mcp25xx::registers::CANCTRL::new` and `with_abat`: a register value in which at most bit 4
/// is set, as asked for.
#[verifier::external_body]
fn mcp25xx_canctrl_abat(abat: bool) -> (raw: u8)
    ensures
        raw == if abat { 0x10u8 } else { 0u8 },
{
    u8::from(mcp25xx::registers::CANCTRL::new().with_abat(abat))
}

/// The status of the controller, from the raw values of EFLG, TEC, REC, CANINTF and TXB0CTRL in
/// the order in which they are read. A register that could not be read makes it unknown.
pub fn controller_status(
    eflg: Option<u8>,
    tec: Option<u8>,
    rec: Option<u8>,
    canintf: Option<u8>,
    txb0ctrl: Option<u8>,
) -> (status: Option<ControllerStatus>)
    ensures
        status is Some <==> eflg is Some && tec is Some && rec is Some && canintf is Some
            && txb0ctrl is Some,
        status matches Some(s) ==> s == (ControllerStatus {
            txbo: bit(eflg->0, 32),
            txep: bit(eflg->0, 16),
            rxep: bit(eflg->0, 8),
            txwar: bit(eflg->0, 4),
            rxwar: bit(eflg->0, 2),
            tec: tec->0,
            rec: rec->0,
            txb0: TxBufferStatus {
                txreq: bit(txb0ctrl->0, 8),
                txerr: bit(txb0ctrl->0, 16),
                mloa: bit(txb0ctrl->0, 32),
                abtf: bit(txb0ctrl->0, 64),
                txif: bit(canintf->0, 4),
            },
            tx0if: bit(canintf->0, 4),
        }),
{
    match (eflg, tec, rec, canintf, txb0ctrl) {
        (Some(eflg), Some(tec), Some(rec), Some(canintf), Some(txb0ctrl)) => {
            let flags = mcp25xx_eflg(eflg);
            let tx0if = mcp25xx_canintf_tx0if(canintf);
            Some(
                ControllerStatus {
                    txbo: flags.txbo,
                    txep: flags.txep,
                    rxep: flags.rxep,
                    txwar: flags.txwar,
                    rxwar: flags.rxwar,
                    tec,
                    rec,
                    txb0: mcp25xx_txb0ctrl(txb0ctrl, tx0if),
                    tx0if,
                },
            )
        },
        _ => None,
    }
}

/// Whether transmit buffer 0 is in use, from the raw value of TXB0CTRL; it counts as busy when
/// the register could not be read.
pub fn txb0_busy(txb0ctrl: Option<u8>) -> (busy: bool)
    ensures
        busy == match txb0ctrl {
            Some(raw) => bit(raw, 8),
            None => true,
        },
{
    match txb0ctrl {
        Some(raw) => mcp25xx_txb0ctrl(raw, false).txreq,
        None => true,
    }
}

/// A register that the driver modifies.
#[derive(Clone, Copy, Debug, PartialEq, Eq, Structural)]
pub enum Register {
    CanCtrl,
    Txb0Ctrl,
    CanIntf,
}

/// A bit-modify instruction: the bits of `mask` are set as in `value`.
#[derive(Clone, Copy, Debug, PartialEq, Eq, Structural)]
pub struct RegisterModify {
    pub register: Register,
    pub value: u8,
    pub mask: u8,
}

/// Clears the completion flag of transmit buffer 0.
pub fn clear_tx0if() -> (m: RegisterModify)
    ensures
        m == (RegisterModify { register: Register::CanIntf, value: 0, mask: 4 }),
{
    RegisterModify { register: Register::CanIntf, value: 0, mask: 4 }
}

/// How pending transmissions are aborted: ask for it, clear the request and error bits of buffer
/// 0 and its completion flag, and end the request. Each step is tried only after the one before
/// it succeeded; the abort succeeded when all did.
pub fn abort_pending_transmissions() -> (steps: Vec<RegisterModify>)
    ensures
        steps@ == seq![
            RegisterModify { register: Register::CanCtrl, value: 0x10, mask: 0x10 },
            RegisterModify { register: Register::Txb0Ctrl, value: 0, mask: 0x78 },
            RegisterModify { register: Register::CanIntf, value: 0, mask: 0x04 },
            RegisterModify { register: Register::CanCtrl, value: 0, mask: 0x10 },
        ],
{
    let mut steps: Vec<RegisterModify> = Vec::new();
    steps.push(
        RegisterModify {
            register: Register::CanCtrl,
            value: mcp25xx_canctrl_abat(true),
            mask: 0x10,
        },
    );
    steps.push(RegisterModify { register: Register::Txb0Ctrl, value: 0, mask: 0x78 });
    steps.push(clear_tx0if());
    steps.push(
        RegisterModify {
            register: Register::CanCtrl,
            value: mcp25xx_canctrl_abat(false),
            mask: 0x10,
        },
    );
    proof {
        assert(steps@ =~= seq![
            RegisterModify { register: Register::CanCtrl, value: 0x10, mask: 0x10 },
            RegisterModify { register: Register::Txb0Ctrl, value: 0, mask: 0x78 },
            RegisterModify { register: Register::CanIntf, value: 0, mask: 0x04 },
            RegisterModify { register: Register::CanCtrl, value: 0, mask: 0x10 },
        ]);
    }
    steps
}

/// What went through the driver. All counters roll over.
#[derive(Clone, Copy, Debug, PartialEq, Eq, Structural)]
pub struct CanCounters {
    pub tx_attempts: u32,
    pub tx_ok: u32,
    pub tx_would_block: u32,
    pub rx_ok: u32,
    pub rx_would_block: u32,
}

/// What an attempt to transmit has just tried.
#[derive(Clone, Copy, Debug, PartialEq, Eq, Structural)]
pub enum TxStage {
    /// Whether the buffer is free.
    CheckFree,
    /// Loading the frame into the buffer.
    Load,
    /// Asking for the buffer to be sent.
    RequestToSend,
}

/// How an attempt to transmit goes on.
#[derive(Clone, Copy, Debug, PartialEq, Eq, Structural)]
pub enum TxNext {
    /// The frame cannot be sent now.
    WouldBlock,
    /// Clear the stale completion flag, then load the frame.
    ClearFlagAndLoad,
    /// Ask for the buffer to be sent.
    RequestToSend,
    /// The frame is on its way.
    Sent,
}

/// `n + 1`, rolling over.
pub open spec fn inc_u32(n: u32) -> u32 {
    if n == u32::MAX { 0 } else { (n + 1) as u32 }
}

/// Whether a frame can be handed to the controller at all.
pub open spec fn frame_fits(id: u32, data: Seq<u8>) -> bool {
    id <= MAX_EXTENDED_ID && data.len() <= MAX_FRAME_DATA
}

/// Counters after an attempt to transmit has begun.
pub open spec fn after_begin(c: CanCounters, fits: bool) -> CanCounters {
    CanCounters {
        tx_attempts: inc_u32(c.tx_attempts),
        tx_would_block: if fits { c.tx_would_block } else { inc_u32(c.tx_would_block) },
        ..c
    }
}

/// Counters after a stage of an attempt to transmit.
pub open spec fn after_stage(c: CanCounters, stage: TxStage, ok: bool) -> CanCounters {
    CanCounters {
        tx_ok: if ok && stage == TxStage::RequestToSend { inc_u32(c.tx_ok) } else { c.tx_ok },
        tx_would_block: if ok { c.tx_would_block } else { inc_u32(c.tx_would_block) },
        ..c
    }
}

/// A frame for the Cyphal stack.
#[derive(Debug)]
pub struct CyphalFrame {
    pub timestamp: u32,
    pub id: u32,
    pub data: Vec<u8>,
}

/// The Cyphal frame in a received CAN frame. Cyphal uses extended identifiers only.
pub fn convert_incoming(frame: &CanFrame, timestamp: u32) -> (r: Option<CyphalFrame>)
    ensures
        r is Some <==> (frame.id matches Id::Extended(id) && id <= MAX_EXTENDED_ID),
        r matches Some(f) ==> f.timestamp == timestamp && frame.id == Id::Extended(f.id)
            && f.data@ == frame.data@,
{
    match frame.id {
        Id::Extended(id) => match canadensis_can_id(id) {
            Some(id) => Some(
                CyphalFrame { timestamp, id, data: slice_to_vec(frame.data.as_slice()) },
            ),
            None => None,
        },
        Id::Standard(_) => None,
    }
}

/// `canadensis_can::CanId::try_from`: accepts what fits 29 bits.
#[verifier::external_body]
fn canadensis_can_id(raw: u32) -> (id: Option<u32>)
    ensures
        id == if raw <= 0x1FFF_FFFF { Some(raw) } else { None::<u32> },
{
    canadensis_can::CanId::try_from(raw).ok().map(u32::from)
}

impl CanCounters {
    /// Nothing has been counted yet.
    pub fn new() -> (c: CanCounters)
        ensures
            c == (CanCounters {
                tx_attempts: 0,
                tx_ok: 0,
                tx_would_block: 0,
                rx_ok: 0,
                rx_would_block: 0,
            }),
    {
        CanCounters { tx_attempts: 0, tx_ok: 0, tx_would_block: 0, rx_ok: 0, rx_would_block: 0 }
    }

    /// Begins an attempt to transmit. Returns the frame to load once the buffer is free, or
    /// `None` where the attempt already failed.
    pub fn transmit_begin(&mut self, id: u32, data: &[u8]) -> (frame: Option<CanFrame>)
        ensures
            frame is Some <==> frame_fits(id, data@),
            frame matches Some(f) ==> f.id == Id::Extended(id) && !f.remote && f.data@ == data@,
            *final(self) == after_begin(*old(self), frame_fits(id, data@)),
    {
        self.tx_attempts = self.tx_attempts.wrapping_add(1);
        let frame = CanFrame::extended(id, data);
        if frame.is_none() {
            self.tx_would_block = self.tx_would_block.wrapping_add(1);
        }
        frame
    }

    /// Takes in how a stage of the attempt went.
    pub fn transmit_step(&mut self, stage: TxStage, ok: bool) -> (next: TxNext)
        ensures
            *final(self) == after_stage(*old(self), stage, ok),
            next == if !ok {
                TxNext::WouldBlock
            } else {
                match stage {
                    TxStage::CheckFree => TxNext::ClearFlagAndLoad,
                    TxStage::Load => TxNext::RequestToSend,
                    TxStage::RequestToSend => TxNext::Sent,
                }
            },
    {
        if !ok {
            self.tx_would_block = self.tx_would_block.wrapping_add(1);
            return TxNext::WouldBlock;
        }
        match stage {
            TxStage::CheckFree => TxNext::ClearFlagAndLoad,
            TxStage::Load => TxNext::RequestToSend,
            TxStage::RequestToSend => {
                self.tx_ok = self.tx_ok.wrapping_add(1);
                TxNext::Sent
            },
        }
    }

    /// Takes in what the controller received, if anything, and returns the frame to hand up.
    pub fn receive(&mut self, received: Option<&CanFrame>, timestamp: u32) -> (r: Option<
        CyphalFrame,
    >)
        ensures
            r is Some <==> (received is Some && (received->0.id matches Id::Extended(id) && id
                <= MAX_EXTENDED_ID)),
            r matches Some(f) ==> f.timestamp == timestamp && received->0.id == Id::Extended(f.id)
                && f.data@ == received->0.data@,
            *final(self) == if r is Some {
                CanCounters { rx_ok: inc_u32(old(self).rx_ok), ..*old(self) }
            } else {
                CanCounters { rx_would_block: inc_u32(old(self).rx_would_block), ..*old(self) }
            },
    {
        let converted = match received {
            Some(frame) => convert_incoming(frame, timestamp),
            None => None,
        };
        if converted.is_some() {
            self.rx_ok = self.rx_ok.wrapping_add(1);
        } else {
            self.rx_would_block = self.rx_would_block.wrapping_add(1);
        }
        converted
    }
}

/// Counters after a whole attempt to transmit in which the stages went as given.
pub open spec fn after_attempt(
    c: CanCounters,
    fits: bool,
    free: bool,
    loaded: bool,
    requested: bool,
) -> CanCounters {
    let begun = after_begin(c, fits);
    if !fits {
        begun
    } else if !free {
        after_stage(begun, TxStage::CheckFree, false)
    } else {
        let checked = after_stage(begun, TxStage::CheckFree, true);
        if !loaded {
            after_stage(checked, TxStage::Load, false)
        } else {
            after_stage(after_stage(checked, TxStage::Load, true), TxStage::RequestToSend, requested)
        }
    }
}

/// Whether every attempt to transmit is accounted for, up to rolling over.
pub open spec fn attempts_balanced(c: CanCounters) -> bool {
    c.tx_attempts as int % 0x1_0000_0000 == (c.tx_ok + c.tx_would_block) % 0x1_0000_0000
}

/// Every attempt to transmit is counted once more, as sent or as blocked, whatever happens in
/// it; and it counts as sent exactly when every stage succeeded.
pub proof fn law_every_attempt_is_counted_once(
    c: CanCounters,
    fits: bool,
    free: bool,
    loaded: bool,
    requested: bool,
)
    requires
        attempts_balanced(c),
    ensures
        attempts_balanced(after_attempt(c, fits, free, loaded, requested)),
        after_attempt(c, fits, free, loaded, requested).tx_ok == if fits && free && loaded
            && requested {
            inc_u32(c.tx_ok)
        } else {
            c.tx_ok
        },
{
}

/// A bit is set exactly if masking leaves something of it.
pub proof fn law_bits_are_those_of_the_mask(raw: u8)
    ensures
        bit(raw, 2) <==> raw & 0x02 != 0,
        bit(raw, 4) <==> raw & 0x04 != 0,
        bit(raw, 8) <==> raw & 0x08 != 0,
        bit(raw, 16) <==> raw & 0x10 != 0,
        bit(raw, 32) <==> raw & 0x20 != 0,
        bit(raw, 64) <==> raw & 0x40 != 0,
{
    assert((raw / 2 % 2 == 1) == (raw & 0x02 != 0) && (raw / 4 % 2 == 1) == (raw & 0x04 != 0)
        && (raw / 8 % 2 == 1) == (raw & 0x08 != 0) && (raw / 16 % 2 == 1) == (raw & 0x10 != 0)
        && (raw / 32 % 2 == 1) == (raw & 0x20 != 0) && (raw / 64 % 2 == 1) == (raw & 0x40 != 0))
        by (bit_vector);
}

/// Counters count modulo 2^32.
pub proof fn law_counters_roll_over(n: u32)
    ensures
        inc_u32(n) == (n + 1) % 0x1_0000_0000,
{
}

/// A frame fits with an identifier of 29 bits and at most eight bytes.
pub proof fn law_frames_that_fit(id: u32, data: Seq<u8>)
    ensures
        frame_fits(id, data) <==> id < 0x2000_0000 && data.len() <= 8,
{
}

/// An attempt is counted when it begins, as blocked whenever it fails, and as sent once the last
/// of its stages succeeds; what was received does not change.
pub proof fn law_attempts_are_counted(c: CanCounters, fits: bool, stage: TxStage, ok: bool)
    ensures
        ({
            let begun = after_begin(c, fits);
            &&& begun.tx_attempts == (c.tx_attempts + 1) % 0x1_0000_0000
            &&& begun.tx_would_block == (c.tx_would_block + if fits { 0int } else { 1 })
                % 0x1_0000_0000
            &&& begun.tx_ok == c.tx_ok && begun.rx_ok == c.rx_ok && begun.rx_would_block
                == c.rx_would_block
        }),
        ({
            let done = after_stage(c, stage, ok);
            &&& done.tx_attempts == c.tx_attempts
            &&& done.tx_would_block == (c.tx_would_block + if ok { 0int } else { 1 })
                % 0x1_0000_0000
            &&& done.tx_ok == (c.tx_ok + if ok && stage is RequestToSend { 1int } else { 0 })
                % 0x1_0000_0000
            &&& done.rx_ok == c.rx_ok && done.rx_would_block == c.rx_would_block
        }),
{
}

} // verus!
