//! Firmware updates over ISO-TP on CAN.
//!
//! [`CanFirmwareUpdater`] receives and sends the payloads; [`process_payload`] decides what a
//! payload asks for.
use vstd::prelude::*;
use vstd::slice::{slice_subrange, slice_to_vec};
use vstd::string::*;
use crate::byte_buf::ByteBuf;
use crate::bytes::{
    be16, be16_at, be16_bytes, be32, be32_at, be32_bytes, law_be32_is_read_back,
    law_big_endian_is_base_256, read_be16, read_be32,
};
use crate::can::{node_address, MyHandler};
use crate::can_consumer::{address, CanFrameConsumer};
use crate::can_frame::{CanFrame, Id, MAX_EXTENDED_ID};
use crate::text::lemma_ascii_len;
use crate::isotp::{
    frame_is_whole, received, sending, IsoTpError, IsoTpNode, IsoTpState, IsoTpStep,
};

verus! {

/// Longest payload that the updater sends.
pub const TX_MAX_SIZE: usize = 100;

/// Wait (ms) between marking an image and the reset that applies it.
pub const APPLY_RESET_MS: u64 = 100;

/// First byte of a payload.
#[derive(Clone, Copy, Debug, PartialEq, Eq, Structural)]
pub enum CanUpdaterCommandEnum {
    GetAttribute,
    GetAttributeResponse,
    SetAttribute,
    SetAttributeResponse,
    ImageBlock,
    ImageBlockResponse,
    ApplyImage,
}

/// An attribute that can be asked for.
#[derive(Clone, Copy, Debug, PartialEq, Eq, Structural)]
pub enum CanUpdaterAttribute {
    /// A string.
    ActiveFileVersion,
    /// A `u32`.
    FileOffset,
    /// A `u32`.
    FileSize,
}

/// Status of a response.
#[derive(Clone, Copy, Debug, PartialEq, Eq, Structural)]
pub enum CanUpdaterStatusEnum {
    Success,
    Failure,
    UnsupportedAttribute,
}

impl CanUpdaterCommandEnum {
    pub open spec fn code(self) -> u8 {
        match self {
            CanUpdaterCommandEnum::GetAttribute => 0,
            CanUpdaterCommandEnum::GetAttributeResponse => 1,
            CanUpdaterCommandEnum::SetAttribute => 2,
            CanUpdaterCommandEnum::SetAttributeResponse => 3,
            CanUpdaterCommandEnum::ImageBlock => 4,
            CanUpdaterCommandEnum::ImageBlockResponse => 5,
            CanUpdaterCommandEnum::ApplyImage => 6,
        }
    }

    /// The command with this code.
    pub fn from_code(code: u8) -> (c: Option<CanUpdaterCommandEnum>)
        ensures
            c is Some <==> code <= 6,
            c matches Some(c) ==> c.code() == code,
    {
        match code {
            0 => Some(CanUpdaterCommandEnum::GetAttribute),
            1 => Some(CanUpdaterCommandEnum::GetAttributeResponse),
            2 => Some(CanUpdaterCommandEnum::SetAttribute),
            3 => Some(CanUpdaterCommandEnum::SetAttributeResponse),
            4 => Some(CanUpdaterCommandEnum::ImageBlock),
            5 => Some(CanUpdaterCommandEnum::ImageBlockResponse),
            6 => Some(CanUpdaterCommandEnum::ApplyImage),
            _ => None,
        }
    }

    pub fn to_code(self) -> (code: u8)
        ensures
            code == self.code(),
    {
        match self {
            CanUpdaterCommandEnum::GetAttribute => 0,
            CanUpdaterCommandEnum::GetAttributeResponse => 1,
            CanUpdaterCommandEnum::SetAttribute => 2,
            CanUpdaterCommandEnum::SetAttributeResponse => 3,
            CanUpdaterCommandEnum::ImageBlock => 4,
            CanUpdaterCommandEnum::ImageBlockResponse => 5,
            CanUpdaterCommandEnum::ApplyImage => 6,
        }
    }
}

impl CanUpdaterAttribute {
    pub open spec fn code(self) -> u16 {
        match self {
            CanUpdaterAttribute::ActiveFileVersion => 0,
            CanUpdaterAttribute::FileOffset => 1,
            CanUpdaterAttribute::FileSize => 2,
        }
    }

    /// The attribute with this code.
    pub fn from_code(code: u16) -> (a: Option<CanUpdaterAttribute>)
        ensures
            a is Some <==> code <= 2,
            a matches Some(a) ==> a.code() == code,
    {
        match code {
            0 => Some(CanUpdaterAttribute::ActiveFileVersion),
            1 => Some(CanUpdaterAttribute::FileOffset),
            2 => Some(CanUpdaterAttribute::FileSize),
            _ => None,
        }
    }
}

impl CanUpdaterStatusEnum {
    pub open spec fn code(self) -> u8 {
        match self {
            CanUpdaterStatusEnum::Success => 0,
            CanUpdaterStatusEnum::Failure => 1,
            CanUpdaterStatusEnum::UnsupportedAttribute => 0x86,
        }
    }

    pub fn to_code(self) -> (code: u8)
        ensures
            code == self.code(),
    {
        match self {
            CanUpdaterStatusEnum::Success => 0,
            CanUpdaterStatusEnum::Failure => 1,
            CanUpdaterStatusEnum::UnsupportedAttribute => 0x86,
        }
    }
}

/// `slice_copy::copy`: copies as many elements as both slices hold, and returns their number.
#[verifier::external_body]
fn slice_copy_copy(dst: &mut [u8], src: &[u8]) -> (n: usize)
    ensures
        n == if old(dst)@.len() < src@.len() { old(dst)@.len() } else { src@.len() },
        final(dst)@ == src@.take(n as int) + old(dst)@.skip(n as int),
{
    slice_copy::copy(dst, src)
}

/// Whether both identifiers of an updater are extended identifiers.
pub open spec fn updater_addressable(node_id: u32, base_cmd_id: u8) -> bool {
    address(node_id, base_cmd_id as int % 32) < MAX_EXTENDED_ID
}

/// A handler that drives ISO-TP on a single tx/rx ID pair.
pub struct CanFirmwareUpdater {
    node: IsoTpNode,
    node_id: u32,
    base_cmd_id: u8,
}

impl CanFirmwareUpdater {
    pub closed spec fn iso_tp(&self) -> IsoTpState {
        self.node@
    }

    pub closed spec fn base(&self) -> u8 {
        self.base_cmd_id
    }

    pub closed spec fn listens_as(&self) -> u32 {
        self.node_id
    }

    /// The updater listens on the base command of its node, and responds on the next one.
    pub closed spec fn wf(&self) -> bool {
        &&& self.node.wf()
        &&& updater_addressable(self.node_id, self.base_cmd_id)
        &&& self.node@.rx_id == rx_address(self.node_id, self.base_cmd_id)
        &&& self.node@.tx_id == tx_address(self.node_id, self.base_cmd_id)
    }

    /// `node_id` is the node id the device listens on (e.g. 5).
    /// `base_cmd_id` is the base command id you listen on, and you respond on +1 (e.g. 2 (and 3)).
    pub fn new(node_id: u32, base_cmd_id: u8) -> (u: CanFirmwareUpdater)
        requires
            updater_addressable(node_id, base_cmd_id),
        ensures
            u.wf(),
            u.listens_as() == node_id,
            u.base() == base_cmd_id,
            u.iso_tp() == (IsoTpState {
                tx_id: tx_address(node_id, base_cmd_id),
                rx_id: rx_address(node_id, base_cmd_id),
                rx: None,
                tx: None,
                pending: None,
            }),
    {
        let rx: u32 = node_address(node_id) + (base_cmd_id % 32) as u32;
        let rx_id = Id::extended(rx).unwrap();
        let tx_id = Id::extended(rx + 1).unwrap();
        CanFirmwareUpdater { node: IsoTpNode::new(tx_id, rx_id), node_id, base_cmd_id }
    }

    /// The identifier that frames are sent to.
    pub fn tx_id(&self) -> (id: Id)
        ensures
            id == self.iso_tp().tx_id,
    {
        self.node.tx_id()
    }

    /// The identifier that is listened on.
    pub fn rx_id(&self) -> (id: Id)
        ensures
            id == self.iso_tp().rx_id,
    {
        self.node.rx_id()
    }

    /// Drives the ISO-TP receive state machine. A payload that is complete goes to
    /// [`process_payload`].
    pub fn on_frame(&mut self, frame: &CanFrame) -> (r: Result<IsoTpStep, IsoTpError>)
        requires
            old(self).wf(),
            frame.id == old(self).iso_tp().rx_id || frame.id == old(self).iso_tp().tx_id
                ==> frame_is_whole(frame.data@),
        ensures
            final(self).wf(),
            final(self).listens_as() == old(self).listens_as(),
            final(self).base() == old(self).base(),
            received(old(self).iso_tp(), frame.id, frame.data@, final(self).iso_tp(), r),
    {
        self.node.receive(frame)
    }

    /// Begins to send a payload, as much of it as the updater sends at once.
    pub fn tick(&mut self, payload: &[u8]) -> (r: Result<[u8; 8], IsoTpError>)
        requires
            old(self).wf(),
        ensures
            final(self).wf(),
            final(self).listens_as() == old(self).listens_as(),
            final(self).base() == old(self).base(),
            r is Ok,
            payload@.len() >= 100 ==> sending(
                old(self).iso_tp(),
                payload@.take(100),
                final(self).iso_tp(),
                r,
            ),
            sending(
                old(self).iso_tp(),
                payload@.take(
                    if payload@.len() < TX_MAX_SIZE {
                        payload@.len() as int
                    } else {
                        TX_MAX_SIZE as int
                    },
                ),
                final(self).iso_tp(),
                r,
            ),
    {
        let mut val: [u8; TX_MAX_SIZE] = [0u8; TX_MAX_SIZE];
        let len: usize = slice_copy_copy(&mut val, payload);
        let sent = slice_subrange(&val, 0, len);
        proof {
            assert(sent@ =~= payload@.take(len as int));
        }
        self.node.send(sent)
    }

    /// Takes in whether the frame of `tick` was queued.
    pub fn send_result(&mut self, sent: bool) -> (r: Result<(), IsoTpError>)
        requires
            old(self).wf(),
        ensures
            final(self).wf(),
            final(self).listens_as() == old(self).listens_as(),
            final(self).base() == old(self).base(),
            r == if sent { Ok(()) } else { Err::<(), IsoTpError>(IsoTpError::CanTransmitError) },
            final(self).iso_tp() == (IsoTpState {
                tx: if sent && old(self).iso_tp().pending is Some {
                    old(self).iso_tp().pending
                } else {
                    old(self).iso_tp().tx
                },
                pending: None,
                ..old(self).iso_tp()
            }),
    {
        self.node.send_result(sent)
    }

    /// Takes in whether a consecutive frame was queued, and returns the one after it; `None`
    /// once the payload is through.
    pub fn consecutive_result(&mut self, sent: bool) -> (r: Result<Option<[u8; 8]>, IsoTpError>)
        requires
            old(self).wf(),
            old(self).iso_tp().tx is Some,
        ensures
            final(self).wf(),
            final(self).listens_as() == old(self).listens_as(),
            final(self).base() == old(self).base(),
            r is Err <==> !sent,
            r matches Err(e) ==> e == IsoTpError::CanTransmitError,
            final(self).iso_tp() == (IsoTpState {
                tx: if sent {
                    old(self).iso_tp().tx->0.advance()
                } else {
                    old(self).iso_tp().tx
                },
                ..old(self).iso_tp()
            }),
            r matches Ok(next) ==> match final(self).iso_tp().tx {
                Some(tx) => next matches Some(f) && f@ == tx.frame(),
                None => next is None,
            },
    {
        self.node.consecutive_result(sent)
    }
}

impl CanFrameConsumer for CanFirmwareUpdater {
    open spec fn takes_node_id(&self, node_id: u32) -> bool {
        self.wf() && updater_addressable(node_id, self.base())
    }

    /// Listens as another node from now on. Sessions under way stand.
    fn set_node_id(&mut self, node_id: u32)
        ensures
            final(self).wf(),
            final(self).listens_as() == node_id,
            final(self).base() == old(self).base(),
            final(self).iso_tp() == (IsoTpState {
                tx_id: tx_address(node_id, old(self).base()),
                rx_id: rx_address(node_id, old(self).base()),
                ..old(self).iso_tp()
            }),
    {
        self.node_id = node_id;
        let rx: u32 = node_address(node_id) + (self.base_cmd_id % 32) as u32;
        self.node.set_rx_id(Id::extended(rx).unwrap());
        self.node.set_tx_id(Id::extended(rx + 1).unwrap());
    }

    /// Accept all non-remote frames of the base command (the dispatcher already filtered by
    /// node ID).
    fn accepts(&self, cmd_id: u8, is_remote: bool) -> (accepted: bool)
        ensures
            accepted == (cmd_id == self.base() && !is_remote),
    {
        cmd_id == self.base_cmd_id && !is_remote
    }
}

/// One of the consumers of a node.
pub enum Consumer {
    Reports(MyHandler),
    Updater(CanFirmwareUpdater),
}

impl CanFrameConsumer for Consumer {
    open spec fn takes_node_id(&self, node_id: u32) -> bool {
        match *self {
            Consumer::Reports(_) => true,
            Consumer::Updater(updater) => updater.takes_node_id(node_id),
        }
    }

    fn set_node_id(&mut self, node_id: u32)
        ensures
            match (*old(self), *final(self)) {
                (Consumer::Reports(before), Consumer::Reports(after)) => after == before,
                (Consumer::Updater(before), Consumer::Updater(after)) => {
                    &&& after.wf()
                    &&& after.listens_as() == node_id
                    &&& after.base() == before.base()
                    &&& after.iso_tp() == (IsoTpState {
                        tx_id: tx_address(node_id, before.base()),
                        rx_id: rx_address(node_id, before.base()),
                        ..before.iso_tp()
                    })
                },
                _ => false,
            },
    {
        match self {
            Consumer::Reports(_) => {},
            Consumer::Updater(updater) => updater.set_node_id(node_id),
        }
    }

    fn accepts(&self, id: u8, is_remote: bool) -> (accepted: bool)
        ensures
            accepted == match *self {
                Consumer::Reports(_) => id == 0 && is_remote,
                Consumer::Updater(updater) => id == updater.base() && !is_remote,
            },
    {
        match self {
            Consumer::Reports(reports) => reports.accepts(id, is_remote),
            Consumer::Updater(updater) => updater.accepts(id, is_remote),
        }
    }
}

/// The identifier that an updater listens on.
pub open spec fn rx_address(node_id: u32, base_cmd_id: u8) -> Id {
    Id::Extended(address(node_id, base_cmd_id as int % 32) as u32)
}

/// The identifier that an updater responds on.
pub open spec fn tx_address(node_id: u32, base_cmd_id: u8) -> Id {
    Id::Extended((address(node_id, base_cmd_id as int % 32) + 1) as u32)
}

/// Progress of the transfer of an image.
#[derive(Clone, Copy, Debug, PartialEq, Eq, Structural)]
pub struct CanFirmwareUpdaterState {
    pub file_offset: u32,
    pub file_size: u32,
}

impl CanFirmwareUpdaterState {
    pub fn new() -> (s: CanFirmwareUpdaterState)
        ensures
            s == (CanFirmwareUpdaterState { file_offset: 0, file_size: 0 }),
    {
        CanFirmwareUpdaterState { file_offset: 0, file_size: 0 }
    }

    pub fn update(&mut self, offset: u32, size: u32)
        ensures
            *final(self) == (CanFirmwareUpdaterState { file_offset: offset, file_size: size }),
    {
        self.file_offset = offset;
        self.file_size = size;
    }
}

/// What a payload asks for.
#[derive(Debug)]
pub enum UpdaterAction {
    /// Nothing.
    Nothing,
    /// Send this payload, by asking the consumers for a tick.
    Respond(Vec<u8>),
    /// Ask the consumers for a tick.
    Tick,
    /// Write `data` to the image at `offset`.
    WriteBlock { offset: u32, data: Vec<u8> },
    /// Mark the image as updated, wait for [`APPLY_RESET_MS`] and reset.
    Apply,
}

/// The value of an attribute, as far as it is one.
pub open spec fn attribute_value(
    attribute: u16,
    state: CanFirmwareUpdaterState,
    version: Seq<u8>,
    hash: Seq<u8>,
) -> Seq<u8> {
    if attribute == 0 {
        version + "-".spec_bytes() + hash
    } else if attribute == 1 {
        be32(state.file_offset as int)
    } else if attribute == 2 {
        be32(state.file_size as int)
    } else {
        Seq::empty()
    }
}

/// The response to a request for an attribute: the response code, the attribute id, the status,
/// and the value where the attribute is supported.
pub open spec fn attribute_response(
    attribute: u16,
    state: CanFirmwareUpdaterState,
    version: Seq<u8>,
    hash: Seq<u8>,
) -> Seq<u8> {
    let status = if attribute <= 2 {
        CanUpdaterStatusEnum::Success.code()
    } else {
        CanUpdaterStatusEnum::UnsupportedAttribute.code()
    };
    seq![CanUpdaterCommandEnum::GetAttributeResponse.code()] + be16(attribute as int)
        + seq![status] + attribute_value(attribute, state, version, hash)
}

/// Processes an attribute get command over the CAN interface
///
/// 0                   1
/// 0 1 2 3 4 5 6 7 8 9 0 1 2 3 4 5 6
/// +-+-+-+-+-+-+-+-+-+-+-+-+-+-+-+-+
/// |          attr_id(2)           |
/// +-------------------------------+
///
/// The attribute id is transmitted as a big endian value.
///
/// This will be used to look up the attribute id and send back
/// a response. The format of the frame is.
///
/// 0                   1                   2                   3
/// 0 1 2 3 4 5 6 7 8 9 0 1 2 3 4 5 6 7 8 9 0 1 2 3 4 5 6 7 8 9 0 1
/// +-+-+-+-+-+-+-+-+-+-+-+-+-+-+-+-+-+-+-+-+-+-+-+-+-+-+-+-+-+-+-+-+
/// |            attr_id(2)         |   status(1)   | val(variable) |
/// +-------------------------------+---------------+---------------+
/// |                              ...                              |
/// +---------------------------------------------------------------+
///
/// The response consists of the attribute id followed by the status.
/// If the status is SUCCESS then the value will be transmitted in
/// a big endian first format.
pub fn process_attribute_get(
    payload: &[u8],
    state: &CanFirmwareUpdaterState,
    version: &str,
    hash: &str,
) -> (action: UpdaterAction)
    requires
        payload@.len() >= 2 && be16_at(payload@, 0) == 0 ==> version.spec_bytes().len()
            + hash.spec_bytes().len() + 5 <= TX_MAX_SIZE,
    ensures
        payload@.len() < 2 ==> action == UpdaterAction::Nothing,
        payload@.len() >= 2 ==> (action matches UpdaterAction::Respond(v) && v@
            == attribute_response(
            be16_at(payload@, 0) as u16,
            *state,
            version.spec_bytes(),
            hash.spec_bytes(),
        )),
{
    if payload.len() < 2 {
        return UpdaterAction::Nothing;
    }
    let attribute_id: u16 = read_be16(payload, 0);
    let mut v = ByteBuf::new::<TX_MAX_SIZE>();
    let response_code: [u8; 1] = [CanUpdaterCommandEnum::GetAttributeResponse.to_code()];
    let _ = v.extend_from_slice(&response_code);
    let _ = v.extend_from_slice(&be16_bytes(attribute_id));
    let attribute = CanUpdaterAttribute::from_code(attribute_id);
    let status: [u8; 1] = [
        if attribute.is_some() {
            CanUpdaterStatusEnum::Success.to_code()
        } else {
            CanUpdaterStatusEnum::UnsupportedAttribute.to_code()
        },
    ];
    let _ = v.extend_from_slice(&status);
    let ghost head = v@;
    proof {
        reveal_strlit("-");
        lemma_ascii_len("-");
    }
    match attribute {
        Some(CanUpdaterAttribute::ActiveFileVersion) => {
            let _ = v.extend_from_slice(version.as_bytes());
            let _ = v.extend_from_slice("-".as_bytes());
            let _ = v.extend_from_slice(hash.as_bytes());
        },
        Some(CanUpdaterAttribute::FileOffset) => {
            let _ = v.extend_from_slice(&be32_bytes(state.file_offset));
        },
        Some(CanUpdaterAttribute::FileSize) => {
            let _ = v.extend_from_slice(&be32_bytes(state.file_size));
        },
        None => {},
    }
    proof {
        assert(v@ =~= attribute_response(
            attribute_id,
            *state,
            version.spec_bytes(),
            hash.spec_bytes(),
        ));
    }
    UpdaterAction::Respond(slice_to_vec(v.as_slice()))
}

/// Processes a block of the image: the length of the file and the offset of the block, both
/// big-endian, and the data.
pub fn process_image_block(payload: &[u8], state: &mut CanFirmwareUpdaterState) -> (action:
    UpdaterAction)
    requires
        payload@.len() >= 8 ==> be32_at(payload@, 4) + payload@.len() - 8 <= u32::MAX,
    ensures
        payload@.len() < 8 ==> action == UpdaterAction::Nothing && *final(state) == *old(state),
        payload@.len() >= 8 ==> {
            &&& action matches UpdaterAction::WriteBlock { offset, data }
            &&& offset == be32_at(payload@, 4)
            &&& data@ == payload@.skip(8)
            &&& final(state).file_size == be32_at(payload@, 0)
            &&& final(state).file_offset == offset + data@.len()
        },
{
    if payload.len() < 8 {
        return UpdaterAction::Nothing;
    }
    let file_length: u32 = read_be32(payload, 0);
    let offset: u32 = read_be32(payload, 4);
    let block = slice_subrange(payload, 8, payload.len());
    let received: u32 = offset + block.len() as u32;
    state.update(received, file_length);
    proof {
        assert(block@ =~= payload@.skip(8));
    }
    UpdaterAction::WriteBlock { offset, data: slice_to_vec(block) }
}

/// Processes a request to apply the image: it is applied once the transfer is complete.
pub fn process_apply_image(state: &CanFirmwareUpdaterState) -> (action: UpdaterAction)
    ensures
        action == if state.file_offset >= state.file_size {
            UpdaterAction::Apply
        } else {
            UpdaterAction::Nothing
        },
{
    if state.file_offset >= state.file_size {
        UpdaterAction::Apply
    } else {
        UpdaterAction::Nothing
    }
}

/// Whether a payload can be processed: its command is known, and a block ends within 32 bits.
pub open spec fn is_processable(payload: Seq<u8>) -> bool {
    payload.len() > 0 ==> {
        &&& payload[0] <= 6
        &&& payload[0] == 4 && payload.len() >= 9 ==> be32_at(payload.skip(1), 4) + payload.len() - 9
            <= u32::MAX
    }
}

/// Whether a payload asks for the version, which then has to fit the response.
pub open spec fn asks_for_version(payload: Seq<u8>) -> bool {
    &&& payload.len() >= 3
    &&& payload[0] == CanUpdaterCommandEnum::GetAttribute.code()
    &&& be16_at(payload, 1) == CanUpdaterAttribute::ActiveFileVersion.code()
}

/// The progress after a block was received.
pub open spec fn after_block(payload: Seq<u8>) -> CanFirmwareUpdaterState {
    CanFirmwareUpdaterState {
        file_offset: (be32_at(payload, 5) + payload.len() - 9) as u32,
        file_size: be32_at(payload, 1) as u32,
    }
}

/// Processes a payload.
///
/// | Bytes | Content
/// | ----- | -------
/// |    0  | Command Id
/// |  1-   | Command Payload
pub fn process_payload(
    payload: &[u8],
    state: &mut CanFirmwareUpdaterState,
    version: &str,
    hash: &str,
) -> (action: UpdaterAction)
    requires
        is_processable(payload@),
        asks_for_version(payload@) ==> version.spec_bytes().len() + hash.spec_bytes().len() + 5
            <= TX_MAX_SIZE,
    ensures
        ({
            let get = payload@.len() >= 3 && payload@[0]
                == CanUpdaterCommandEnum::GetAttribute.code();
            let set = payload@.len() >= 1 && payload@[0]
                == CanUpdaterCommandEnum::SetAttribute.code();
            let block = payload@.len() >= 9 && payload@[0]
                == CanUpdaterCommandEnum::ImageBlock.code();
            let apply = payload@.len() >= 1 && payload@[0]
                == CanUpdaterCommandEnum::ApplyImage.code() && old(state).file_offset >= old(
                state).file_size;
            &&& get ==> (action matches UpdaterAction::Respond(v) && v@ == attribute_response(
                be16_at(payload@, 1) as u16,
                *old(state),
                version.spec_bytes(),
                hash.spec_bytes(),
            ))
            &&& set ==> action == UpdaterAction::Tick
            &&& block ==> {
                &&& action matches UpdaterAction::WriteBlock { offset, data }
                &&& offset == be32_at(payload@, 5)
                &&& data@ == payload@.skip(9)
                &&& *final(state) == after_block(payload@)
            }
            &&& apply ==> action == UpdaterAction::Apply
            &&& !get && !set && !block && !apply ==> action == UpdaterAction::Nothing
            &&& !block ==> *final(state) == *old(state)
        }),
{
    if payload.len() == 0 {
        return UpdaterAction::Nothing;
    }
    let rest = slice_subrange(payload, 1, payload.len());
    proof {
        assert(rest@ =~= payload@.skip(1));
        assert(rest@.len() >= 8 ==> rest@.skip(8) =~= payload@.skip(9));
    }
    match CanUpdaterCommandEnum::from_code(payload[0]) {
        Some(CanUpdaterCommandEnum::GetAttribute) => process_attribute_get(
            rest,
            state,
            version,
            hash,
        ),
        Some(CanUpdaterCommandEnum::SetAttribute) => UpdaterAction::Tick,
        Some(CanUpdaterCommandEnum::ImageBlock) => process_image_block(rest, state),
        Some(CanUpdaterCommandEnum::ApplyImage) => process_apply_image(state),
        // Just drop messages which we don't process
        _ => UpdaterAction::Nothing,
    }
}

/// What the bootloader reports about the running image.
#[derive(Clone, Copy, Debug, PartialEq, Eq, Structural)]
pub enum BootState {
    /// The bootloader went back to this image.
    Revert,
    /// Any other state.
    Other,
    /// The state could not be read.
    Unknown,
}

/// Whether the updater marks the image as booted: only after a revert.
pub fn marks_booted(state: BootState) -> (mark: bool)
    ensures
        mark == (state == BootState::Revert),
{
    match state {
        BootState::Revert => true,
        BootState::Other => false,
        BootState::Unknown => false,
    }
}

/// After a block was processed, the offset attribute reports where the block ended, and the size
/// attribute the length that the block announced, both with the status of success.
pub proof fn law_attributes_report_progress(block: Seq<u8>, version: Seq<u8>, hash: Seq<u8>)
    requires
        is_processable(block),
        block.len() >= 9,
        block[0] == CanUpdaterCommandEnum::ImageBlock.code(),
    ensures
        ({
            let offset = attribute_response(1, after_block(block), version, hash);
            let size = attribute_response(2, after_block(block), version, hash);
            &&& be32_at(offset, 4) == be32_at(block, 5) + (block.len() - 9)
            &&& be32_at(size, 4) == be32_at(block, 1)
            &&& offset[3] == CanUpdaterStatusEnum::Success.code()
            &&& size[3] == CanUpdaterStatusEnum::Success.code()
        }),
{
    let end = be32_at(block, 5) + (block.len() - 9);
    assert(be32_at(block.skip(1), 4) == be32_at(block, 5));
    assert(0 <= be32_at(block, 1) < 0x1_0000_0000);
    lemma_number_attributes(end as u32, be32_at(block, 1) as u32, version, hash);
}

proof fn lemma_number_attributes(offset: u32, size: u32, version: Seq<u8>, hash: Seq<u8>)
    ensures
        ({
            let state = CanFirmwareUpdaterState { file_offset: offset, file_size: size };
            let first = attribute_response(1, state, version, hash);
            let second = attribute_response(2, state, version, hash);
            &&& be32_at(first, 4) == offset
            &&& be32_at(second, 4) == size
            &&& first[3] == CanUpdaterStatusEnum::Success.code()
            &&& second[3] == CanUpdaterStatusEnum::Success.code()
        }),
{
    law_be32_is_read_back(offset as int);
    law_be32_is_read_back(size as int);
}

/// The payload that carries a block of an image of `length` bytes.
pub open spec fn image_block(length: u32, offset: u32, data: Seq<u8>) -> Seq<u8> {
    seq![CanUpdaterCommandEnum::ImageBlock.code()] + be32(length as int) + be32(offset as int)
        + data
}

/// A block is written where it belongs: the offset, the data and the length in its payload are
/// those that were put into it.
pub proof fn law_block_is_understood(length: u32, offset: u32, data: Seq<u8>)
    requires
        offset + data.len() <= u32::MAX,
    ensures
        ({
            let payload = image_block(length, offset, data);
            &&& is_processable(payload)
            &&& be32_at(payload, 5) == offset
            &&& payload.skip(9) == data
            &&& after_block(payload) == (CanFirmwareUpdaterState {
                file_offset: (offset + data.len()) as u32,
                file_size: length,
            })
        }),
{
    let payload = image_block(length, offset, data);
    law_be32_is_read_back(length as int);
    law_be32_is_read_back(offset as int);
    assert(payload.skip(9) =~= data);
    assert(payload.skip(1).subrange(4, 8) =~= be32(offset as int));
    assert(be32_at(payload, 1) == be32_at(be32(length as int), 0));
    assert(be32_at(payload, 5) == be32_at(be32(offset as int), 0));
    assert(be32_at(payload.skip(1), 4) == be32_at(payload, 5));
}

/// The codes of the commands, the attributes and the status.
pub proof fn law_codes(
    c: CanUpdaterCommandEnum,
    a: CanUpdaterAttribute,
    s: CanUpdaterStatusEnum,
)
    ensures
        c.code() == match c {
            CanUpdaterCommandEnum::GetAttribute => 0u8,
            CanUpdaterCommandEnum::GetAttributeResponse => 1,
            CanUpdaterCommandEnum::SetAttribute => 2,
            CanUpdaterCommandEnum::SetAttributeResponse => 3,
            CanUpdaterCommandEnum::ImageBlock => 4,
            CanUpdaterCommandEnum::ImageBlockResponse => 5,
            CanUpdaterCommandEnum::ApplyImage => 6,
        },
        a.code() == match a {
            CanUpdaterAttribute::ActiveFileVersion => 0u16,
            CanUpdaterAttribute::FileOffset => 1,
            CanUpdaterAttribute::FileSize => 2,
        },
        s.code() == match s {
            CanUpdaterStatusEnum::Success => 0u8,
            CanUpdaterStatusEnum::Failure => 1,
            CanUpdaterStatusEnum::UnsupportedAttribute => 0x86,
        },
{
}

/// An updater listens on its base command, modulo 32, of its node, and responds on the identifier
/// that follows.
pub proof fn law_updater_responds_on_the_next_identifier(node_id: u32, base: u8)
    ensures
        updater_addressable(node_id, base) <==> node_id * 32 % 0x1_0000_0000 + base as int % 32
            < 0x1fff_ffff,
        updater_addressable(node_id, base) ==> {
            &&& rx_address(node_id, base) matches Id::Extended(rx)
            &&& tx_address(node_id, base) matches Id::Extended(tx)
            &&& rx == node_id * 32 % 0x1_0000_0000 + base as int % 32
            &&& tx == rx + 1
        },
{
}

/// The response to a request for an attribute: the response code, the attribute ID with its high
/// byte first, and the status, which an unknown attribute ends with. A version is followed by a
/// dash and the hash.
#[verifier::rlimit(40)]
pub proof fn law_attribute_response_layout(
    attribute: u16,
    state: CanFirmwareUpdaterState,
    version: Seq<u8>,
    hash: Seq<u8>,
)
    ensures
        ({
            let r = attribute_response(attribute, state, version, hash);
            &&& r[0] == 1
            &&& r[1] * 256 + r[2] == attribute
            &&& attribute <= 2 ==> r[3] == 0
            &&& attribute > 2 ==> r[3] == 0x86 && r.len() == 4
            &&& attribute == 0 ==> r.skip(4) == version + "-".spec_bytes() + hash
        }),
{
    let value = attribute_value(attribute, state, version, hash);
    assert(attribute_response(attribute, state, version, hash).skip(4) =~= value);
}

/// The offset and the size are answered in four bytes, the highest first.
#[verifier::rlimit(40)]
pub proof fn law_number_attributes_layout(
    state: CanFirmwareUpdaterState,
    version: Seq<u8>,
    hash: Seq<u8>,
)
    ensures
        ({
            let r = attribute_response(1, state, version, hash);
            &&& r.len() == 8
            &&& r[4] * 0x100_0000 + r[5] * 0x1_0000 + r[6] * 0x100 + r[7] == state.file_offset
        }),
        ({
            let r = attribute_response(2, state, version, hash);
            &&& r.len() == 8
            &&& r[4] * 0x100_0000 + r[5] * 0x1_0000 + r[6] * 0x100 + r[7] == state.file_size
        }),
{
    law_big_endian_is_base_256(0, state.file_offset as int);
    law_big_endian_is_base_256(0, state.file_size as int);
    lemma_value_follows_the_head(1, state, version, hash);
    lemma_value_follows_the_head(2, state, version, hash);
}

#[verifier::rlimit(40)]
proof fn lemma_value_follows_the_head(
    attribute: u16,
    state: CanFirmwareUpdaterState,
    version: Seq<u8>,
    hash: Seq<u8>,
)
    ensures
        ({
            let value = attribute_value(attribute, state, version, hash);
            let r = attribute_response(attribute, state, version, hash);
            &&& r.len() == 4 + value.len()
            &&& value.len() == 4 ==> r[4] == value[0] && r[5] == value[1] && r[6] == value[2] && r[7]
                == value[3]
        }),
{
}

/// Which payloads can be processed: an empty one, and one with a known command, unless it is a
/// block that goes beyond 32 bits.
#[verifier::rlimit(40)]
pub proof fn law_payloads_that_are_processed(p: Seq<u8>)
    ensures
        p.len() == 0 ==> is_processable(p),
        p.len() > 0 && p[0] > 6 ==> !is_processable(p),
        p.len() > 0 && p[0] <= 6 && (p[0] != 4 || p.len() < 9) ==> is_processable(p),
        p.len() >= 9 && p[0] == 4 ==> (is_processable(p) <==> 0x100_0000 * p[5] + 0x1_0000 * p[6]
            + 0x100 * p[7] + p[8] + (p.len() - 9) <= 0xffff_ffff),
        asks_for_version(p) <==> p.len() >= 3 && p[0] == 0 && p[1] == 0 && p[2] == 0,
{
}

/// A block in a payload: behind the command the length of the file and the offset of the block,
/// four bytes each with the highest first, then the data. Afterwards the progress is the end of
/// the block.
#[verifier::rlimit(40)]
pub proof fn law_block_layout(p: Seq<u8>, length: u32, offset: u32, data: Seq<u8>)
    requires
        p.len() >= 9,
        p[0] == 4,
        length == 0x100_0000 * p[1] + 0x1_0000 * p[2] + 0x100 * p[3] + p[4],
        offset == 0x100_0000 * p[5] + 0x1_0000 * p[6] + 0x100 * p[7] + p[8],
        data == p.skip(9),
        offset + data.len() <= u32::MAX,
    ensures
        after_block(p).file_offset == offset + data.len(),
        after_block(p).file_size == length,
{
}

/// An image that was marked is applied 100 ms later, and payloads of up to 100 bytes are sent.
pub proof fn law_limits_of_the_updater()
    ensures
        APPLY_RESET_MS == 100,
        TX_MAX_SIZE == 100,
{
}

/// An updater works under every node ID under which both of its identifiers are extended ones.
pub proof fn law_updater_works_where_it_has_identifiers(updater: CanFirmwareUpdater, node_id: u32)
    requires
        updater.wf(),
    ensures
        updater.takes_node_id(node_id) <==> node_id * 32 % 0x1_0000_0000 + updater.base() as int % 32
            < 0x1fff_ffff,
        Consumer::Updater(updater).takes_node_id(node_id) == updater.takes_node_id(node_id),
        Consumer::Reports(MyHandler).takes_node_id(node_id),
{
}

} // verus!
