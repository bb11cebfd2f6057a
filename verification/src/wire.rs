//! Cyphal identifiers, transfers and the data types that travel in them, as plain values.
use canadensis::encoding::{Deserialize, Serialize};
use vstd::prelude::*;

verus! {

/// Subject of `uavcan.pnp.NodeIDAllocationData.1.0`.
pub const PNP_SUBJECT: u16 = 8166;
/// Service of `uavcan.node.ExecuteCommand.1.3`.
pub const EXECUTE_COMMAND_SERVICE: u16 = 435;
/// Service of `uavcan.file.Read.1.1`.
pub const FILE_READ_SERVICE: u16 = 408;
/// Longest path of `uavcan.file.Path.2.0`.
pub const FILE_PATH_MAX_LENGTH: usize = 255;
/// `uavcan.file.Error.1.0`: no error.
pub const FILE_ERROR_OK: u16 = 0;
/// `uavcan.node.Health.1.0`: nominal.
pub const HEALTH_NOMINAL: u8 = 0;
/// `uavcan.node.Mode.1.0`: operational.
pub const MODE_OPERATIONAL: u8 = 0;
/// `uavcan.node.Mode.1.0`: software update.
pub const MODE_SOFTWARE_UPDATE: u8 = 3;

/// A CAN node ID is at most this.
pub const MAX_NODE_ID: u8 = 127;

/// A Cyphal/CAN node ID, 0 to 127.
#[derive(Clone, Copy, Debug, PartialEq, Eq, Structural)]
pub struct CanNodeId {
    value: u8,
}

/// `canadensis_can::CanNodeId::try_from`: accepts 0 to 127.
#[verifier::external_body]
fn canadensis_node_id(value: u8) -> (id: Option<u8>)
    ensures
        id == if value <= 127 { Some(value) } else { None::<u8> },
{
    canadensis_can::CanNodeId::try_from(value).ok().map(|id| id.to_u8())
}

impl CanNodeId {
    pub closed spec fn id(&self) -> u8 {
        self.value
    }

    #[verifier::type_invariant]
    spec fn in_range(self) -> bool {
        self.value <= MAX_NODE_ID
    }

    /// The smallest node ID.
    pub fn min() -> (node: CanNodeId)
        ensures
            node.id() == 0,
    {
        CanNodeId { value: 0 }
    }

    /// The node ID `value`, if it is one.
    pub fn try_from(value: u8) -> (node: Option<CanNodeId>)
        ensures
            node is Some <==> value <= MAX_NODE_ID,
            node is Some <==> value <= 127,
            node matches Some(n) ==> n.id() == value,
    {
        match canadensis_node_id(value) {
            Some(value) => Some(CanNodeId { value }),
            None => None,
        }
    }

    pub fn to_u8(&self) -> (value: u8)
        ensures
            value == self.id(),
            value <= MAX_NODE_ID,
            value <= 127,
    {
        proof {
            use_type_invariant(self);
        }
        self.value
    }
}

/// A received message transfer.
#[derive(Debug)]
pub struct MessageTransfer {
    pub subject: u16,
    /// `None` when the sender is anonymous.
    pub source: Option<CanNodeId>,
    pub payload: Vec<u8>,
}

/// A received service request or response.
#[derive(Debug)]
pub struct ServiceTransfer {
    pub service: u16,
    pub source: CanNodeId,
    pub payload: Vec<u8>,
}

/// `uavcan.node.ExecuteCommand.1.3` request.
#[derive(Debug)]
pub struct ExecuteCommandRequest {
    pub command: u16,
    pub parameter: Vec<u8>,
}

/// `uavcan.node.ExecuteCommand.1.3` response.
#[derive(Debug)]
pub struct ExecuteCommandResponse {
    pub status: u8,
    pub output: Vec<u8>,
}

impl ExecuteCommandRequest {
    pub const COMMAND_RESTART: u16 = 65535;
    pub const COMMAND_BEGIN_SOFTWARE_UPDATE: u16 = 65533;
    pub const COMMAND_FACTORY_RESET: u16 = 65532;
    pub const COMMAND_IDENTIFY: u16 = 65529;
}

impl ExecuteCommandResponse {
    pub const STATUS_SUCCESS: u8 = 0;
    pub const STATUS_BAD_COMMAND: u8 = 3;
    pub const STATUS_BAD_PARAMETER: u8 = 4;
    pub const STATUS_BAD_STATE: u8 = 5;
    pub const STATUS_INTERNAL_ERROR: u8 = 6;
}

/// `uavcan.file.Read.1.1` response.
#[derive(Debug)]
pub struct ReadResponse {
    pub error: u16,
    pub data: Vec<u8>,
}

/// `uavcan.pnp.NodeIDAllocationData.1.0`.
#[derive(Clone, Copy, Debug, PartialEq, Eq, Structural)]
pub struct PnpMsg {
    pub unique_id_hash: u64,
    pub allocated_node_id: Option<u16>,
}

/// `reg.udral.physics.optics.HighColor.0.1`.
#[derive(Clone, Copy, Debug, PartialEq, Eq, Structural)]
pub struct HighColor {
    pub red: u8,
    pub green: u8,
    pub blue: u8,
}

/// Byte `i` of a serialised object; past its end a Cyphal object reads as zeros.
pub open spec fn byte_at(bytes: Seq<u8>, i: int) -> int {
    if 0 <= i < bytes.len() { bytes[i] as int } else { 0 }
}

/// The `n` bytes from `from` on, zeros past the end.
pub open spec fn bytes_at(bytes: Seq<u8>, from: int, n: int) -> Seq<u8> {
    Seq::new(n as nat, |i: int| byte_at(bytes, from + i) as u8)
}

/// The 16-bit little-endian number at `i`.
pub open spec fn le16_at(bytes: Seq<u8>, i: int) -> int {
    byte_at(bytes, i) + 256 * byte_at(bytes, i + 1)
}

/// The 48-bit little-endian number at `i`.
pub open spec fn le48_at(bytes: Seq<u8>, i: int) -> int {
    le16_at(bytes, i) + 0x1_0000 * le16_at(bytes, i + 2) + 0x1_0000_0000 * le16_at(bytes, i + 4)
}

/// `deserialize_from_bytes` of `canadensis_data_types`' `ExecuteCommandRequest`: a 16-bit
/// command, a length byte and that many bytes. Every payload decodes.
#[verifier::external_body]
pub(crate) fn decode_execute_command(payload: &[u8]) -> (request: Result<ExecuteCommandRequest, ()>)
    ensures
        request is Ok,
        request->Ok_0.command == le16_at(payload@, 0),
        request->Ok_0.parameter@ == bytes_at(payload@, 3, byte_at(payload@, 2)),
{
    canadensis_data_types::uavcan::node::execute_command_1_3::ExecuteCommandRequest::deserialize_from_bytes(payload)
        .map(|r| ExecuteCommandRequest { command: r.command, parameter: r.parameter.to_vec() })
        .map_err(|_| ())
}

/// The serialised form of an `ExecuteCommand` response.
pub open spec fn encoded_response(status: u8, output: Seq<u8>) -> Seq<u8> {
    seq![status, output.len() as u8] + output
}

/// `serialize_to_bytes` of `canadensis_data_types`' `ExecuteCommandResponse`: the status, a
/// length byte and the output.
#[verifier::external_body]
pub(crate) fn encode_execute_command_response(status: u8, output: &[u8]) -> (payload: Vec<u8>)
    requires
        output@.len() <= 46,
    ensures
        payload@ == encoded_response(status, output@),
{
    let response = canadensis_data_types::uavcan::node::execute_command_1_3::ExecuteCommandResponse {
        status,
        output: output.iter().copied().collect(),
    };
    let mut payload = vec![0u8; response.size_bits() / 8];
    response.serialize_to_bytes(&mut payload);
    payload
}

/// `deserialize_from_bytes` of `canadensis_data_types`' `ReadResponse`: a 16-bit error code, a
/// 16-bit length of at most 256 and that many bytes. The numbers are little-endian (the crate
/// builds for little-endian targets only).
#[verifier::external_body]
pub(crate) fn decode_read_response(payload: &[u8]) -> (response: Result<ReadResponse, ()>)
    ensures
        response is Ok <==> le16_at(payload@, 2) <= 256,
        response matches Ok(r) ==> {
            &&& r.error == le16_at(payload@, 0)
            &&& r.data@ == bytes_at(payload@, 4, le16_at(payload@, 2))
        },
{
    canadensis_data_types::uavcan::file::read_1_1::ReadResponse::deserialize_from_bytes(payload)
        .map(|r| ReadResponse { error: r.error.value, data: r.data.value.to_vec() })
        .map_err(|_| ())
}

/// `deserialize_from_bytes` of `canadensis_data_types`' `NodeIDAllocationData`: a 48-bit hash, a
/// length byte of at most 1 and, where it is 1, a 16-bit node ID.
#[verifier::external_body]
pub(crate) fn decode_pnp_msg(payload: &[u8]) -> (msg: Result<PnpMsg, ()>)
    ensures
        msg is Ok <==> byte_at(payload@, 6) <= 1,
        msg matches Ok(m) ==> m.unique_id_hash == le48_at(payload@, 0) && (
        m.allocated_node_id is Some <==> byte_at(payload@, 6) == 1) && (
        m.allocated_node_id matches Some(id) ==> id == le16_at(payload@, 7)),
{
    canadensis_data_types::uavcan::pnp::node_id_allocation_data_1_0::NodeIDAllocationData::deserialize_from_bytes(payload)
        .map(|m| PnpMsg {
            unique_id_hash: m.unique_id_hash,
            allocated_node_id: m.allocated_node_id.iter().next().map(|id| id.value),
        })
        .map_err(|_| ())
}

/// `deserialize_from_bytes` of `canadensis_data_types`' `HighColor`: 5, 6 and 5 bits, from the
/// lowest bit of the first byte up. Every payload decodes.
#[verifier::external_body]
pub(crate) fn decode_high_color(payload: &[u8]) -> (color: Result<HighColor, ()>)
    ensures
        color is Ok,
        color->Ok_0.red == le16_at(payload@, 0) % 32,
        color->Ok_0.green == le16_at(payload@, 0) / 32 % 64,
        color->Ok_0.blue == le16_at(payload@, 0) / 2048,
{
    canadensis_data_types::reg::udral::physics::optics::high_color_0_1::HighColor::deserialize_from_bytes(payload)
        .map(|c| HighColor { red: c.red, green: c.green, blue: c.blue })
        .map_err(|_| ())
}

/// What is missing at the end of a serialised object reads as zeros, and numbers are
/// little-endian.
pub proof fn law_missing_bytes_read_as_zeros(bytes: Seq<u8>, i: int, n: int)
    requires
        0 <= i,
        0 <= n,
    ensures
        i < bytes.len() ==> byte_at(bytes, i) == bytes[i],
        i >= bytes.len() ==> byte_at(bytes, i) == 0,
        i + 1 < bytes.len() ==> le16_at(bytes, i) == bytes[i] + 256 * bytes[i + 1],
        i + 1 == bytes.len() ==> le16_at(bytes, i) == bytes[i],
        i >= bytes.len() ==> le16_at(bytes, i) == 0,
        bytes_at(bytes, i, n).len() == n,
        forall|k: int|
            0 <= k < n ==> #[trigger] bytes_at(bytes, i, n)[k] == if i + k < bytes.len() {
                bytes[i + k]
            } else {
                0u8
            },
{
}

/// A 48-bit number is made up of six bytes, the lowest first.
pub proof fn law_48_bit_numbers_are_little_endian(bytes: Seq<u8>)
    requires
        bytes.len() >= 6,
    ensures
        le48_at(bytes, 0) == bytes[0] + 0x100 * bytes[1] + 0x1_0000 * bytes[2] + 0x100_0000
            * bytes[3] + 0x1_0000_0000 * bytes[4] + 0x100_0000_0000 * bytes[5],
{
}

/// A response is the status, the length of the output and the output.
pub proof fn law_response_is_status_length_output(status: u8, output: Seq<u8>)
    requires
        output.len() <= 255,
    ensures
        encoded_response(status, output).len() == output.len() + 2,
        encoded_response(status, output)[0] == status,
        encoded_response(status, output)[1] == output.len(),
        forall|i: int|
            0 <= i < output.len() ==> #[trigger] encoded_response(status, output)[i + 2]
                == output[i],
{
}

/// The numbers that Cyphal fixes for the subject, the services and the values in use.
pub proof fn law_fixed_identifiers()
    ensures
        PNP_SUBJECT == 8166,
        EXECUTE_COMMAND_SERVICE == 435,
        FILE_READ_SERVICE == 408,
        FILE_PATH_MAX_LENGTH == 255,
        FILE_ERROR_OK == 0,
        HEALTH_NOMINAL == 0,
        MODE_OPERATIONAL == 0,
        MODE_SOFTWARE_UPDATE == 3,
        MAX_NODE_ID == 127,
        ExecuteCommandResponse::STATUS_INTERNAL_ERROR == 6,
{
}

} // verus!
