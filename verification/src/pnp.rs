//! Cyphal PnP v1 node-ID allocation support.
//!
//! Implements the client side of the UAVCAN PnP (Plug-and-Play) v1 protocol, which allows nodes
//! to obtain a dynamic node ID without prior configuration.
//!
//! # Usage
//! 1. Create a [`PnpHandler`] with the device's 16-byte unique ID.
//! 2. Subscribe to the PnP allocation subject on an anonymous node.
//! 3. Periodically publish requests (see [`PnpClient`]).
//! 4. Pass received messages to the handler on each tick.
//! 5. Poll [`PnpHandler::assigned_id`] — once set the allocation is complete.
use vstd::prelude::*;
use crate::time::Duration;
use crate::wire::{
    byte_at, decode_pnp_msg, le16_at, le48_at, CanNodeId, MessageTransfer, PnpMsg, MAX_NODE_ID,
    PNP_SUBJECT,
};

verus! {

/// Minimum inter-request delay (ms).
pub const PNP_RETRY_MIN_MS: u64 = 150;
/// Maximum additional jitter (ms) added on top of `PNP_RETRY_MIN_MS`.
pub const PNP_RETRY_JITTER_MS: u64 = 850;
/// Short timeout (ms) used when polling the interrupt pin for incoming PnP replies.
pub const PNP_POLL_TIMEOUT_MS: u64 = 20;
/// Sleep (ms) between PnP polling iterations.
pub const LOOP_SLEEP_IDLE_MS: u64 = 1;

/// The CRC-64/WE register after one more bit: polynomial 0x42F0E1EBA9EA3693, the highest bit
/// first.
pub open spec fn crc64_bit(crc: u64) -> u64 {
    if crc >= 0x8000_0000_0000_0000 {
        (crc << 1u64) ^ 0x42F0_E1EB_A9EA_3693
    } else {
        crc << 1u64
    }
}

/// The register after `n` more bits.
pub open spec fn crc64_bits(crc: u64, n: nat) -> u64
    decreases n,
{
    if n == 0 { crc } else { crc64_bit(crc64_bits(crc, (n - 1) as nat)) }
}

/// The register after some bytes; it starts with all bits set.
pub open spec fn crc64_register(bytes: Seq<u8>) -> u64
    decreases bytes.len(),
{
    if bytes.len() == 0 {
        u64::MAX
    } else {
        crc64_bits(crc64_register(bytes.drop_last()) ^ ((bytes.last() as u64) << 56u64), 8)
    }
}

/// The CRC-64/WE of some bytes: the register with all bits inverted.
pub open spec fn crc64_we(bytes: Seq<u8>) -> u64 {
    crc64_register(bytes) ^ u64::MAX
}

/// `crc_any::CRCu64::crc64we`, fed with `bytes` by one `digest`, and its `get_crc`: the CRC-64/WE
/// of the bytes, which the crate documents by its polynomial, its initial value and its final
/// XOR.
#[verifier::external_body]
fn crc_any_crc64_we(bytes: &[u8]) -> (crc: u64)
    ensures
        crc == crc64_we(bytes@),
{
    let mut crc = crc_any::CRCu64::crc64we();
    crc.digest(bytes);
    crc.get_crc()
}

/// The lowest 48 bits of the CRC-64/WE of a unique ID.
pub open spec fn unique_id_hash(unique_id: Seq<u8>) -> int {
    crc64_we(unique_id) as int % 0x1_0000_0000_0000
}

/// The lowest 48 bits of a CRC.
pub fn lowest_48_bits(crc: u64) -> (hash: u64)
    ensures
        hash == crc as int % 0x1_0000_0000_0000,
{
    crc % 0x1_0000_0000_0000
}

/// Compute the CRC-64/WE hash of a 16-byte unique ID, keeping the lowest 48
/// bits. This matches the hash algorithm used by a compliant PnP allocator
/// server.
pub fn pnp_unique_id_hash(unique_id: &[u8; 16]) -> (hash: u64)
    ensures
        hash == unique_id_hash(unique_id@),
        hash == crc64_we(unique_id@) as int % 0x1_0000_0000_0000,
        hash < 0x1_0000_0000_0000,
{
    lowest_48_bits(crc_any_crc64_we(unique_id))
}

/// The 32-bit little-endian number at `i`.
pub open spec fn le32_at(bytes: Seq<u8>, i: int) -> u32 {
    (le16_at(bytes, i) + 0x1_0000 * le16_at(bytes, i + 2)) as u32
}

/// One round of the 32-bit xorshift generator.
pub open spec fn xorshift32(x: u32) -> u32 {
    let a = x ^ (x << 13u32);
    let b = a ^ (a >> 17u32);
    b ^ (b << 5u32)
}

/// The product of `a` and `b` modulo 2^32.
pub open spec fn wrapping_product(a: u32, b: u32) -> u32 {
    ((a * b) % 0x1_0000_0000) as u32
}

/// The jitter (ms) of an attempt: both halves of the ID's first eight bytes and the attempt
/// number, mixed by one round of xorshift.
pub open spec fn retry_jitter_ms(unique_id: Seq<u8>, attempt: u32) -> int {
    xorshift32(
        le32_at(unique_id, 0) ^ le32_at(unique_id, 4) ^ wrapping_product(attempt, 0x9E37_79B9),
    ) as int % PNP_RETRY_JITTER_MS as int
}

fn read_le32(bytes: &[u8; 16], i: usize) -> (v: u32)
    requires
        i + 4 <= 16,
    ensures
        v == le32_at(bytes@, i as int),
{
    (bytes[i] as u32) + 0x100 * (bytes[i + 1] as u32) + 0x1_0000 * (bytes[i + 2] as u32)
        + 0x100_0000 * (bytes[i + 3] as u32)
}

/// Compute a deterministic per-node retry delay for PnP allocation requests.
///
/// Returns a [`Duration`] in the range
/// `[PNP_RETRY_MIN_MS, PNP_RETRY_MIN_MS + PNP_RETRY_JITTER_MS)`.
/// The delay depends on both the device's unique ID and the attempt number. Of the ID only the
/// first eight bytes count: devices whose two halves of them have the same exclusive-or share
/// every delay.
pub fn pnp_request_retry_duration(unique_id: &[u8; 16], attempt: u32) -> (d: Duration)
    ensures
        d.ticks == (PNP_RETRY_MIN_MS + retry_jitter_ms(unique_id@, attempt)) * 1000,
        PNP_RETRY_MIN_MS * 1000 <= d.ticks < (PNP_RETRY_MIN_MS + PNP_RETRY_JITTER_MS) * 1000,
        d.ticks == (150 + retry_jitter_ms(unique_id@, attempt)) * 1000,
        150_000 <= d.ticks < 1_000_000,
{
    let mixed: u32 = attempt.wrapping_mul(0x9E37_79B9);
    let x: u32 = read_le32(unique_id, 0) ^ read_le32(unique_id, 4) ^ mixed;
    let a: u32 = x ^ (x << 13u32);
    let b: u32 = a ^ (a >> 17u32);
    let c: u32 = b ^ (b << 5u32);
    let jitter_ms: u64 = (c as u64) % PNP_RETRY_JITTER_MS;
    Duration::from_millis(PNP_RETRY_MIN_MS + jitter_ms)
}

/// Cyphal PnP v1 allocation response handler.
///
/// Receives `uavcan.pnp.NodeIDAllocationData` messages on the anonymous bus
/// and records the first node ID assigned to this device's unique-ID hash.
#[derive(Clone, Copy, Debug)]
pub struct PnpHandler {
    /// CRC-64/WE hash of this device's 16-byte unique ID (lowest 48 bits).
    pub unique_id_hash: u64,
    /// Set to `Some(id)` when a matching allocation response is received.
    pub assigned_id: Option<CanNodeId>,
}

/// The node ID that an allocation message gives to the device with this hash: the message comes
/// from a node that has an ID, carries the hash, and carries a number that is a node ID.
pub open spec fn allocated_id(hash: u64, anonymous: bool, payload: Seq<u8>) -> Option<u8> {
    if !anonymous && byte_at(payload, 6) == 1 && le48_at(payload, 0) == hash && le16_at(payload, 7)
        <= MAX_NODE_ID {
        Some(le16_at(payload, 7) as u8)
    } else {
        None
    }
}

pub open spec fn id_of(node: Option<CanNodeId>) -> Option<u8> {
    match node {
        Some(n) => Some(n.id()),
        None => None,
    }
}

impl PnpHandler {
    /// Create a new handler for the given 16-byte device unique ID.
    pub fn new(unique_id: &[u8; 16]) -> (h: PnpHandler)
        ensures
            h.unique_id_hash == unique_id_hash(unique_id@),
            h.unique_id_hash == crc64_we(unique_id@) as int % 0x1_0000_0000_0000,
            h.assigned_id is None,
    {
        PnpHandler { unique_id_hash: pnp_unique_id_hash(unique_id), assigned_id: None }
    }

    /// Takes in a message. Returns whether it is on the allocation subject.
    pub fn handle_message(&mut self, transfer: &MessageTransfer) -> (handled: bool)
        ensures
            handled == (transfer.subject == PNP_SUBJECT),
            handled == (transfer.subject == 8166),
            old(self).assigned_id is Some ==> id_of(final(self).assigned_id) == id_of(
                old(self).assigned_id,
            ),
            final(self).unique_id_hash == old(self).unique_id_hash,
            id_of(final(self).assigned_id) == if handled && old(self).assigned_id is None {
                allocated_id(
                    old(self).unique_id_hash,
                    transfer.source is None,
                    transfer.payload@,
                )
            } else {
                id_of(old(self).assigned_id)
            },
    {
        if transfer.subject != PNP_SUBJECT {
            return false;
        }
        // Only non-anonymous sources that match our hash and carry a node ID count.
        if transfer.source.is_none() {
            // Anonymous source → this is a request from another allocatee, not
            // a response from the allocator server.
            return true;
        }
        let msg = match decode_pnp_msg(transfer.payload.as_slice()) {
            Ok(msg) => msg,
            Err(_) => return true,
        };
        if msg.unique_id_hash != self.unique_id_hash {
            return true;
        }
        if self.assigned_id.is_none() {
            match msg.allocated_node_id {
                Some(id) => if id <= MAX_NODE_ID as u16 {
                    self.assigned_id = CanNodeId::try_from(id as u8);
                },
                None => {},
            }
        }
        true
    }
}

/// What the node does next while it has no ID.
#[derive(Clone, Copy, Debug, PartialEq, Eq, Structural)]
pub enum PnpStep {
    /// Allocation is complete.
    Allocated(u8),
    /// Publish this request, then call `request_result`.
    Publish(PnpMsg),
    /// Sleep for the idle period and poll again.
    Wait,
}

/// How publishing a request went.
#[derive(Clone, Copy, Debug, PartialEq, Eq, Structural)]
pub enum PublishOutcome {
    Published,
    WouldBlock,
    Failed,
}

/// The allocation phase of a node: when to ask for an ID, until one is assigned.
#[derive(Clone, Copy, Debug)]
pub struct PnpClient {
    pub unique_id: [u8; 16],
    pub handler: PnpHandler,
    pub requests_sent: u32,
    /// Tick from which the next request is due.
    pub next_request_at: u64,
}

impl PnpClient {
    /// The first request is due at once.
    pub fn new(unique_id: [u8; 16], now_ticks: u64) -> (c: PnpClient)
        ensures
            c.unique_id == unique_id,
            c.handler.unique_id_hash == unique_id_hash(unique_id@),
            c.handler.unique_id_hash == crc64_we(unique_id@) as int % 0x1_0000_0000_0000,
            c.handler.assigned_id is None,
            c.requests_sent == 0,
            c.next_request_at == now_ticks,
    {
        PnpClient {
            unique_id,
            handler: PnpHandler::new(&unique_id),
            requests_sent: 0,
            next_request_at: now_ticks,
        }
    }

    /// Decides what to do after the received messages were handled.
    pub fn poll(&self, now_ticks: u64) -> (step: PnpStep)
        ensures
            step == match self.handler.assigned_id {
                Some(id) => PnpStep::Allocated(id.id()),
                None => if now_ticks >= self.next_request_at {
                    PnpStep::Publish(
                        PnpMsg {
                            unique_id_hash: self.handler.unique_id_hash,
                            allocated_node_id: None,
                        },
                    )
                } else {
                    PnpStep::Wait
                },
            },
    {
        match self.handler.assigned_id {
            Some(id) => PnpStep::Allocated(id.to_u8()),
            None => if now_ticks >= self.next_request_at {
                PnpStep::Publish(
                    PnpMsg {
                        unique_id_hash: self.handler.unique_id_hash,
                        allocated_node_id: None,
                    },
                )
            } else {
                PnpStep::Wait
            },
        }
    }

    /// Takes in how publishing the request of `poll(now_ticks)` went, and sets the time of the
    /// next one. Only a request that was published counts; the result says whether the TX queue
    /// is to be flushed, which is then.
    pub fn request_result(&mut self, outcome: PublishOutcome, now_ticks: u64) -> (flush: bool)
        requires
            now_ticks + 1_000_000 <= u64::MAX,
        ensures
            flush == (outcome == PublishOutcome::Published),
            final(self).unique_id == old(self).unique_id,
            final(self).handler == old(self).handler,
            final(self).requests_sent == if flush {
                (old(self).requests_sent + 1) % 0x1_0000_0000
            } else {
                old(self).requests_sent as int
            },
            final(self).next_request_at == now_ticks + (PNP_RETRY_MIN_MS + retry_jitter_ms(
                old(self).unique_id@,
                final(self).requests_sent,
            )) * 1000,
            now_ticks + 150_000 <= final(self).next_request_at < now_ticks + 1_000_000,
    {
        let flush = match outcome {
            PublishOutcome::Published => {
                self.requests_sent = self.requests_sent.wrapping_add(1);
                true
            },
            PublishOutcome::WouldBlock => false,
            PublishOutcome::Failed => false,
        };
        let delay = pnp_request_retry_duration(&self.unique_id, self.requests_sent);
        self.next_request_at = now_ticks + delay.as_ticks();
        flush
    }
}

/// Once a node ID is assigned, no further message changes it, whoever sends it.
pub open spec fn assigned_after(
    hash: u64,
    assigned: Option<u8>,
    messages: Seq<(bool, Seq<u8>)>,
) -> Option<u8>
    decreases messages.len(),
{
    if messages.len() == 0 {
        assigned
    } else {
        let before = assigned_after(hash, assigned, messages.drop_last());
        let (anonymous, payload) = messages.last();
        if before is None {
            allocated_id(hash, anonymous, payload)
        } else {
            before
        }
    }
}

/// The handler ends up with the first ID that any of the messages assigns to its hash: all
/// messages before that one assign nothing to it, and those after it change nothing.
pub proof fn law_first_allocation_stands(hash: u64, messages: Seq<(bool, Seq<u8>)>, first: int)
    requires
        0 <= first < messages.len(),
        allocated_id(hash, messages[first].0, messages[first].1) is Some,
        forall|i: int|
            0 <= i < first ==> allocated_id(hash, #[trigger] messages[i].0, messages[i].1) is None,
    ensures
        assigned_after(hash, None, messages) == allocated_id(
            hash,
            messages[first].0,
            messages[first].1,
        ),
    decreases messages.len(),
{
    let rest = messages.drop_last();
    if first < messages.len() - 1 {
        assert(rest[first] == messages[first]);
        assert(forall|i: int| 0 <= i < first ==> rest[i] == messages[i]);
        law_first_allocation_stands(hash, rest, first);
    } else {
        lemma_no_allocation(hash, rest);
    }
}

proof fn lemma_no_allocation(hash: u64, messages: Seq<(bool, Seq<u8>)>)
    requires
        forall|i: int|
            0 <= i < messages.len() ==> allocated_id(
                hash,
                #[trigger] messages[i].0,
                messages[i].1,
            ) is None,
    ensures
        assigned_after(hash, None, messages) is None,
    decreases messages.len(),
{
    if messages.len() > 0 {
        let rest = messages.drop_last();
        assert(forall|i: int| 0 <= i < rest.len() ==> rest[i] == messages[i]);
        lemma_no_allocation(hash, rest);
    }
}

/// Byte `i` of a number, the lowest first.
pub open spec fn hash_byte(hash: int, i: int) -> int
    decreases i,
{
    if i <= 0 {
        hash % 256
    } else {
        hash_byte(hash / 256, i - 1)
    }
}

/// The serialised form of an allocation message with a node ID.
pub open spec fn encoded_allocation(hash: int, id: u8) -> Seq<u8> {
    Seq::new(6, |i: int| hash_byte(hash, i) as u8) + seq![1u8, id, 0u8]
}

proof fn lemma_hash_bytes(hash: int)
    requires
        0 <= hash < 0x1_0000_0000_0000,
    ensures
        forall|i: int| 0 <= i < 6 ==> 0 <= #[trigger] hash_byte(hash, i) < 256,
        hash_byte(hash, 0) + 0x100 * hash_byte(hash, 1) + 0x1_0000 * (hash_byte(hash, 2) + 0x100
            * hash_byte(hash, 3)) + 0x1_0000_0000 * (hash_byte(hash, 4) + 0x100 * hash_byte(
            hash,
            5,
        )) == hash,
{
    reveal_with_fuel(hash_byte, 7);
    let h1 = hash / 256;
    let h2 = h1 / 256;
    let h3 = h2 / 256;
    let h4 = h3 / 256;
    let h5 = h4 / 256;
    assert(hash_byte(hash, 0) == hash % 256);
    assert(hash_byte(hash, 1) == h1 % 256);
    assert(hash_byte(hash, 2) == h2 % 256);
    assert(hash_byte(hash, 3) == h3 % 256);
    assert(hash_byte(hash, 4) == h4 % 256);
    assert(hash_byte(hash, 5) == h5 % 256);
    assert forall|i: int| 0 <= i < 6 implies 0 <= #[trigger] hash_byte(hash, i) < 256 by {
        assert(i == 0 || i == 1 || i == 2 || i == 3 || i == 4 || i == 5);
    }
}

/// An allocation that a node with an ID sends for a hash gives the device with that hash, and no
/// other, the ID in it.
pub proof fn law_allocation_is_understood(hash: u64, other: u64, id: u8)
    requires
        hash < 0x1_0000_0000_0000,
        id <= MAX_NODE_ID,
    ensures
        allocated_id(other, false, encoded_allocation(hash as int, id)) == if other == hash {
            Some(id)
        } else {
            None::<u8>
        },
{
    let payload = encoded_allocation(hash as int, id);
    lemma_hash_bytes(hash as int);
    assert forall|i: int| 0 <= i < 6 implies #[trigger] byte_at(payload, i) == hash_byte(
        hash as int,
        i,
    ) by {
        assert(0 <= hash_byte(hash as int, i) < 256);
    }
    assert(le48_at(payload, 0) == hash);
}

/// Two devices whose first eight bytes have halves of the same exclusive-or wait equally long
/// before every attempt.
pub proof fn law_equal_halves_share_delays(a: Seq<u8>, b: Seq<u8>, attempt: u32)
    requires
        le32_at(a, 0) ^ le32_at(a, 4) == le32_at(b, 0) ^ le32_at(b, 4),
    ensures
        retry_jitter_ms(a, attempt) == retry_jitter_ms(b, attempt),
{
}

/// The CRC of no bytes is zero, and one more byte takes eight rounds of the register: shifted out
/// at the top, and with the polynomial added wherever a one was shifted out.
#[verifier::rlimit(40)]
pub proof fn law_crc_takes_in_byte_after_byte(bytes: Seq<u8>, b: u8)
    ensures
        crc64_we(Seq::empty()) == 0,
        ({
            let round = |c: u64|
                if c >= 0x8000_0000_0000_0000u64 {
                    (c << 1u64) ^ 0x42F0_E1EB_A9EA_3693u64
                } else {
                    c << 1u64
                };
            let start = (crc64_we(bytes) ^ 0xffff_ffff_ffff_ffffu64) ^ ((b as u64) << 56u64);
            (crc64_we(bytes.push(b)) ^ 0xffff_ffff_ffff_ffffu64) == round(
                round(round(round(round(round(round(round(start))))))),
            )
        }),
{
    let r = crc64_register(bytes);
    let q = crc64_register(bytes.push(b));
    assert(bytes.push(b).drop_last() =~= bytes);
    assert((r ^ 0xffff_ffff_ffff_ffffu64) ^ 0xffff_ffff_ffff_ffffu64 == r) by (bit_vector);
    assert((q ^ 0xffff_ffff_ffff_ffffu64) ^ 0xffff_ffff_ffff_ffffu64 == q) by (bit_vector);
    assert(0xffff_ffff_ffff_ffffu64 ^ 0xffff_ffff_ffff_ffffu64 == 0u64) by (bit_vector);
    reveal_with_fuel(crc64_bits, 9);
}

/// The hash of a unique ID is that of all of its bytes: the lowest 48 bits of their CRC, and so
/// the CRC of any other bytes with the same remainder.
pub proof fn law_hash_is_of_the_whole_id(unique_id: Seq<u8>)
    ensures
        unique_id_hash(unique_id) == crc64_we(unique_id) as int % 281_474_976_710_656,
        0 <= unique_id_hash(unique_id) < 281_474_976_710_656,
{
}

/// One round of the generator: every step adds the number to itself, shifted by 13 up, 17 down
/// and 5 up.
pub proof fn law_generator_round(x: u32)
    ensures
        ({
            let a = x ^ (x << 13u32);
            let b = a ^ (a >> 17u32);
            xorshift32(x) == b ^ (b << 5u32)
        }),
{
}

/// The delay of an attempt comes from the first eight bytes of the ID, taken as two
/// little-endian numbers, and the attempt times a constant modulo 2^32; it is below 850 ms.
pub proof fn law_jitter_mixes_id_and_attempt(id: Seq<u8>, attempt: u32)
    requires
        id.len() >= 8,
    ensures
        le32_at(id, 0) == id[0] + 0x100 * id[1] + 0x1_0000 * id[2] + 0x100_0000 * id[3],
        le32_at(id, 4) == id[4] + 0x100 * id[5] + 0x1_0000 * id[6] + 0x100_0000 * id[7],
        wrapping_product(attempt, 0x9E37_79B9) == (attempt * 0x9E37_79B9) % 0x1_0000_0000,
        retry_jitter_ms(id, attempt) == xorshift32(
            le32_at(id, 0) ^ le32_at(id, 4) ^ wrapping_product(attempt, 0x9E37_79B9),
        ) as int % 850,
        0 <= retry_jitter_ms(id, attempt) < 850,
{
}

/// An allocation counts exactly when it comes from a node with an ID, carries the device's hash
/// and one number, and that number is at most 127; what counts is that number. What a message
/// breaks off before is zero.
#[verifier::rlimit(40)]
pub proof fn law_allocation_counts_when_it_is_meant(hash: u64, anonymous: bool, payload: Seq<u8>)
    ensures
        ({
            let b = |i: int| if i < payload.len() { payload[i] as int } else { 0 };
            let carried = b(0) + 0x100 * b(1) + 0x1_0000 * b(2) + 0x100_0000 * b(3) + 0x1_0000_0000
                * b(4) + 0x100_0000_0000 * b(5);
            let number = b(7) + 256 * b(8);
            allocated_id(hash, anonymous, payload) == if !anonymous && carried == hash && b(6) == 1
                && number <= 127 {
                Some(number as u8)
            } else {
                None::<u8>
            }
        }),
{
}

/// A node shows the ID that it has.
pub proof fn law_node_shows_its_id(node: CanNodeId)
    ensures
        id_of(Some(node)) == Some(node.id()),
        id_of(None) is None,
{
}

/// While it has no ID, the node polls for 20 ms at a time and sleeps for 1 ms in between.
pub proof fn law_polling_times()
    ensures
        PNP_POLL_TIMEOUT_MS == 20,
        LOOP_SLEEP_IDLE_MS == 1,
{
}

} // verus!
