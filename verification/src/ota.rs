//! OTA firmware update session.
//!
//! [`OtaSession`] holds the state of a single Cyphal firmware-over-CAN download and decides
//! every step of it. The caller performs the steps: it sends `file.Read` requests, writes
//! flash, marks the image, and reports how each of them went.
//!
//! # Lifecycle
//! 1. `new()` → inactive session
//! 2. `start()` / `start_at_ticks()` → arms the session for a new download
//! 3. `drive_step()` → says what to do next; `chunk_written()`, `marked_updated()` and
//!    `request_result()` take in the outcome
//! 4. `clear()` → resets all state (also called on abort or completion)
use vstd::prelude::*;
use vstd::slice::slice_to_vec;
use crate::byte_buf::ByteBuf;
use crate::execute_command::{RESET_NONE, RESET_SOFT};
use crate::time::{
    sat_add_u64, sat_mul_u64, sat_sub_u64, saturating_mul_u64, shown_by_timer, timer_ticks, Duration,
    TICK_HZ,
};
use crate::wire::{
    byte_at, bytes_at, decode_read_response, le16_at, CanNodeId, FILE_ERROR_OK, FILE_PATH_MAX_LENGTH,
};

verus! {

/// Maximum serialised payload buffer for `file.Read` responses.
pub const READ_RESPONSE_PAYLOAD_MAX: usize = 300;
/// Number of firmware bytes requested per `file.Read` call.
pub const READ_CHUNK_SIZE: usize = 256;
/// Seconds to wait for a `file.Read` response before timing out.
pub const OTA_RESPONSE_TIMEOUT_SECS: u64 = 2;
/// Maximum consecutive `file.Read` timeouts before aborting.
pub const OTA_TIMEOUT_RETRY_LIMIT: u8 = 8;
/// A progress message is due every this many downloaded bytes.
pub const OTA_PROGRESS_LOG_STEP: usize = 16384;

/// Why a download was given up.
#[derive(Clone, Copy, Debug, PartialEq, Eq, Structural)]
pub enum AbortReason {
    /// The `file.Read` response could not be decoded.
    InvalidResponse,
    /// The server reported an error.
    FileError,
    /// A chunk could not be written to flash.
    FlashWrite,
    /// The new image could not be marked.
    MarkUpdated,
    /// Too many responses in a row did not come.
    ResponseTimeout,
    /// A request could not be sent.
    SendRequest,
}

/// What the caller is to do next.
#[derive(Debug)]
pub enum OtaAction {
    /// Nothing in this iteration.
    Idle,
    /// Nothing; the download was given up.
    Aborted(AbortReason),
    /// Write `chunk` to the image at `offset`, then call `chunk_written`.
    WriteChunk { offset: usize, chunk: Vec<u8> },
    /// The image is complete: mark it as updated, then call `marked_updated`.
    MarkUpdated,
    /// Send a `file.Read` request, then call `request_result`.
    SendRequest { file_offset: u64, path: Vec<u8>, server: CanNodeId },
}

/// How sending a request went.
#[derive(Clone, Copy, Debug, PartialEq, Eq, Structural)]
pub enum SendOutcome {
    Sent,
    /// The TX queue is full; the request is made again in the next iteration.
    WouldBlock,
    Failed,
}

/// Figures of a finished transfer.
#[derive(Clone, Copy, Debug, PartialEq, Eq, Structural)]
pub struct TransferStats {
    pub elapsed_ms: u64,
    pub effective_bitrate_bps: u64,
    pub wait_ms: u64,
    pub write_ms: u64,
    pub other_ms: u64,
    pub wait_pct: u64,
    pub write_pct: u64,
    pub avg_chunk_bytes: usize,
}

/// What a session keeps to itself.
pub struct OtaInternals {
    server_node: CanNodeId,
    path: ByteBuf,
    start_tick: u64,
    wait_started_tick: u64,
    total_wait_ticks: u64,
    total_write_ticks: u64,
    next_progress_log_at: usize,
    /// Absolute tick at which the current request times out.
    response_deadline_ticks: u64,
}

/// State machine for a single OTA firmware download session.
pub struct OtaSession {
    /// Whether a download is currently in progress.
    pub active: bool,
    /// Next byte offset to request from the file server.
    pub next_offset: usize,
    /// Total `file.Read` requests sent in this session.
    pub requests_sent: u32,
    /// Total `file.Read` responses received.
    pub responses_received: u32,
    /// Total chunks written to flash.
    pub chunks_written: u32,
    /// Whether we are waiting for the response to the most recent request.
    pub waiting_response: bool,
    /// Number of consecutive response timeouts.
    pub response_timeouts: u8,
    /// Payload of a `file.Read` response that has arrived and was not looked at yet.
    pub pending_response_payload: Option<ByteBuf>,
    pub internals: OtaInternals,
}

/// Model of what a session keeps to itself.
pub struct OtaInternalState {
    pub server_node: u8,
    pub path: Seq<u8>,
    /// The longest path that the buffer of the path holds.
    pub path_capacity: nat,
    pub start_tick: int,
    pub wait_started_tick: int,
    pub total_wait_ticks: int,
    pub total_write_ticks: int,
    pub next_progress_log_at: int,
    pub response_deadline_ticks: int,
}

impl View for OtaInternals {
    type V = OtaInternalState;

    closed spec fn view(&self) -> OtaInternalState {
        OtaInternalState {
            server_node: self.server_node.id(),
            path: self.path@,
            path_capacity: self.path.cap(),
            start_tick: self.start_tick as int,
            wait_started_tick: self.wait_started_tick as int,
            total_wait_ticks: self.total_wait_ticks as int,
            total_write_ticks: self.total_write_ticks as int,
            next_progress_log_at: self.next_progress_log_at as int,
            response_deadline_ticks: self.response_deadline_ticks as int,
        }
    }
}

/// Model of an [`OtaSession`].
pub struct OtaState {
    pub active: bool,
    pub server_node: u8,
    pub path: Seq<u8>,
    pub next_offset: int,
    pub requests_sent: int,
    pub responses_received: int,
    pub chunks_written: int,
    pub start_tick: int,
    pub wait_started_tick: int,
    pub total_wait_ticks: int,
    pub total_write_ticks: int,
    pub next_progress_log_at: int,
    pub waiting_response: bool,
    pub response_deadline_ticks: int,
    pub response_timeouts: int,
    pub pending: Option<Seq<u8>>,
}

/// Model of an [`OtaAction`].
pub enum OtaEffect {
    Idle,
    Aborted(AbortReason),
    WriteChunk { offset: int, chunk: Seq<u8> },
    MarkUpdated,
    SendRequest { offset: int, path: Seq<u8>, server: u8 },
}

/// `n + 1`, capped at the largest `u32`.
pub open spec fn sat_inc_u32(n: int) -> int {
    if n >= u32::MAX { u32::MAX as int } else { n + 1 }
}

impl OtaState {
    /// The state of a session in which nothing happens.
    pub open spec fn cleared() -> OtaState {
        OtaState {
            active: false,
            server_node: 0,
            path: Seq::empty(),
            next_offset: 0,
            requests_sent: 0,
            responses_received: 0,
            chunks_written: 0,
            start_tick: 0,
            wait_started_tick: 0,
            total_wait_ticks: 0,
            total_write_ticks: 0,
            next_progress_log_at: OTA_PROGRESS_LOG_STEP as int,
            waiting_response: false,
            response_deadline_ticks: 0,
            response_timeouts: 0,
            pending: None,
        }
    }

    /// The state of a session that was just armed.
    pub open spec fn armed(server: u8, path: Seq<u8>, start_tick: int) -> OtaState {
        OtaState {
            active: true,
            server_node: server,
            path,
            start_tick,
            ..OtaState::cleared()
        }
    }

    pub open spec fn wf(self) -> bool {
        &&& !self.active ==> self == OtaState::cleared()
        &&& self.active ==> 1 <= self.path.len() <= FILE_PATH_MAX_LENGTH
        &&& self.next_offset < self.next_progress_log_at <= self.next_offset
            + OTA_PROGRESS_LOG_STEP
        &&& self.response_timeouts <= OTA_TIMEOUT_RETRY_LIMIT
        &&& self.pending matches Some(p) ==> p.len() <= READ_RESPONSE_PAYLOAD_MAX
    }

    /// The time since the request was sent is added to the waiting time.
    pub open spec fn waited(self, now: int) -> OtaState {
        OtaState {
            total_wait_ticks: if self.wait_started_tick != 0 {
                sat_add_u64(self.total_wait_ticks, sat_sub_u64(now, self.wait_started_tick))
            } else {
                self.total_wait_ticks
            },
            wait_started_tick: 0,
            ..self
        }
    }

    /// A response was taken in.
    pub open spec fn answered(self, now: int) -> OtaState {
        OtaState {
            waiting_response: false,
            response_timeouts: 0,
            responses_received: sat_inc_u32(self.responses_received),
            pending: None,
            ..self.waited(now)
        }
    }

    /// The response did not come in time.
    pub open spec fn timed_out(self, now: int) -> OtaState {
        OtaState {
            waiting_response: false,
            response_timeouts: self.response_timeouts + 1,
            ..self.waited(now)
        }
    }

    /// A chunk of `len` bytes was written.
    pub open spec fn wrote(self, len: int, start: int, end: int) -> OtaState {
        OtaState {
            total_write_ticks: sat_add_u64(self.total_write_ticks, sat_sub_u64(end, start)),
            chunks_written: sat_inc_u32(self.chunks_written),
            next_offset: self.next_offset + len,
            next_progress_log_at: if self.next_offset + len >= self.next_progress_log_at {
                self.next_progress_log_at + OTA_PROGRESS_LOG_STEP
            } else {
                self.next_progress_log_at
            },
            ..self
        }
    }

    /// A request was sent.
    pub open spec fn requested(self, wait_started: int, now: int) -> OtaState {
        OtaState {
            requests_sent: sat_inc_u32(self.requests_sent),
            waiting_response: true,
            wait_started_tick: wait_started,
            response_deadline_ticks: now + OTA_RESPONSE_TIMEOUT_SECS * TICK_HZ,
            ..self
        }
    }

    /// The request for the next chunk.
    pub open spec fn request(self) -> OtaEffect {
        OtaEffect::SendRequest {
            offset: self.next_offset,
            path: self.path,
            server: self.server_node,
        }
    }
}

/// Whether a `file.Read` response can be decoded: its length field is within bounds.
pub open spec fn response_decodes(p: Seq<u8>) -> bool {
    le16_at(p, 2) <= READ_CHUNK_SIZE
}

/// Whether the error code of a `file.Read` response is OK.
pub open spec fn response_is_ok(p: Seq<u8>) -> bool {
    byte_at(p, 0) == 0 && byte_at(p, 1) == 0
}

/// The file data of a `file.Read` response.
pub open spec fn response_data(p: Seq<u8>) -> Seq<u8> {
    bytes_at(p, 4, le16_at(p, 2))
}

/// One iteration of the download: the next state and what is to be done.
pub open spec fn drive(s: OtaState, now: int) -> (OtaState, OtaEffect) {
    if !s.active {
        (s, OtaEffect::Idle)
    } else if !s.waiting_response {
        (s, s.request())
    } else {
        match s.pending {
            Some(p) => if !response_decodes(p) {
                (OtaState::cleared(), OtaEffect::Aborted(AbortReason::InvalidResponse))
            } else if !response_is_ok(p) {
                (OtaState::cleared(), OtaEffect::Aborted(AbortReason::FileError))
            } else if response_data(p).len() == 0 {
                (s.answered(now), OtaEffect::MarkUpdated)
            } else {
                (
                    s.answered(now),
                    OtaEffect::WriteChunk { offset: s.next_offset, chunk: response_data(p) },
                )
            },
            None => if now < s.response_deadline_ticks {
                (s, OtaEffect::Idle)
            } else if s.response_timeouts < OTA_TIMEOUT_RETRY_LIMIT {
                (s.timed_out(now), OtaEffect::Idle)
            } else {
                (OtaState::cleared(), OtaEffect::Aborted(AbortReason::ResponseTimeout))
            },
        }
    }
}

/// What follows a chunk of `len` bytes that was written: a short chunk ends the file.
pub open spec fn after_chunk(s: OtaState, len: int) -> OtaEffect {
    if len < READ_CHUNK_SIZE {
        OtaEffect::MarkUpdated
    } else {
        s.request()
    }
}

impl OtaAction {
    pub open spec fn effect(&self) -> OtaEffect {
        match *self {
            OtaAction::Idle => OtaEffect::Idle,
            OtaAction::Aborted(reason) => OtaEffect::Aborted(reason),
            OtaAction::WriteChunk { offset, chunk } => OtaEffect::WriteChunk {
                offset: offset as int,
                chunk: chunk@,
            },
            OtaAction::MarkUpdated => OtaEffect::MarkUpdated,
            OtaAction::SendRequest { file_offset, path, server } => OtaEffect::SendRequest {
                offset: file_offset as int,
                path: path@,
                server: server.id(),
            },
        }
    }
}

/// Ticks in whole milliseconds, with the product capped.
pub open spec fn ticks_ms(ticks: int) -> int {
    sat_mul_u64(ticks, 1000) / (TICK_HZ as int)
}

/// `part` as a percentage of `whole`; zero where there is no whole.
pub open spec fn percent(part: int, whole: int) -> int {
    if whole > 0 { sat_mul_u64(part, 100) / whole } else { 0 }
}

impl View for OtaSession {
    type V = OtaState;

    open spec fn view(&self) -> OtaState {
        OtaState {
            active: self.active,
            server_node: self.internals@.server_node,
            path: self.internals@.path,
            next_offset: self.next_offset as int,
            requests_sent: self.requests_sent as int,
            responses_received: self.responses_received as int,
            chunks_written: self.chunks_written as int,
            start_tick: self.internals@.start_tick,
            wait_started_tick: self.internals@.wait_started_tick,
            total_wait_ticks: self.internals@.total_wait_ticks,
            total_write_ticks: self.internals@.total_write_ticks,
            next_progress_log_at: self.internals@.next_progress_log_at,
            waiting_response: self.waiting_response,
            response_deadline_ticks: self.internals@.response_deadline_ticks,
            response_timeouts: self.response_timeouts as int,
            pending: match self.pending_response_payload {
                Some(p) => Some(p@),
                None => None,
            },
        }
    }
}

impl OtaSession {
    /// The buffer of the path holds the longest one.
    pub open spec fn path_fits(&self) -> bool {
        self.internals@.path_capacity == FILE_PATH_MAX_LENGTH
    }

    pub open spec fn wf(&self) -> bool {
        &&& self@.wf()
        &&& self.path_fits()
    }

    /// Create a new, inactive OTA session.
    pub fn new() -> (s: OtaSession)
        ensures
            s.wf(),
            s@ == OtaState::cleared(),
    {
        OtaSession {
            active: false,
            next_offset: 0,
            requests_sent: 0,
            responses_received: 0,
            chunks_written: 0,
            waiting_response: false,
            response_timeouts: 0,
            pending_response_payload: None,
            internals: OtaInternals {
                server_node: CanNodeId::min(),
                path: ByteBuf::new::<FILE_PATH_MAX_LENGTH>(),
                start_tick: 0,
                wait_started_tick: 0,
                total_wait_ticks: 0,
                total_write_ticks: 0,
                next_progress_log_at: OTA_PROGRESS_LOG_STEP,
                response_deadline_ticks: 0,
            },
        }
    }

    /// Arm the session, using an explicit start tick.
    ///
    /// Returns `Err(())` if:
    /// - a download is already active
    /// - `path_bytes` is empty or longer than [`FILE_PATH_MAX_LENGTH`]
    pub fn start_at_ticks(
        &mut self,
        server_node: CanNodeId,
        path_bytes: &[u8],
        start_ticks: u64,
    ) -> (r: Result<(), ()>)
        requires
            old(self).wf(),
        ensures
            final(self).wf(),
            r is Ok <==> !old(self)@.active && 1 <= path_bytes@.len() <= FILE_PATH_MAX_LENGTH,
            r is Ok <==> !old(self).active && 1 <= path_bytes@.len() <= 255,
            r is Ok ==> final(self).active && final(self)@.path == path_bytes@ && final(
                self)@.server_node == server_node.id(),
            final(self)@ == if r is Ok {
                OtaState::armed(server_node.id(), path_bytes@, start_ticks as int)
            } else {
                old(self)@
            },
    {
        if self.active {
            return Err(());
        }
        if path_bytes.len() == 0 || path_bytes.len() > FILE_PATH_MAX_LENGTH {
            return Err(());
        }
        let path = match ByteBuf::from_slice::<FILE_PATH_MAX_LENGTH>(path_bytes) {
            Some(path) => path,
            None => return Err(()),
        };
        self.active = true;
        self.internals.server_node = server_node;
        self.internals.path = path;
        self.reset_transfer_state(start_ticks);
        Ok(())
    }

    /// Arm the session using the current Embassy clock for the start timestamp.
    ///
    /// Use [`OtaSession::start_at_ticks`] directly when you need explicit tick control.
    pub fn start(&mut self, server_node: CanNodeId, path_bytes: &[u8]) -> (r: Result<(), ()>)
        requires
            old(self).wf(),
        ensures
            final(self).wf(),
            r is Ok <==> !old(self)@.active && 1 <= path_bytes@.len() <= FILE_PATH_MAX_LENGTH,
            final(self)@ == if r is Ok {
                OtaState::armed(server_node.id(), path_bytes@, final(self)@.start_tick)
            } else {
                old(self)@
            },
            r is Ok ==> exists|ticks: u64|
                #[trigger] shown_by_timer(ticks) && final(self)@.start_tick == ticks,
    {
        let now: u64 = timer_ticks();
        self.start_at_ticks(server_node, path_bytes, now)
    }

    /// Reset all state to inactive.
    pub fn clear(&mut self)
        requires
            old(self).path_fits(),
        ensures
            final(self).wf(),
            final(self)@ == OtaState::cleared(),
    {
        self.active = false;
        self.internals.server_node = CanNodeId::min();
        self.internals.path.clear();
        self.reset_transfer_state(0);
    }

    fn reset_transfer_state(&mut self, start_tick: u64)
        ensures
            final(self).internals@.path_capacity == old(self).internals@.path_capacity,
            final(self)@ == (OtaState {
                active: old(self)@.active,
                server_node: old(self)@.server_node,
                path: old(self)@.path,
                start_tick: start_tick as int,
                ..OtaState::cleared()
            }),
    {
        self.next_offset = 0;
        self.requests_sent = 0;
        self.responses_received = 0;
        self.chunks_written = 0;
        self.internals.start_tick = start_tick;
        self.internals.wait_started_tick = 0;
        self.internals.total_wait_ticks = 0;
        self.internals.total_write_ticks = 0;
        self.internals.next_progress_log_at = OTA_PROGRESS_LOG_STEP;
        self.waiting_response = false;
        self.internals.response_deadline_ticks = 0;
        self.response_timeouts = 0;
        self.pending_response_payload = None;
    }

    fn accumulate_wait_ticks(&mut self, now_ticks: u64)
        ensures
            final(self).internals@.path_capacity == old(self).internals@.path_capacity,
            final(self)@ == old(self)@.waited(now_ticks as int),
    {
        if self.internals.wait_started_tick != 0 {
            self.internals.total_wait_ticks = self.internals.total_wait_ticks.saturating_add(
                now_ticks.saturating_sub(self.internals.wait_started_tick),
            );
        }
        self.internals.wait_started_tick = 0;
    }

    /// Ticks in milliseconds.
    pub fn ticks_to_ms(ticks: u64) -> (ms: u64)
        ensures
            ms == ticks_ms(ticks as int),
    {
        saturating_mul_u64(ticks, 1000) / TICK_HZ
    }

    fn abort(&mut self, reason: AbortReason) -> (action: OtaAction)
        requires
            old(self).path_fits(),
        ensures
            final(self).wf(),
            final(self)@ == OtaState::cleared(),
            action == OtaAction::Aborted(reason),
    {
        self.clear();
        OtaAction::Aborted(reason)
    }

    fn next_request(&self) -> (action: OtaAction)
        ensures
            action.effect() == self@.request(),
    {
        OtaAction::SendRequest {
            file_offset: self.next_offset as u64,
            path: slice_to_vec(self.internals.path.as_slice()),
            server: self.internals.server_node,
        }
    }

    /// Hands in the payload of a `file.Read` response. Returns whether the response belongs to
    /// this download: it is waited for and comes from the file server. A payload that is larger
    /// than any response can be is dropped.
    pub fn take_response(&mut self, source: CanNodeId, payload: &[u8]) -> (taken: bool)
        requires
            old(self).wf(),
        ensures
            final(self).wf(),
            taken == (old(self)@.active && old(self)@.waiting_response && source.id()
                == old(self)@.server_node),
            taken && payload@.len() <= 300 ==> final(self)@.pending == Some(payload@),
            !taken || payload@.len() > 300 ==> final(self)@ == old(self)@,
            final(self)@ == if taken && payload@.len() <= READ_RESPONSE_PAYLOAD_MAX {
                OtaState { pending: Some(payload@), ..old(self)@ }
            } else {
                old(self)@
            },
    {
        if !self.active || !self.waiting_response {
            return false;
        }
        if source.to_u8() != self.internals.server_node.to_u8() {
            return false;
        }
        match ByteBuf::from_slice::<READ_RESPONSE_PAYLOAD_MAX>(payload) {
            Some(p) => {
                self.pending_response_payload = Some(p);
            },
            None => {},
        }
        true
    }

    /// Drive one iteration of the download.
    pub fn drive_step(&mut self, now_ticks: u64) -> (action: OtaAction)
        requires
            old(self).wf(),
        ensures
            final(self).wf(),
            final(self)@ == drive(old(self)@, now_ticks as int).0,
            action.effect() == drive(old(self)@, now_ticks as int).1,
            action is MarkUpdated ==> (old(self)@.pending matches Some(p) && (p.len() > 0 ==> p[0]
                == 0) && (p.len() > 1 ==> p[1] == 0)),
    {
        if !self.active {
            return OtaAction::Idle;
        }
        if !self.waiting_response {
            return self.next_request();
        }
        match self.pending_response_payload.take() {
            Some(payload) => {
                self.accumulate_wait_ticks(now_ticks);
                self.waiting_response = false;
                self.response_timeouts = 0;
                self.responses_received = self.responses_received.saturating_add(1);
                let response = match decode_read_response(payload.as_slice()) {
                    Ok(response) => response,
                    Err(_) => {
                        return self.abort(AbortReason::InvalidResponse);
                    },
                };
                if response.error != FILE_ERROR_OK {
                    return self.abort(AbortReason::FileError);
                }
                if response.data.len() == 0 {
                    OtaAction::MarkUpdated
                } else {
                    OtaAction::WriteChunk { offset: self.next_offset, chunk: response.data }
                }
            },
            None => {
                if now_ticks < self.internals.response_deadline_ticks {
                    return OtaAction::Idle;
                }
                self.accumulate_wait_ticks(now_ticks);
                self.waiting_response = false;
                self.response_timeouts = self.response_timeouts.saturating_add(1);
                if self.response_timeouts > OTA_TIMEOUT_RETRY_LIMIT {
                    self.abort(AbortReason::ResponseTimeout)
                } else {
                    OtaAction::Idle
                }
            },
        }
    }

    /// Takes in how writing a chunk of `chunk_len` bytes went, and when it began and ended.
    pub fn chunk_written(
        &mut self,
        chunk_len: usize,
        written: bool,
        start_tick: u64,
        end_tick: u64,
    ) -> (action: OtaAction)
        requires
            old(self).wf(),
            old(self)@.active,
            !old(self)@.waiting_response,
            1 <= chunk_len <= READ_CHUNK_SIZE,
            old(self)@.next_offset + chunk_len + 2 * OTA_PROGRESS_LOG_STEP <= usize::MAX,
        ensures
            final(self).wf(),
            ({
                let s = old(self)@.wrote(chunk_len as int, start_tick as int, end_tick as int);
                if written {
                    final(self)@ == s && action.effect() == after_chunk(s, chunk_len as int)
                } else {
                    final(self)@ == OtaState::cleared() && action == OtaAction::Aborted(
                        AbortReason::FlashWrite,
                    )
                }
            }),
    {
        if !written {
            return self.abort(AbortReason::FlashWrite);
        }
        self.internals.total_write_ticks = self.internals.total_write_ticks.saturating_add(
            end_tick.saturating_sub(start_tick),
        );
        self.chunks_written = self.chunks_written.saturating_add(1);
        self.next_offset = self.next_offset + chunk_len;
        if self.next_offset >= self.internals.next_progress_log_at {
            self.internals.next_progress_log_at = self.internals.next_progress_log_at
                + OTA_PROGRESS_LOG_STEP;
        }
        if chunk_len < READ_CHUNK_SIZE {
            OtaAction::MarkUpdated
        } else {
            self.next_request()
        }
    }

    /// Figures of the transfer as of `now_ticks`.
    pub fn transfer_stats(&self, now_ticks: u64) -> (stats: TransferStats)
        ensures
            ({
                let elapsed = sat_sub_u64(now_ticks as int, self@.start_tick);
                &&& stats.elapsed_ms == ticks_ms(elapsed)
                &&& stats.effective_bitrate_bps == if elapsed > 0 {
                    sat_mul_u64(sat_mul_u64(self@.next_offset, 8), TICK_HZ as int) / elapsed
                } else {
                    0
                }
                &&& elapsed > 0 && self@.next_offset * 8_000_000 <= u64::MAX
                    ==> stats.effective_bitrate_bps == self@.next_offset * 8_000_000 / elapsed
                &&& stats.wait_ms == ticks_ms(self@.total_wait_ticks)
                &&& stats.write_ms == ticks_ms(self@.total_write_ticks)
                &&& stats.other_ms == sat_sub_u64(
                    stats.elapsed_ms as int,
                    sat_add_u64(stats.wait_ms as int, stats.write_ms as int),
                )
                &&& stats.wait_pct == percent(self@.total_wait_ticks, elapsed)
                &&& stats.write_pct == percent(self@.total_write_ticks, elapsed)
                &&& stats.avg_chunk_bytes == if self@.chunks_written > 0 {
                    self@.next_offset / self@.chunks_written
                } else {
                    0
                }
            }),
    {
        let elapsed: u64 = now_ticks.saturating_sub(self.internals.start_tick);
        let elapsed_ms: u64 = OtaSession::ticks_to_ms(elapsed);
        let wait_ms: u64 = OtaSession::ticks_to_ms(self.internals.total_wait_ticks);
        let write_ms: u64 = OtaSession::ticks_to_ms(self.internals.total_write_ticks);
        let bits: u64 = saturating_mul_u64(self.next_offset as u64, 8);
        TransferStats {
            elapsed_ms,
            effective_bitrate_bps: if elapsed > 0 {
                saturating_mul_u64(bits, TICK_HZ) / elapsed
            } else {
                0
            },
            wait_ms,
            write_ms,
            other_ms: elapsed_ms.saturating_sub(wait_ms.saturating_add(write_ms)),
            wait_pct: if elapsed > 0 {
                saturating_mul_u64(self.internals.total_wait_ticks, 100) / elapsed
            } else {
                0
            },
            write_pct: if elapsed > 0 {
                saturating_mul_u64(self.internals.total_write_ticks, 100) / elapsed
            } else {
                0
            },
            avg_chunk_bytes: if self.chunks_written > 0 {
                self.next_offset / (self.chunks_written as usize)
            } else {
                0
            },
        }
    }

    /// Takes in whether the image was marked as updated. The session ends either way; the
    /// result is the reset to request, a soft one after success.
    pub fn marked_updated(&mut self, marked: bool) -> (reset: u8)
        requires
            old(self).wf(),
        ensures
            final(self).wf(),
            final(self)@ == OtaState::cleared(),
            reset == if marked { RESET_SOFT } else { RESET_NONE },
            reset == if marked { 1u8 } else { 0u8 },
    {
        if marked {
            self.clear();
            RESET_SOFT
        } else {
            let _ = self.abort(AbortReason::MarkUpdated);
            RESET_NONE
        }
    }

    /// Takes in how sending the request went. `wait_started` and `now_ticks` are two readings
    /// of the clock after it was sent.
    pub fn request_result(
        &mut self,
        outcome: SendOutcome,
        wait_started: u64,
        now_ticks: u64,
    ) -> (action: OtaAction)
        requires
            old(self).wf(),
            old(self)@.active,
            now_ticks + OTA_RESPONSE_TIMEOUT_SECS * TICK_HZ <= u64::MAX,
        ensures
            final(self).wf(),
            match outcome {
                SendOutcome::Sent => final(self)@ == old(self)@.requested(
                    wait_started as int,
                    now_ticks as int,
                ) && action == OtaAction::Idle,
                SendOutcome::WouldBlock => final(self)@ == old(self)@ && action == OtaAction::Idle,
                SendOutcome::Failed => final(self)@ == OtaState::cleared() && action
                    == OtaAction::Aborted(AbortReason::SendRequest),
            },
    {
        match outcome {
            SendOutcome::Sent => {
                self.requests_sent = self.requests_sent.saturating_add(1);
                self.waiting_response = true;
                self.internals.wait_started_tick = wait_started;
                self.internals.response_deadline_ticks = now_ticks + Duration::from_secs(
                    OTA_RESPONSE_TIMEOUT_SECS,
                ).as_ticks();
                OtaAction::Idle
            },
            SendOutcome::WouldBlock => OtaAction::Idle,
            SendOutcome::Failed => self.abort(AbortReason::SendRequest),
        }
    }
}

impl Default for OtaSession {
    fn default() -> (s: OtaSession)
        ensures
            s.wf(),
            s@ == OtaState::cleared(),
    {
        OtaSession::new()
    }
}

/// The part of `file` that a server returns for a request at `offset`.
pub open spec fn file_chunk(file: Seq<u8>, offset: int) -> Seq<u8> {
    file.subrange(
        offset,
        if offset + READ_CHUNK_SIZE < file.len() {
            offset + READ_CHUNK_SIZE
        } else {
            file.len() as int
        },
    )
}

/// The serialised `file.Read` response that carries `chunk`.
pub open spec fn read_reply(chunk: Seq<u8>) -> Seq<u8> {
    seq![0u8, 0u8, (chunk.len() % 256) as u8, (chunk.len() / 256) as u8] + chunk
}

/// What flash holds after `chunk` was written at `offset`, as far as the image reaches.
pub open spec fn flash_write(flash: Seq<u8>, offset: int, chunk: Seq<u8>) -> Seq<u8> {
    flash.take(offset) + chunk
}

/// A download in which the server answers every request from `file` and every write succeeds.
/// `clock` gives the readings of the clock, three for each offset. The result is the last
/// state, the contents of flash, and what is to be done then.
pub open spec fn download(
    s: OtaState,
    file: Seq<u8>,
    flash: Seq<u8>,
    clock: spec_fn(int, int) -> int,
) -> (OtaState, Seq<u8>, OtaEffect)
    decreases file.len() - s.next_offset,
{
    let o = s.next_offset;
    let waiting = OtaState {
        pending: Some(read_reply(file_chunk(file, o))),
        ..s.requested(clock(o, 0), clock(o, 0))
    };
    let (next, effect) = drive(waiting, clock(o, 1));
    match effect {
        OtaEffect::WriteChunk { offset, chunk } => {
            let written = next.wrote(chunk.len() as int, clock(o, 1), clock(o, 2));
            let flashed = flash_write(flash, offset, chunk);
            let follow_up = after_chunk(written, chunk.len() as int);
            if follow_up is SendRequest && o < written.next_offset <= file.len() {
                download(written, file, flashed, clock)
            } else {
                (written, flashed, follow_up)
            }
        },
        _ => (next, flash, effect),
    }
}

proof fn lemma_reply_carries_chunk(chunk: Seq<u8>)
    requires
        chunk.len() <= READ_CHUNK_SIZE,
    ensures
        response_decodes(read_reply(chunk)),
        response_is_ok(read_reply(chunk)),
        response_data(read_reply(chunk)) == chunk,
{
    let p = read_reply(chunk);
    assert(p[2] == (chunk.len() % 256) as u8);
    assert(p[3] == (chunk.len() / 256) as u8);
    assert(le16_at(p, 2) == chunk.len());
    assert(response_data(p) =~= chunk);
}

proof fn lemma_download(
    s: OtaState,
    file: Seq<u8>,
    flash: Seq<u8>,
    clock: spec_fn(int, int) -> int,
)
    requires
        s.active,
        0 <= s.next_offset <= file.len(),
        flash == file.take(s.next_offset),
    ensures
        download(s, file, flash, clock).0.active,
        download(s, file, flash, clock).0.next_offset == file.len(),
        download(s, file, flash, clock).1 == file,
        download(s, file, flash, clock).2 == OtaEffect::MarkUpdated,
    decreases file.len() - s.next_offset,
{
    let o = s.next_offset;
    let chunk = file_chunk(file, o);
    lemma_reply_carries_chunk(chunk);
    if chunk.len() == 0 {
        assert(flash =~= file);
    } else {
        let flashed = flash_write(flash, o, chunk);
        assert(flashed =~= file.take(o + chunk.len()));
        if chunk.len() == READ_CHUNK_SIZE {
            let waiting = OtaState {
                pending: Some(read_reply(chunk)),
                ..s.requested(clock(o, 0), clock(o, 0))
            };
            let (next, effect) = drive(waiting, clock(o, 1));
            assert(effect == OtaEffect::WriteChunk { offset: o, chunk });
            let written = next.wrote(chunk.len() as int, clock(o, 1), clock(o, 2));
            lemma_download(written, file, flashed, clock);
        } else {
            assert(flashed =~= file);
        }
    }
}

/// A download writes the file: when the server answers every request out of `file`, the session
/// ends by marking the image as updated, and by then flash holds exactly `file`.
pub proof fn law_download_writes_the_file(
    server: u8,
    path: Seq<u8>,
    start_tick: int,
    file: Seq<u8>,
    clock: spec_fn(int, int) -> int,
)
    ensures
        ({
            let (s, flash, effect) = download(
                OtaState::armed(server, path, start_tick),
                file,
                Seq::empty(),
                clock,
            );
            &&& flash == file
            &&& s.next_offset == file.len()
            &&& effect == OtaEffect::MarkUpdated
        }),
{
    assert(Seq::<u8>::empty() =~= file.take(0));
    lemma_download(OtaState::armed(server, path, start_tick), file, Seq::empty(), clock);
}

/// A session after `n` requests in a row that no response came for. `clock` gives the readings
/// of the clock: when request `i` was sent, and when it was found to have timed out.
pub open spec fn after_timeouts(s: OtaState, n: nat, clock: spec_fn(int, int) -> int) -> OtaState
    decreases n,
{
    if n == 0 {
        s
    } else {
        let before = after_timeouts(s, (n - 1) as nat, clock);
        let i = n - 1;
        drive(before.requested(clock(i, 0), clock(i, 0)), clock(i, 1)).0
    }
}

/// A server that stays silent is asked again at the same offset after each of the first eight
/// timeouts in a row; the ninth ends the download.
pub proof fn law_ninth_timeout_in_a_row_aborts(
    s: OtaState,
    n: nat,
    clock: spec_fn(int, int) -> int,
)
    requires
        s.active,
        s.pending is None,
        s.response_timeouts == 0,
        forall|i: int| 0 <= i < n ==> #[trigger] clock(i, 1) >= clock(i, 0) + 2 * TICK_HZ,
        n <= 9,
    ensures
        n <= 8 ==> after_timeouts(s, n, clock).active && after_timeouts(s, n, clock).next_offset
            == s.next_offset && after_timeouts(s, n, clock).response_timeouts == n && after_timeouts(
            s,
            n,
            clock,
        ).pending is None,
        n == 9 ==> after_timeouts(s, n, clock) == OtaState::cleared(),
    decreases n,
{
    if n > 0 {
        law_ninth_timeout_in_a_row_aborts(s, (n - 1) as nat, clock);
        assert(clock(n - 1, 1) >= clock(n - 1, 0) + 2 * TICK_HZ);
    }
}

/// A cleared session is inactive, knows no server, path or progress, and waits for nothing.
pub proof fn law_cleared_session_is_blank()
    ensures
        ({
            let s = OtaState::cleared();
            &&& !s.active && !s.waiting_response && s.pending is None
            &&& s.server_node == 0 && s.path.len() == 0 && s.next_offset == 0
            &&& s.requests_sent == 0 && s.responses_received == 0 && s.chunks_written == 0
            &&& s.start_tick == 0 && s.wait_started_tick == 0 && s.response_deadline_ticks == 0
            &&& s.total_wait_ticks == 0 && s.total_write_ticks == 0 && s.response_timeouts == 0
            &&& s.next_progress_log_at == 16384
        }),
{
}

/// A session that was armed is active, holds exactly the server, the path and the start tick it
/// was armed with, and begins at the beginning of the file.
pub proof fn law_armed_session_holds_its_request(server: u8, path: Seq<u8>, start_tick: int)
    ensures
        ({
            let s = OtaState::armed(server, path, start_tick);
            &&& s.active && s.server_node == server && s.path == path && s.start_tick == start_tick
            &&& !s.waiting_response && s.pending is None && s.next_offset == 0
            &&& s.requests_sent == 0 && s.responses_received == 0 && s.chunks_written == 0
            &&& s.total_wait_ticks == 0 && s.total_write_ticks == 0 && s.response_timeouts == 0
            &&& s.wait_started_tick == 0 && s.next_progress_log_at == 16384
            &&& s.response_deadline_ticks == 0
        }),
{
}

/// A response whose error code is not zero ends the download as a file error, whatever data it
/// carries and however much; one whose length field is beyond 256 ends it as invalid.
pub proof fn law_refused_response_aborts(s: OtaState, p: Seq<u8>, now: int)
    requires
        s.active,
        s.waiting_response,
        s.pending == Some(p),
    ensures
        ({
            let length = (if p.len() > 2 { p[2] as int } else { 0 }) + 256 * (if p.len() > 3 {
                p[3] as int
            } else {
                0
            });
            let failed = (p.len() > 0 && p[0] != 0) || (p.len() > 1 && p[1] != 0);
            &&& length > 256 ==> drive(s, now) == (
                OtaState::cleared(),
                OtaEffect::Aborted(AbortReason::InvalidResponse),
            )
            &&& length <= 256 && failed ==> drive(s, now) == (
                OtaState::cleared(),
                OtaEffect::Aborted(AbortReason::FileError),
            )
        }),
{
}

/// The image is marked only after an answer without error that carries no data: nothing else
/// makes a step end the download well.
pub proof fn law_only_a_clean_empty_answer_completes(s: OtaState, now: int)
    requires
        drive(s, now).1 is MarkUpdated,
    ensures
        s.active,
        s.waiting_response,
        s.pending is Some,
        ({
            let p = s.pending->0;
            &&& p.len() > 0 ==> p[0] == 0
            &&& p.len() > 1 ==> p[1] == 0
            &&& p.len() > 2 ==> p[2] == 0
            &&& p.len() > 3 ==> p[3] == 0
        }),
        drive(s, now).0.active,
        drive(s, now).0.next_offset == s.next_offset,
{
}

/// An answer without error that carries data is written where the download stands, byte for byte
/// (bytes that are announced and missing count as zeros), and one without data completes it. The
/// answer is used up, the timeouts in a row are forgotten, and nothing else of the download
/// changes but the count of responses and the time spent waiting.
#[verifier::rlimit(40)]
pub proof fn law_answer_is_written_or_completes(s: OtaState, p: Seq<u8>, length: int, now: int)
    requires
        s.active,
        s.waiting_response,
        s.pending == Some(p),
        p.len() > 0 ==> p[0] == 0,
        p.len() > 1 ==> p[1] == 0,
        length == (if p.len() > 2 { p[2] as int } else { 0 }) + 256 * (if p.len() > 3 {
            p[3] as int
        } else {
            0
        }),
        length <= 256,
        s.total_wait_ticks <= u64::MAX,
    ensures
        ({
            let (t, effect) = drive(s, now);
            let waited = if s.wait_started_tick == 0 || now < s.wait_started_tick {
                0
            } else {
                now - s.wait_started_tick
            };
            let total_wait = if s.total_wait_ticks + waited > 0xffff_ffff_ffff_ffff {
                0xffff_ffff_ffff_ffff
            } else {
                s.total_wait_ticks + waited
            };
            &&& length == 0 ==> effect is MarkUpdated
            &&& length > 0 ==> {
                &&& effect is WriteChunk
                &&& effect->WriteChunk_offset == s.next_offset
                &&& effect->chunk.len() == length
                &&& forall|i: int|
                    0 <= i < length ==> #[trigger] effect->chunk[i] == if 4 + i < p.len() {
                        p[4 + i]
                    } else {
                        0u8
                    }
            }
            &&& t.active && !t.waiting_response && t.pending is None && t.response_timeouts == 0
            &&& t.responses_received == if s.responses_received < 0xffff_ffff {
                s.responses_received + 1
            } else {
                0xffff_ffff
            }
            &&& t.wait_started_tick == 0 && t.total_wait_ticks == total_wait
            &&& t.response_deadline_ticks == s.response_deadline_ticks
            &&& t.server_node == s.server_node && t.path == s.path && t.start_tick == s.start_tick
            &&& t.next_offset == s.next_offset && t.requests_sent == s.requests_sent
            &&& t.chunks_written == s.chunks_written && t.total_write_ticks == s.total_write_ticks
            &&& t.next_progress_log_at == s.next_progress_log_at
        }),
{
    let chunk = drive(s, now).1->chunk;
    if length > 0 {
        assert(le16_at(p, 2) == length);
    }
}

/// Without a download nothing is done; a download that does not wait asks its server for the path
/// at the offset where it stands; and one that waits without an answer does nothing before its
/// deadline.
pub proof fn law_requests_continue_where_the_download_stands(s: OtaState, now: int)
    ensures
        !s.active ==> drive(s, now) == (s, OtaEffect::Idle),
        s.active && !s.waiting_response ==> drive(s, now) == (
            s,
            OtaEffect::SendRequest { offset: s.next_offset, path: s.path, server: s.server_node },
        ),
        s.active && s.waiting_response && s.pending is None && now < s.response_deadline_ticks
            ==> drive(s, now) == (s, OtaEffect::Idle),
{
}

/// At the deadline an answer counts as missing: up to eight times in a row the session stops
/// waiting and is otherwise kept, and the next time it is given up.
#[verifier::rlimit(40)]
pub proof fn law_missing_answer_is_counted(s: OtaState, now: int)
    requires
        s.active,
        s.waiting_response,
        s.pending is None,
        now >= s.response_deadline_ticks,
        0 <= s.response_timeouts <= 8,
        s.total_wait_ticks <= u64::MAX,
    ensures
        ({
            let (t, effect) = drive(s, now);
            let waited = if s.wait_started_tick == 0 || now < s.wait_started_tick {
                0
            } else {
                now - s.wait_started_tick
            };
            let total_wait = if s.total_wait_ticks + waited > 0xffff_ffff_ffff_ffff {
                0xffff_ffff_ffff_ffff
            } else {
                s.total_wait_ticks + waited
            };
            &&& s.response_timeouts == 8 ==> t == OtaState::cleared() && effect
                == OtaEffect::Aborted(AbortReason::ResponseTimeout)
            &&& s.response_timeouts < 8 ==> {
                &&& effect is Idle
                &&& t.active && !t.waiting_response && t.pending is None
                &&& t.response_timeouts == s.response_timeouts + 1
                &&& t.next_offset == s.next_offset && t.path == s.path && t.server_node
                    == s.server_node
                &&& t.requests_sent == s.requests_sent && t.responses_received
                    == s.responses_received
                &&& t.chunks_written == s.chunks_written && t.start_tick == s.start_tick
                &&& t.next_progress_log_at == s.next_progress_log_at
                &&& t.total_write_ticks == s.total_write_ticks && t.wait_started_tick == 0
                &&& t.total_wait_ticks == total_wait
                &&& t.response_deadline_ticks == s.response_deadline_ticks
            }
        }),
{
}

/// A chunk that was written moves the download on by its length and nothing else; a full chunk of
/// 256 bytes asks for the bytes behind it, and a shorter one ends the file.
pub proof fn law_written_chunk_moves_on(s: OtaState, len: int, start: int, end: int)
    requires
        1 <= len <= 256,
    ensures
        ({
            let t = s.wrote(len, start, end);
            let took = if start < end { end - start } else { 0 };
            &&& t.next_offset == s.next_offset + len
            &&& t.chunks_written == if s.chunks_written < 0xffff_ffff {
                s.chunks_written + 1
            } else {
                0xffff_ffff
            }
            &&& t.total_write_ticks == if s.total_write_ticks + took > 0xffff_ffff_ffff_ffff {
                0xffff_ffff_ffff_ffff
            } else {
                s.total_write_ticks + took
            }
            &&& t.active == s.active && t.server_node == s.server_node && t.path == s.path
            &&& t.start_tick == s.start_tick && t.waiting_response == s.waiting_response
            &&& t.requests_sent == s.requests_sent && t.responses_received == s.responses_received
            &&& t.total_wait_ticks == s.total_wait_ticks && t.response_timeouts
                == s.response_timeouts
            &&& t.pending == s.pending && t.wait_started_tick == s.wait_started_tick
            &&& t.response_deadline_ticks == s.response_deadline_ticks
            &&& t.next_progress_log_at == s.next_progress_log_at + if t.next_offset
                >= s.next_progress_log_at {
                16384int
            } else {
                0
            }
            &&& len == 256 ==> after_chunk(t, len) == (OtaEffect::SendRequest {
                offset: s.next_offset + 256,
                path: s.path,
                server: s.server_node,
            })
            &&& len < 256 ==> after_chunk(t, len) is MarkUpdated
        }),
{
}

/// A request that was sent makes the session wait for its answer, for two seconds from `now`.
pub proof fn law_sent_request_is_waited_for(s: OtaState, wait_started: int, now: int)
    ensures
        ({
            let t = s.requested(wait_started, now);
            &&& t.waiting_response
            &&& t.wait_started_tick == wait_started
            &&& t.response_deadline_ticks == now + 2_000_000
            &&& t.requests_sent == if s.requests_sent < 0xffff_ffff {
                s.requests_sent + 1
            } else {
                0xffff_ffff
            }
            &&& t.active == s.active && t.server_node == s.server_node && t.path == s.path
            &&& t.next_offset == s.next_offset && t.start_tick == s.start_tick && t.pending
                == s.pending
            &&& t.responses_received == s.responses_received && t.chunks_written
                == s.chunks_written
            &&& t.total_wait_ticks == s.total_wait_ticks && t.total_write_ticks
                == s.total_write_ticks
            &&& t.response_timeouts == s.response_timeouts && t.next_progress_log_at
                == s.next_progress_log_at
        }),
{
}

/// Counters stop at their largest value.
pub proof fn law_counters_stop_at_their_limit(n: int)
    requires
        0 <= n <= u32::MAX,
    ensures
        n < 0xffff_ffff ==> sat_inc_u32(n) == n + 1,
        n == 0xffff_ffff ==> sat_inc_u32(n) == n,
{
}

/// An action stands for the effect of the same kind, with the same contents.
pub proof fn law_action_shows_its_effect(action: OtaAction)
    ensures
        action is Idle <==> action.effect() is Idle,
        action is MarkUpdated <==> action.effect() is MarkUpdated,
        action matches OtaAction::Aborted(reason) ==> action.effect() == OtaEffect::Aborted(reason),
        action matches OtaAction::WriteChunk { offset, chunk } ==> action.effect() == (
        OtaEffect::WriteChunk { offset: offset as int, chunk: chunk@ }),
        action matches OtaAction::SendRequest { file_offset, path, server } ==> action.effect() == (
        OtaEffect::SendRequest { offset: file_offset as int, path: path@, server: server.id() }),
{
}

/// Milliseconds are thousands of ticks, and percentages hundredths of the whole, both rounded
/// down.
pub proof fn law_figures_are_rounded_down(ticks: int, part: int, whole: int)
    requires
        0 <= ticks <= 18_446_744_073_709_551,
        0 <= part <= 184_467_440_737_095_516,
    ensures
        ticks_ms(ticks) * 1000 <= ticks < ticks_ms(ticks) * 1000 + 1000,
        whole > 0 ==> percent(part, whole) * whole <= 100 * part < percent(part, whole) * whole
            + whole,
        whole <= 0 ==> percent(part, whole) == 0,
{
    if whole > 0 {
        let q = percent(part, whole);
        assert(q * whole <= 100 * part < q * whole + whole) by (nonlinear_arith)
            requires
                q == (part * 100) / whole,
                whole > 0,
                part >= 0,
        ;
    }
}

/// A session shows its own fields, each as it is.
pub proof fn law_session_shows_its_fields(s: OtaSession)
    ensures
        s@.active == s.active,
        s@.next_offset == s.next_offset,
        s@.requests_sent == s.requests_sent,
        s@.responses_received == s.responses_received,
        s@.chunks_written == s.chunks_written,
        s@.waiting_response == s.waiting_response,
        s@.response_timeouts == s.response_timeouts,
        s.pending_response_payload is None ==> s@.pending is None,
        s.pending_response_payload matches Some(p) ==> s@.pending == Some(p@),
        s@.server_node == s.internals@.server_node,
        s@.path == s.internals@.path,
        s@.start_tick == s.internals@.start_tick,
        s@.wait_started_tick == s.internals@.wait_started_tick,
        s@.total_wait_ticks == s.internals@.total_wait_ticks,
        s@.total_write_ticks == s.internals@.total_write_ticks,
        s@.next_progress_log_at == s.internals@.next_progress_log_at,
        s@.response_deadline_ticks == s.internals@.response_deadline_ticks,
{
}

/// What keeps a session consistent: without a download nothing is left of one; with one the path
/// has 1 to 255 bytes; a progress message is due within the next 16384 bytes; at most eight
/// answers in a row are missing; and an answer that waits has at most 300 bytes.
pub proof fn law_consistent_sessions(s: OtaState)
    ensures
        s.wf() <==> {
            &&& s.active || s == OtaState::cleared()
            &&& s.active ==> 1 <= s.path.len() <= 255
            &&& 0 < s.next_progress_log_at - s.next_offset <= 16384
            &&& s.response_timeouts <= 8
            &&& s.pending matches Some(p) ==> p.len() <= 300
        },
{
}

/// Figures whose products would not fit 64 bits are those of the largest product that does.
pub proof fn law_figures_are_capped(ticks: int, part: int, whole: int)
    requires
        ticks > 18_446_744_073_709_551,
        part > 184_467_440_737_095_516,
        whole > 0,
    ensures
        ticks_ms(ticks) == 18_446_744_073_709,
        percent(part, whole) == 0xffff_ffff_ffff_ffffint / whole,
{
}

} // verus!
