//! Whole downloads, driven step by step.

use cyphal_node::ota::{AbortReason, OtaAction, OtaSession, SendOutcome};
use cyphal_node::wire::CanNodeId;
use cyphal_node::{RESET_NONE, RESET_SOFT};

const SECOND: u64 = 1_000_000;

fn server() -> CanNodeId {
    CanNodeId::try_from(42).unwrap()
}

fn started() -> OtaSession {
    let mut s = OtaSession::new();
    s.start_at_ticks(server(), b"/fw", 1000).unwrap();
    s
}

fn reply(chunk: &[u8]) -> Vec<u8> {
    let mut p = vec![0, 0, chunk.len() as u8, (chunk.len() >> 8) as u8];
    p.extend_from_slice(chunk);
    p
}

fn request(s: &mut OtaSession, now: u64) -> u64 {
    match s.drive_step(now) {
        OtaAction::SendRequest { file_offset, path, server } => {
            assert_eq!(path, b"/fw");
            assert_eq!(server.to_u8(), 42);
            assert!(matches!(s.request_result(SendOutcome::Sent, now, now), OtaAction::Idle));
            file_offset
        }
        other => panic!("{:?}", other),
    }
}

/// Whether nothing is left of a download, and another one can be started.
fn is_cleared(s: &mut OtaSession) -> bool {
    let cleared = !s.active
        && s.next_offset == 0
        && s.requests_sent == 0
        && s.responses_received == 0
        && s.chunks_written == 0
        && !s.waiting_response
        && s.response_timeouts == 0
        && s.pending_response_payload.is_none()
        && s.transfer_stats(5000).elapsed_ms == 5
        && s.transfer_stats(5000).wait_ms == 0
        && s.transfer_stats(5000).write_ms == 0;
    cleared && s.start_at_ticks(server(), b"/fw", 0).is_ok()
}

/// Downloads `file`, and returns what was written and the figures at the end.
fn download(file: &[u8]) -> Vec<u8> {
    let mut s = started();
    let mut flash: Vec<u8> = Vec::new();
    let mut now = 1000;
    let mut requested = false;
    loop {
        let offset = if requested { s.next_offset as u64 } else { request(&mut s, now) } as usize;
        requested = false;
        let end = (offset + 256).min(file.len());
        now += 10_000;
        assert!(s.take_response(server(), &reply(&file[offset..end])));
        let mut action = s.drive_step(now);
        if let OtaAction::WriteChunk { offset: at, chunk } = action {
            assert_eq!(at, flash.len());
            flash.extend_from_slice(&chunk);
            action = s.chunk_written(chunk.len(), true, now, now + 5_000);
            now += 5_000;
        }
        match action {
            OtaAction::MarkUpdated => break,
            OtaAction::SendRequest { file_offset, .. } => {
                assert_eq!(file_offset as usize, flash.len());
                s.request_result(SendOutcome::Sent, now, now);
                requested = true;
            }
            other => panic!("{:?}", other),
        }
    }
    assert_eq!(s.next_offset, file.len());
    assert_eq!(s.responses_received as usize, file.len() / 256 + 1);
    assert_eq!(s.requests_sent, s.responses_received);
    let stats = s.transfer_stats(now);
    assert_eq!(stats.wait_ms, 10 * s.responses_received as u64);
    assert_eq!(stats.write_ms, 5 * s.chunks_written as u64);
    assert_eq!(stats.elapsed_ms, stats.wait_ms + stats.write_ms);
    assert_eq!(stats.other_ms, 0);
    assert_eq!(s.marked_updated(true), RESET_SOFT);
    assert!(is_cleared(&mut s));
    flash
}

#[test]
fn downloads_write_the_file() {
    for len in [0usize, 1, 255, 256, 257, 512, 40_000] {
        let file: Vec<u8> = (0..len).map(|i| (i * 7 + i / 256) as u8).collect();
        assert_eq!(download(&file), file, "length {}", len);
    }
}

#[test]
fn inactive_sessions_do_nothing() {
    let mut s = OtaSession::new();
    assert!(matches!(s.drive_step(5), OtaAction::Idle));
    assert!(is_cleared(&mut s));
}

#[test]
fn requests_time_out_after_two_seconds() {
    let mut s = started();
    request(&mut s, 5000);
    assert!(matches!(s.drive_step(5000 + 2 * SECOND - 1), OtaAction::Idle));
    assert!(s.waiting_response);
    assert!(matches!(s.drive_step(5000 + 2 * SECOND), OtaAction::Idle));
    assert!(!s.waiting_response);
    assert_eq!(s.response_timeouts, 1);
    assert_eq!(s.transfer_stats(0).wait_ms, 2000);
}

#[test]
fn the_ninth_timeout_in_a_row_aborts() {
    let mut s = started();
    for n in 1..=8u8 {
        assert_eq!(request(&mut s, 0), 0);
        assert!(matches!(s.drive_step(2 * SECOND), OtaAction::Idle));
        assert_eq!(s.response_timeouts, n);
    }
    request(&mut s, 0);
    assert!(matches!(s.drive_step(2 * SECOND), OtaAction::Aborted(AbortReason::ResponseTimeout)));
    assert!(is_cleared(&mut s));
}

#[test]
fn a_response_resets_the_timeouts() {
    let mut s = started();
    request(&mut s, 0);
    s.drive_step(2 * SECOND);
    request(&mut s, 0);
    s.take_response(server(), &reply(&[3; 256]));
    assert!(matches!(s.drive_step(1), OtaAction::WriteChunk { offset: 0, .. }));
    assert_eq!(s.response_timeouts, 0);
}

#[test]
fn bad_responses_abort() {
    // The length field is out of bounds.
    let mut s = started();
    request(&mut s, 0);
    s.take_response(server(), &[0, 0, 1, 1]);
    assert!(matches!(s.drive_step(1), OtaAction::Aborted(AbortReason::InvalidResponse)));
    assert!(is_cleared(&mut s));
    // The server reports an error, in either byte.
    for error in [[2u8, 0], [0, 1]] {
        let mut s = started();
        request(&mut s, 0);
        s.take_response(server(), &[error[0], error[1], 1, 0, 7]);
        assert!(matches!(s.drive_step(1), OtaAction::Aborted(AbortReason::FileError)));
        assert!(is_cleared(&mut s));
    }
}

#[test]
fn missing_bytes_of_a_response_read_as_zeros() {
    let mut s = started();
    request(&mut s, 0);
    s.take_response(server(), &[0, 0, 3, 0, 9]);
    match s.drive_step(1) {
        OtaAction::WriteChunk { offset: 0, chunk } => assert_eq!(chunk, vec![9, 0, 0]),
        other => panic!("{:?}", other),
    }
    // No bytes at all: an empty chunk, which ends the file.
    let mut s = started();
    request(&mut s, 0);
    s.take_response(server(), &[]);
    assert!(matches!(s.drive_step(1), OtaAction::MarkUpdated));
}

#[test]
fn failures_of_the_caller_abort() {
    let mut s = started();
    request(&mut s, 0);
    s.take_response(server(), &reply(&[1; 10]));
    s.drive_step(1);
    assert!(matches!(
        s.chunk_written(10, false, 1, 2),
        OtaAction::Aborted(AbortReason::FlashWrite)
    ));
    assert!(is_cleared(&mut s));

    let mut s = started();
    s.drive_step(0);
    assert!(matches!(
        s.request_result(SendOutcome::Failed, 0, 0),
        OtaAction::Aborted(AbortReason::SendRequest)
    ));
    assert!(is_cleared(&mut s));

    let mut s = started();
    assert_eq!(s.marked_updated(false), RESET_NONE);
    assert!(is_cleared(&mut s));
}

#[test]
fn a_full_queue_leaves_the_session_as_it_is() {
    let mut s = started();
    s.drive_step(0);
    assert!(matches!(s.request_result(SendOutcome::WouldBlock, 0, 0), OtaAction::Idle));
    assert!(s.active && !s.waiting_response);
    assert_eq!(s.requests_sent, 0);
    assert_eq!(request(&mut s, 0), 0);
}

#[test]
fn figures_of_a_transfer() {
    let mut s = started();
    request(&mut s, 1000);
    s.take_response(server(), &reply(&[7; 256]));
    s.drive_step(501_000);
    s.chunk_written(256, true, 501_000, 751_000);
    s.next_offset = 1000;
    s.chunks_written = 4;
    let stats = s.transfer_stats(1000 + 2 * SECOND);
    assert_eq!(stats.elapsed_ms, 2000);
    assert_eq!(stats.effective_bitrate_bps, 4000);
    assert_eq!(stats.wait_ms, 500);
    assert_eq!(stats.write_ms, 250);
    assert_eq!(stats.other_ms, 1250);
    assert_eq!(stats.wait_pct, 25);
    assert_eq!(stats.write_pct, 12);
    assert_eq!(stats.avg_chunk_bytes, 250);
    // No time has passed, and nothing was written.
    s.chunks_written = 0;
    let stats = s.transfer_stats(10);
    assert_eq!(stats.elapsed_ms, 0);
    assert_eq!(stats.effective_bitrate_bps, 0);
    assert_eq!(stats.other_ms, 0);
    assert_eq!(stats.wait_pct, 0);
    assert_eq!(stats.avg_chunk_bytes, 0);
    assert_eq!(OtaSession::ticks_to_ms(u64::MAX), u64::MAX / 1_000_000);
    assert_eq!(OtaSession::ticks_to_ms(1999), 1);
}
