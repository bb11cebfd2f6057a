//! Unit tests for PnP allocation helpers.

use cyphal_node::pnp::{lowest_48_bits, pnp_request_retry_duration, pnp_unique_id_hash};
use cyphal_node::pnp::{PnpClient, PnpHandler, PnpStep, PublishOutcome};
use cyphal_node::pnp::{PNP_RETRY_JITTER_MS, PNP_RETRY_MIN_MS};
use cyphal_node::wire::{CanNodeId, MessageTransfer, PnpMsg};

#[test]
fn unique_id_hash_known_vector() {
    // Regression test: hash of the all-zeros UID must remain stable.
    let uid = [0u8; 16];
    let h = pnp_unique_id_hash(&uid);
    // Only the lowest 48 bits should be set.
    assert_eq!(h & !0x0000_ffff_ffff_ffff, 0, "hash must fit in 48 bits");
}

#[test]
fn unique_id_hash_different_uids_differ() {
    let uid_a = [1u8; 16];
    let uid_b = [2u8; 16];
    assert_ne!(
        pnp_unique_id_hash(&uid_a),
        pnp_unique_id_hash(&uid_b),
        "different UIDs must produce different hashes"
    );
}

#[test]
fn unique_id_hash_stable_across_calls() {
    let uid = [0xDE, 0xAD, 0xBE, 0xEF, 0, 1, 2, 3, 4, 5, 6, 7, 8, 9, 10, 11];
    assert_eq!(
        pnp_unique_id_hash(&uid),
        pnp_unique_id_hash(&uid),
        "hash must be deterministic"
    );
}

#[test]
fn retry_duration_within_range() {
    let uid = [0xAB; 16];
    for attempt in 0..10_u32 {
        let d = pnp_request_retry_duration(&uid, attempt);
        let ms = d.as_millis();
        assert!(
            ms >= PNP_RETRY_MIN_MS,
            "attempt {}: delay {}ms < min {}ms",
            attempt,
            ms,
            PNP_RETRY_MIN_MS
        );
        assert!(
            ms < PNP_RETRY_MIN_MS + PNP_RETRY_JITTER_MS,
            "attempt {}: delay {}ms >= max {}ms",
            attempt,
            ms,
            PNP_RETRY_MIN_MS + PNP_RETRY_JITTER_MS
        );
    }
}

#[test]
fn retry_duration_varies_with_attempt() {
    let uid = [0x01; 16];
    let d0 = pnp_request_retry_duration(&uid, 0).as_millis();
    let d1 = pnp_request_retry_duration(&uid, 1).as_millis();
    let d2 = pnp_request_retry_duration(&uid, 2).as_millis();
    // Not all attempts should produce the same delay (with overwhelming probability).
    assert!(
        d0 != d1 || d1 != d2,
        "retry delays should vary across attempts"
    );
}

// ---- The CRC and the delay against independent computations ---------------

/// CRC-64/WE, bit by bit.
fn crc64_we(bytes: &[u8]) -> u64 {
    let mut crc = u64::MAX;
    for b in bytes {
        crc ^= (*b as u64) << 56;
        for _ in 0..8 {
            crc = if crc >> 63 == 1 { (crc << 1) ^ 0x42F0_E1EB_A9EA_3693 } else { crc << 1 };
        }
    }
    !crc
}

#[test]
fn unique_id_hash_is_the_low_part_of_crc64_we() {
    assert_eq!(crc64_we(b"123456789"), 0x62EC_59E3_F1A4_F00A);
    for seed in [0u8, 1, 0x5a, 0xff] {
        let mut uid = [0u8; 16];
        for (i, b) in uid.iter_mut().enumerate() {
            *b = seed.wrapping_mul(31).wrapping_add(i as u8);
        }
        assert_eq!(pnp_unique_id_hash(&uid), crc64_we(&uid) & 0xffff_ffff_ffff);
    }
    assert_eq!(lowest_48_bits(0x1234_5678_9abc_def0), 0x5678_9abc_def0);
}

#[test]
fn retry_duration_is_one_round_of_xorshift() {
    let uid = [1, 2, 3, 4, 5, 6, 7, 8, 0, 0, 0, 0, 0, 0, 0, 0];
    for attempt in [0u32, 1, 2, 1000, u32::MAX] {
        let mut x = 0x0403_0201u32 ^ 0x0807_0605 ^ attempt.wrapping_mul(0x9E37_79B9);
        x ^= x << 13;
        x ^= x >> 17;
        x ^= x << 5;
        let expected = 150 + (x % 850) as u64;
        assert_eq!(pnp_request_retry_duration(&uid, attempt).as_millis(), expected);
        assert_eq!(pnp_request_retry_duration(&uid, attempt).as_ticks(), expected * 1000);
    }
}

// ---- Allocation -----------------------------------------------------------

fn allocation(hash: u64, id: Option<u16>) -> Vec<u8> {
    let mut p = hash.to_le_bytes()[..6].to_vec();
    match id {
        Some(id) => {
            p.push(1);
            p.extend_from_slice(&id.to_le_bytes());
        }
        None => p.push(0),
    }
    p
}

fn message(subject: u16, source: Option<u8>, payload: Vec<u8>) -> MessageTransfer {
    MessageTransfer { subject, source: source.map(|s| CanNodeId::try_from(s).unwrap()), payload }
}

fn assigned(h: &PnpHandler) -> Option<u8> {
    h.assigned_id.map(|id| id.to_u8())
}

#[test]
fn only_a_matching_response_assigns_an_id() {
    let uid = [9u8; 16];
    let mut h = PnpHandler::new(&uid);
    let hash = h.unique_id_hash;
    assert_eq!(hash, pnp_unique_id_hash(&uid));
    // Another subject.
    assert!(!h.handle_message(&message(1, Some(1), allocation(hash, Some(5)))));
    // An anonymous source.
    assert!(h.handle_message(&message(8166, None, allocation(hash, Some(5)))));
    // Another hash.
    assert!(h.handle_message(&message(8166, Some(1), allocation(hash ^ 1, Some(5)))));
    // No ID.
    assert!(h.handle_message(&message(8166, Some(1), allocation(hash, None))));
    // Too many IDs.
    let mut two = allocation(hash, Some(5));
    two[6] = 2;
    assert!(h.handle_message(&message(8166, Some(1), two)));
    // No node ID.
    assert!(h.handle_message(&message(8166, Some(1), allocation(hash, Some(128)))));
    assert_eq!(assigned(&h), None);
    assert!(h.handle_message(&message(8166, Some(1), allocation(hash, Some(127)))));
    assert_eq!(assigned(&h), Some(127));
}

#[test]
fn the_first_allocation_stands() {
    let mut h = PnpHandler::new(&[9u8; 16]);
    let hash = h.unique_id_hash;
    assert!(h.handle_message(&message(8166, Some(1), allocation(hash, None))));
    assert!(h.handle_message(&message(8166, Some(1), allocation(hash, Some(42)))));
    assert!(h.handle_message(&message(8166, Some(2), allocation(hash, Some(43)))));
    assert_eq!(assigned(&h), Some(42));
}

#[test]
fn numbers_beyond_node_ids_assign_nothing() {
    let mut h = PnpHandler::new(&[9u8; 16]);
    let hash = h.unique_id_hash;
    for id in [128u16, 255, 256, 300, 0x0105, 65535] {
        assert!(h.handle_message(&message(8166, Some(1), allocation(hash, Some(id)))));
        assert_eq!(assigned(&h), None, "{}", id);
    }
    assert!(h.handle_message(&message(8166, Some(1), allocation(hash, Some(0)))));
    assert_eq!(assigned(&h), Some(0));
}

#[test]
fn requests_are_made_until_an_id_is_assigned() {
    let uid = [7u8; 16];
    let mut c = PnpClient::new(uid, 100);
    let hash = pnp_unique_id_hash(&uid);
    assert_eq!(c.poll(99), PnpStep::Wait);
    assert_eq!(
        c.poll(100),
        PnpStep::Publish(PnpMsg { unique_id_hash: hash, allocated_node_id: None })
    );
    // A request that could not be sent does not count, and is made again later.
    assert!(!c.request_result(PublishOutcome::WouldBlock, 100));
    assert_eq!(c.requests_sent, 0);
    assert_eq!(c.next_request_at, 100 + pnp_request_retry_duration(&uid, 0).as_ticks());
    assert!(!c.request_result(PublishOutcome::Failed, 100));
    assert!(c.request_result(PublishOutcome::Published, 100));
    assert_eq!(c.requests_sent, 1);
    assert_eq!(c.next_request_at, 100 + pnp_request_retry_duration(&uid, 1).as_ticks());
    assert!(c.handler.handle_message(&message(8166, Some(1), allocation(hash, Some(33)))));
    assert_eq!(c.poll(0), PnpStep::Allocated(33));
    c.requests_sent = u32::MAX;
    c.request_result(PublishOutcome::Published, 0);
    assert_eq!(c.requests_sent, 0);
}

#[test]
fn equal_halves_share_delays() {
    for attempt in [0u32, 1, 77] {
        let ones = pnp_request_retry_duration(&[1; 16], attempt);
        assert_eq!(ones, pnp_request_retry_duration(&[2; 16], attempt));
        assert_ne!(ones, pnp_request_retry_duration(&[1, 2, 3, 4, 5, 6, 7, 8, 0, 0, 0, 0, 0, 0, 0, 0], attempt));
    }
    assert_eq!(pnp_request_retry_duration(&[1; 16], 0).as_millis(), 150);
}
