//! The template application, and the small types that everything rests on.

use cyphal_node::byte_buf::ByteBuf;
use cyphal_node::handler::Subscription;
use cyphal_node::outbox::Outbox;
use cyphal_node::template::{unique_id_from_flash, wheel_color, AppExtension, IdentifyLed};
use cyphal_node::time::Duration;
use cyphal_node::wire::{HighColor, MessageTransfer};
use cyphal_node::{NodeExtension, TimerClock};

fn message(subject: u16, payload: &[u8]) -> MessageTransfer {
    MessageTransfer { subject, source: None, payload: payload.to_vec() }
}

#[test]
fn colors_are_five_six_five() {
    let color = |payload: &[u8]| AppExtension::received_color(&message(5999, payload)).unwrap();
    assert_eq!(color(&[0x1f, 0]), HighColor { red: 31, green: 0, blue: 0 });
    assert_eq!(color(&[0xe0, 0x07]), HighColor { red: 0, green: 63, blue: 0 });
    assert_eq!(color(&[0, 0xf8]), HighColor { red: 0, green: 0, blue: 31 });
    assert_eq!(color(&[0x2a]), HighColor { red: 10, green: 1, blue: 0 });
    assert_eq!(color(&[0x65, 0x9c]), HighColor { red: 5, green: 35, blue: 19 });
    assert_eq!(AppExtension::received_color(&message(5998, &[0x1f, 0])), None);
}

#[test]
fn only_the_color_subject_is_handled() {
    let mut e = AppExtension;
    let mut out = Outbox::new();
    assert!(e.handle_message(&mut out, &message(5999, &[])));
    assert!(!e.handle_message(&mut out, &message(1, &[1, 2])));
    assert!(out.actions.is_empty());
    assert_eq!(
        e.register_subscriptions(),
        vec![Subscription { subject: 5999, payload_max: 2, timeout_ms: 1000 }]
    );
    assert_eq!(e.preferred_loop_period(), Duration::from_millis(20));
}

#[test]
fn identification_ends() {
    let mut led = IdentifyLed::new();
    assert!(!led.is_identifying());
    led.trigger_identify(100, Duration::from_secs(5));
    assert!(led.is_identifying_at(100));
    assert!(led.is_identifying_at(5_000_099));
    assert!(!led.is_identifying_at(5_000_100));
    led.until = u64::MAX;
    assert!(led.is_identifying());
}

#[test]
fn the_wheel_is_even() {
    assert_eq!(wheel_color(255), (255, 0, 0));
    assert_eq!(wheel_color(170), (0, 0, 255));
    assert_eq!(wheel_color(85), (0, 255, 0));
    assert_eq!(wheel_color(0), (255, 0, 0));
    assert_eq!(wheel_color(200), (90, 0, 165));
    assert_eq!(wheel_color(100), (0, 210, 45));
    assert_eq!(wheel_color(10), (225, 30, 0));
    for pos in 0..=255u8 {
        let (r, g, b) = wheel_color(pos);
        assert_eq!(r as u32 + g as u32 + b as u32, 255);
    }
}

#[test]
fn unique_ids_are_padded() {
    assert_eq!(unique_id_from_flash(None), [0; 16]);
    let id = unique_id_from_flash(Some([1, 2, 3, 4, 5, 6, 7, 8]));
    assert_eq!(id, [1, 2, 3, 4, 5, 6, 7, 8, 0, 0, 0, 0, 0, 0, 0, 0]);
}

#[test]
fn durations_are_in_ticks_of_a_megahertz() {
    assert_eq!(embassy_time::TICK_HZ, cyphal_node::time::TICK_HZ);
    assert_eq!(Duration::from_secs(2).as_ticks(), 2_000_000);
    assert_eq!(Duration::from_millis(3).as_ticks(), 3_000);
    assert_eq!(Duration::from_micros(4).as_ticks(), 4);
    assert_eq!(Duration { ticks: 1_999 }.as_millis(), 1);
    assert_eq!(Duration::from_hz(100).as_ticks(), 10_000);
    assert_eq!(Duration::from_hz(3).as_ticks(), 333_333);
    assert_eq!(Duration::from_hz(7).as_ticks(), 142_857);
    assert_eq!(Duration::from_hz(600_000).as_ticks(), 2);
    assert_eq!(Duration::from_hz(5_000_000).as_ticks(), 1);
}

#[test]
fn timestamps_roll_over() {
    assert_eq!(TimerClock::timestamp(0x1_0000_0005), 5);
    assert_eq!(TimerClock::timestamp(123), 123);
    let before = embassy_time::Instant::now().as_ticks();
    let t = TimerClock.now();
    let after = embassy_time::Instant::now().as_ticks();
    assert!(before <= t as u64 && t as u64 <= after);
}

#[test]
fn buffers_take_all_or_nothing() {
    let mut b = ByteBuf::new::<4>();
    assert!(b.is_empty());
    assert!(b.extend_from_slice(&[1, 2, 3]));
    assert!(!b.extend_from_slice(&[4, 5]));
    assert_eq!(b.as_slice(), &[1, 2, 3]);
    assert!(b.extend_from_slice(&[4]));
    assert_eq!(b.len(), 4);
    b.clear();
    assert_eq!(b.as_slice(), &[] as &[u8]);
    assert!(ByteBuf::from_slice::<2>(&[1, 2]).is_some());
    assert!(ByteBuf::from_slice::<2>(&[1, 2, 3]).is_none());
}
