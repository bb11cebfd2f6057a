//! The template application: an LED colour subject and an identify animation.
use vstd::prelude::*;
use crate::handler::{NodeExtension, Subscription};
use crate::outbox::Outbox;
use crate::time::{shown_by_timer, timer_ticks, Duration};
use crate::wire::{decode_high_color, le16_at, HighColor, MessageTransfer};

verus! {

/// Cyphal subject ID for the `reg.udral.physics.optics.HighColor` message.
pub const LED_COLOR_SUBJECT: u16 = 5999;

/// The colour in a serialised `HighColor`.
pub open spec fn color_in(payload: Seq<u8>) -> HighColor {
    HighColor {
        red: (le16_at(payload, 0) % 32) as u8,
        green: (le16_at(payload, 0) / 32 % 64) as u8,
        blue: (le16_at(payload, 0) / 2048) as u8,
    }
}

/// Handles the optional app-specific LED colour subscription.
#[derive(Clone, Copy, Debug, PartialEq, Eq, Structural)]
pub struct AppExtension;

impl AppExtension {
    /// The colour that a message sets, if it is on the LED colour subject.
    pub fn received_color(transfer: &MessageTransfer) -> (color: Option<HighColor>)
        ensures
            color == if transfer.subject == LED_COLOR_SUBJECT {
                Some(color_in(transfer.payload@))
            } else {
                None::<HighColor>
            },
            color is Some <==> transfer.subject == 5999,
    {
        if transfer.subject != LED_COLOR_SUBJECT {
            return None;
        }
        match decode_high_color(transfer.payload.as_slice()) {
            Ok(color) => Some(color),
            Err(_) => None,
        }
    }
}

impl NodeExtension for AppExtension {
    fn handle_message(&mut self, node: &mut Outbox, transfer: &MessageTransfer) -> (handled: bool)
        ensures
            handled == (transfer.subject == LED_COLOR_SUBJECT),
            handled == (transfer.subject == 5999),
            *final(self) == *old(self),
            *final(node) == *old(node),
    {
        AppExtension::received_color(transfer).is_some()
    }

    fn register_subscriptions(&self) -> (subscriptions: Vec<Subscription>)
        ensures
            subscriptions@ == seq![
                Subscription { subject: LED_COLOR_SUBJECT, payload_max: 2, timeout_ms: 1000 },
            ],
    {
        let mut subscriptions: Vec<Subscription> = Vec::new();
        subscriptions.push(
            Subscription { subject: LED_COLOR_SUBJECT, payload_max: 2, timeout_ms: 1000 },
        );
        proof {
            assert(subscriptions@ =~= seq![
                Subscription { subject: LED_COLOR_SUBJECT, payload_max: 2, timeout_ms: 1000 },
            ]);
        }
        subscriptions
    }
}

/// Until when the device identifies itself.
#[derive(Clone, Copy, Debug, PartialEq, Eq, Structural)]
pub struct IdentifyLed {
    pub until: u64,
}

impl IdentifyLed {
    /// The device does not identify itself.
    pub fn new() -> (l: IdentifyLed)
        ensures
            l.until == 0,
    {
        IdentifyLed { until: 0 }
    }

    /// Has the device identify itself for `duration` from `now_ticks` on.
    pub fn trigger_identify(&mut self, now_ticks: u64, duration: Duration)
        requires
            now_ticks + duration.ticks <= u64::MAX,
        ensures
            final(self).until == now_ticks + duration.ticks,
    {
        self.until = now_ticks + duration.as_ticks();
    }

    /// Whether the device identifies itself at `now_ticks`.
    pub fn is_identifying_at(&self, now_ticks: u64) -> (b: bool)
        ensures
            b == (now_ticks < self.until),
    {
        now_ticks < self.until
    }

    /// Whether the device identifies itself at the present moment: the timer showed a tick that
    /// lies before the end. A device that was never asked to does not.
    pub fn is_identifying(&self) -> (b: bool)
        ensures
            exists|ticks: u64|
                #[trigger] shown_by_timer(ticks) && b == (ticks < self.until),
            self.until == 0 ==> !b,
    {
        let now: u64 = timer_ticks();
        self.is_identifying_at(now)
    }
}

/// A colour of the wheel: red, green and blue at `pos` of 256 positions. Over each third of the
/// wheel one channel gives way to the next.
pub open spec fn wheel(pos: u8) -> (int, int, int) {
    let p = 255 - pos as int;
    if p < 85 {
        (255 - 3 * p, 0, 3 * p)
    } else if p < 170 {
        (0, 3 * (p - 85), 255 - 3 * (p - 85))
    } else {
        (3 * (p - 170), 255 - 3 * (p - 170), 0)
    }
}

/// The colour of the identify animation at a position of the colour wheel.
pub fn wheel_color(pos: u8) -> (rgb: (u8, u8, u8))
    ensures
        (rgb.0 as int, rgb.1 as int, rgb.2 as int) == wheel(pos),
{
    let p: u8 = 255 - pos;
    if p < 85 {
        return (255 - p * 3, 0, p * 3);
    }
    if p < 170 {
        let shifted: u8 = p - 85;
        return (0, shifted * 3, 255 - shifted * 3);
    }
    let shifted: u8 = p - 170;
    (shifted * 3, 255 - shifted * 3, 0)
}

/// All colours of the wheel are equally bright, and neighbours on it, around the end too, differ
/// by at most three in any channel.
pub proof fn law_wheel_is_even(pos: u8)
    ensures
        wheel(pos).0 + wheel(pos).1 + wheel(pos).2 == 255,
        ({
            let next = wheel(((pos + 1) % 256) as u8);
            &&& -3 <= next.0 - wheel(pos).0 <= 3
            &&& -3 <= next.1 - wheel(pos).1 <= 3
            &&& -3 <= next.2 - wheel(pos).2 <= 3
        }),
{
}

/// The 16-byte unique ID of a device, from the 8-byte ID of its flash: the flash ID and zeros,
/// or only zeros where it could not be read.
pub fn unique_id_from_flash(flash_id: Option<[u8; 8]>) -> (unique_id: [u8; 16])
    ensures
        forall|i: int|
            0 <= i < 16 ==> #[trigger] unique_id@[i] == match flash_id {
                Some(id) => if i < 8 { id@[i] } else { 0u8 },
                None => 0u8,
            },
{
    let mut unique_id: [u8; 16] = [0u8; 16];
    match flash_id {
        Some(id) => {
            let mut i: usize = 0;
            while i < 8
                invariant
                    i <= 8,
                    forall|j: int|
                        0 <= j < 16 ==> #[trigger] unique_id@[j] == if j < i { id@[j] } else { 0u8 },
                decreases 8 - i,
            {
                unique_id[i] = id[i];
                i += 1;
            }
        },
        None => {},
    }
    unique_id
}

/// The serialised form of a colour.
pub open spec fn encoded_color(color: HighColor) -> Seq<u8> {
    let word = color.red + 32 * color.green + 2048 * color.blue;
    seq![(word % 256) as u8, (word / 256) as u8]
}

/// A colour is understood as it was sent, for all five-, six- and five-bit channels.
pub proof fn law_color_is_understood(color: HighColor)
    requires
        color.red < 32,
        color.green < 64,
        color.blue < 32,
    ensures
        color_in(encoded_color(color)) == color,
{
    let word = color.red + 32 * color.green + 2048 * color.blue;
    assert(le16_at(encoded_color(color), 0) == word);
}

/// The two bytes of a colour are its channels side by side: red in the five lowest bits, green in
/// the six above them, and blue in the five highest.
pub proof fn law_color_layout(payload: Seq<u8>)
    requires
        payload.len() >= 2,
    ensures
        ({
            let color = color_in(payload);
            &&& color.red < 32 && color.green < 64 && color.blue < 32
            &&& payload[0] + 256 * payload[1] == color.red + 32 * color.green + 2048 * color.blue
        }),
{
}

/// A colour whose second byte is missing has zeros there.
pub proof fn law_short_color(payload: Seq<u8>)
    requires
        payload.len() < 2,
    ensures
        ({
            let color = color_in(payload);
            let low: int = if payload.len() == 1 { payload[0] as int } else { 0 };
            color.red < 32 && low == color.red + 32 * color.green && color.blue == 0
        }),
{
}

/// The colours around the wheel: green gives way to red, blue to green and red to blue.
pub proof fn law_wheel_goes_around(pos: u8)
    ensures
        pos <= 85 ==> wheel(pos) == (255 - 3 * pos, 3 * pos as int, 0int),
        86 <= pos <= 170 ==> wheel(pos) == (0int, 510 - 3 * pos, 3 * pos - 255),
        171 <= pos ==> wheel(pos) == (3 * pos - 510, 0int, 765 - 3 * pos),
{
}

} // verus!
