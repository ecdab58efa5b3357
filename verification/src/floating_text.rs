//! The damage numbers that rise from a hit. Times are in microseconds.
use vstd::prelude::*;
use crate::color::{Rgba, opaque, shade, solid, translucent};
use crate::fraction::{
    byte_share, rounded_share, rounded_share_is_the_nearest, rounded_share_rises,
    share_stays_within_scale,
};
use crate::network::{FloatingDamageRole, WirePosition};
use crate::text::{concat2, decimal, digits};

verus! {

/// How long a number lives.
pub const FLOATING_TEXT_LIFETIME: u64 = 1_100_000;

/// How long a number pops before it starts to fade.
pub const FLOATING_TEXT_POP: u64 = 198_000;

/// Numbers beyond this distance are not drawn, in millimetres.
pub const FLOATING_TEXT_DRAW_DISTANCE: u32 = 30_000;

/// The colour of a number: orange for what was dealt, red for what was taken.
pub open spec fn role_color(role: FloatingDamageRole) -> Rgba {
    match role {
        FloatingDamageRole::Dealt => solid(0xFF, 0xAA, 0x33),
        FloatingDamageRole::Taken => solid(0xFF, 0x33, 0x33),
    }
}

/// Picks the colour of a number.
pub fn damage_color(role: FloatingDamageRole) -> (r: Rgba)
    ensures
        r == role_color(role),
{
    match role {
        FloatingDamageRole::Dealt => opaque(0xFF, 0xAA, 0x33),
        FloatingDamageRole::Taken => opaque(0xFF, 0x33, 0x33),
    }
}

/// The seed of a number: the clock spreads numbers of one place, and the place
/// those of one moment.
pub open spec fn seed_of(nanos: u32, anchor: WirePosition) -> int {
    (nanos * 0x9E37_79B1_9E37_79B1 + anchor.x + anchor.y * 128 + anchor.z * 8192)
        % 0x1_0000_0000_0000_0000
}

/// Computes the seed of a number. `nanos` are the nanoseconds of the clock within
/// its second.
pub fn spawn_seed(nanos: u32, anchor: WirePosition) -> (r: u64)
    ensures
        r == seed_of(nanos, anchor),
{
    let sum: u128 = nanos as u128 * 0x9E37_79B1_9E37_79B1 + anchor.x as u128 + anchor.y as u128
        * 128 + anchor.z as u128 * 8192;
    (sum % 0x1_0000_0000_0000_0000) as u64
}

/// A damage number.
#[derive(Clone, Copy, Debug, PartialEq, Eq, Structural)]
pub struct FloatingDamageText {
    pub anchor: WirePosition,
    pub value: u32,
    pub role: FloatingDamageRole,
    pub elapsed: u64,
    /// Tells numbers apart, and throws each its own way.
    pub spawn_id: u64,
}

impl FloatingDamageText {
    /// A number that just appeared.
    pub fn new(anchor: WirePosition, value: u32, role: FloatingDamageRole, nanos: u32) -> (r: Self)
        ensures
            r.anchor == anchor,
            r.value == value,
            r.role == role,
            r.elapsed == 0,
            r.spawn_id == seed_of(nanos, anchor),
    {
        FloatingDamageText {
            anchor,
            value,
            role,
            elapsed: 0,
            spawn_id: spawn_seed(nanos, anchor),
        }
    }

    /// How solid the number is: in full while it pops, and then less and less.
    pub open spec fn opacity(self) -> int {
        if self.elapsed < FLOATING_TEXT_POP {
            255
        } else if self.elapsed >= FLOATING_TEXT_LIFETIME {
            0
        } else {
            rounded_share(
                255,
                FLOATING_TEXT_LIFETIME - self.elapsed,
                FLOATING_TEXT_LIFETIME - FLOATING_TEXT_POP,
            )
        }
    }

    /// Finds how solid the number is.
    pub fn alpha(&self) -> (r: u8)
        ensures
            r == self.opacity(),
    {
        if self.elapsed < FLOATING_TEXT_POP {
            255
        } else if self.elapsed >= FLOATING_TEXT_LIFETIME {
            0
        } else {
            byte_share(
                255,
                FLOATING_TEXT_LIFETIME - self.elapsed,
                FLOATING_TEXT_LIFETIME - FLOATING_TEXT_POP,
            )
        }
    }

    /// Lets the number go on for a frame; tells whether it is over.
    pub fn tick(&mut self, delta: u64) -> (r: bool)
        ensures
            *final(self) == (FloatingDamageText {
                elapsed: if old(self).elapsed + delta > u64::MAX {
                    u64::MAX
                } else {
                    (old(self).elapsed + delta) as u64
                },
                ..*old(self)
            }),
            r == (old(self).elapsed + delta >= FLOATING_TEXT_LIFETIME),
    {
        self.elapsed = self.elapsed.saturating_add(delta);
        self.elapsed >= FLOATING_TEXT_LIFETIME
    }
}

/// What is drawn of a number.
pub struct DamageLabel {
    pub text: String,
    pub color: Rgba,
    pub shadow: Rgba,
}

/// Where a number is seen.
#[derive(Clone, Copy, Debug, PartialEq, Eq, Structural)]
pub struct DamageSight {
    /// Whether it is in front of the camera.
    pub in_front: bool,
    pub distance: u32,
    pub on_screen: bool,
}

/// Draws up a number that is in front of the camera, near enough and on screen.
pub fn damage_label(text: &FloatingDamageText, sight: DamageSight) -> (r: Option<DamageLabel>)
    ensures
        r is Some == (sight.in_front && sight.distance <= FLOATING_TEXT_DRAW_DISTANCE
            && sight.on_screen),
        r matches Some(label) ==> {
            let color = role_color(text.role);
            &&& label.text@ == "-"@ + digits(text.value as nat)
            &&& label.color == shade(color.r, color.g, color.b, text.opacity() as u8)
            &&& label.shadow == shade(0, 0, 0, (text.opacity() * 192 / 255) as u8)
        },
        r is Some ==> sight.distance <= 30_000 && sight.in_front && sight.on_screen,
        sight.distance <= 30_000 && sight.in_front && sight.on_screen ==> r is Some,
{
    if !sight.in_front || sight.distance > FLOATING_TEXT_DRAW_DISTANCE || !sight.on_screen {
        return None;
    }
    let alpha = text.alpha();
    let color = damage_color(text.role);
    let shadow_alpha: u8 = (alpha as u16 * 192 / 255) as u8;
    let number = decimal(text.value as u64);
    Some(
        DamageLabel {
            text: concat2("-", number.as_str()),
            color: translucent(color.r, color.g, color.b, alpha),
            shadow: translucent(0, 0, 0, shadow_alpha),
        },
    )
}

/// A number never grows more solid, and is gone when its life is over.
pub proof fn numbers_only_fade(earlier: FloatingDamageText, later: FloatingDamageText)
    requires
        earlier.elapsed <= later.elapsed,
    ensures
        later.opacity() <= earlier.opacity(),
        later.elapsed >= FLOATING_TEXT_LIFETIME ==> later.opacity() == 0,
{
    let span = FLOATING_TEXT_LIFETIME - FLOATING_TEXT_POP;
    if earlier.elapsed < FLOATING_TEXT_LIFETIME {
        let left = FLOATING_TEXT_LIFETIME - earlier.elapsed;
        if FLOATING_TEXT_POP <= earlier.elapsed {
            share_stays_within_scale(255, left, span);
        }
        if FLOATING_TEXT_POP <= later.elapsed && later.elapsed < FLOATING_TEXT_LIFETIME {
            let less = FLOATING_TEXT_LIFETIME - later.elapsed;
            share_stays_within_scale(255, less, span);
            rounded_share_rises(255, less, left, span);
        }
    }
}

/// A number is solid while it pops, and from there fades evenly: at any time its opacity
/// is the nearest to the share of the fade that is left.
pub proof fn numbers_fade_evenly(text: FloatingDamageText)
    ensures
        text.elapsed <= FLOATING_TEXT_POP ==> text.opacity() == 255,
        FLOATING_TEXT_POP <= text.elapsed <= FLOATING_TEXT_LIFETIME ==> {
            let span = FLOATING_TEXT_LIFETIME - FLOATING_TEXT_POP;
            let left = FLOATING_TEXT_LIFETIME - text.elapsed;
            -span < 2 * (text.opacity() * span - 255 * left) <= span
        },
{
    let span = FLOATING_TEXT_LIFETIME - FLOATING_TEXT_POP;
    let left = FLOATING_TEXT_LIFETIME - text.elapsed;
    rounded_share_is_the_nearest(255, left, span);
    share_stays_within_scale(255, span, span);
}

/// What was dealt is orange and what was taken red: the two share their red and differ
/// in the rest.
pub proof fn dealt_is_orange_and_taken_is_red()
    ensures
        role_color(FloatingDamageRole::Dealt) == solid(255, 170, 51),
        role_color(FloatingDamageRole::Taken) == solid(255, 51, 51),
{
}

/// Each nanosecond and each step along an axis turns the seed, the axes by weights that
/// keep them apart.
pub proof fn seed_hangs_on_clock_and_place(
    nanos: u32,
    other: u32,
    p: WirePosition,
    q: WirePosition,
)
    ensures
        (seed_of(nanos, p) - seed_of(other, q) - 0x9E37_79B1_9E37_79B1 * (nanos - other) - (p.x
            - q.x) - 128 * (p.y - q.y) - 8192 * (p.z - q.z)) % 0x1_0000_0000_0000_0000 == 0,
        0 <= seed_of(nanos, p) < 0x1_0000_0000_0000_0000,
{
}

/// A number pops for about a fifth of a second and is gone after a little more than one.
pub proof fn numbers_live_for_a_second(text: FloatingDamageText)
    ensures
        text.elapsed <= 198_000 ==> text.opacity() == 255,
        text.elapsed >= 1_100_000 ==> text.opacity() == 0,
        198_000 < text.elapsed < 1_000_000 ==> 0 < text.opacity() <= 255,
{
    numbers_fade_evenly(text);
    if 198_000 < text.elapsed && text.elapsed < 1_000_000 {
        let left = 1_100_000 - text.elapsed;
        share_stays_within_scale(255, left, 902_000);
        rounded_share_is_the_nearest(255, left, 902_000);
    }
}

} // verus!
