//! The fire of torches. Times are in microseconds, lengths in millimetres.
use vstd::prelude::*;
use crate::items::{DeployableKind, Vec3Net};
use crate::players::interpolation::distance_squared;

verus! {

/// Within this distance flames are drawn, beyond it a bright card.
pub const TORCH_PARTICLE_NEAR: u32 = 16_000;

/// The time between two puffs of flame.
pub const FLAME_INTERVAL: u64 = 50_000;

/// What happens to a torch's fire.
#[derive(Clone, Copy, Debug, PartialEq, Eq, Structural)]
pub enum TorchChange {
    Keep,
    Light,
    PutOut(u64),
}

/// Decides what happens to a structure's fire: a lit torch has one, and nothing
/// else does.
pub fn sync_torch_fire(kind: DeployableKind, active: bool, existing: Option<u64>) -> (r:
    TorchChange)
    ensures
        r == match existing {
            None => if kind == DeployableKind::Torch && active {
                TorchChange::Light
            } else {
                TorchChange::Keep
            },
            Some(fire) => if kind == DeployableKind::Torch && active {
                TorchChange::Keep
            } else {
                TorchChange::PutOut(fire)
            },
        },
{
    let burns: bool = kind == DeployableKind::Torch && active;
    match existing {
        None => if burns {
            TorchChange::Light
        } else {
            TorchChange::Keep
        },
        Some(fire) => if burns {
            TorchChange::Keep
        } else {
            TorchChange::PutOut(fire)
        },
    }
}

/// The torch is near: as far as a camera can tell.
pub open spec fn is_near(torch: Vec3Net, camera: Option<Vec3Net>) -> bool {
    match camera {
        Some(eye) => distance_squared(torch, eye) <= 256_000_000,
        None => true,
    }
}

fn squared(d: i64) -> (r: i128)
    requires
        -0x1_0000_0000 < d < 0x1_0000_0000,
    ensures
        r == d * d,
        0 <= r < 0x1_0000_0000_0000_0000,
{
    proof {
        assert(0 <= d * d < 0x1_0000_0000_0000_0000) by (nonlinear_arith)
            requires
                -0x1_0000_0000 < d < 0x1_0000_0000,
        ;
    }
    d as i128 * d as i128
}

/// Whether a torch is near enough for flames.
pub fn torch_is_near(torch: Vec3Net, camera: Option<Vec3Net>) -> (r: bool)
    ensures
        r == is_near(torch, camera),
{
    match camera {
        Some(eye) => {
            let dx = squared(torch.x as i64 - eye.x as i64);
            let dy = squared(torch.y as i64 - eye.y as i64);
            let dz = squared(torch.z as i64 - eye.z as i64);
            dx + dy + dz <= 256_000_000
        },
        None => true,
    }
}

/// What a frame does to a torch's fire.
#[derive(Clone, Copy, Debug, PartialEq, Eq, Structural)]
pub struct FlameStep {
    /// Whether the card stands in for the flames.
    pub card_visible: bool,
    /// Whether a puff of flame rises.
    pub puff: bool,
}

/// Lets a fire burn for a frame. `wait` is the time until the next puff; only
/// near fires send them.
pub fn burn(wait: &mut i64, near: bool, delta: u32) -> (r: FlameStep)
    requires
        *old(wait) >= i64::MIN + u32::MAX,
    ensures
        r.card_visible == !near,
        r.puff == (near && *old(wait) - delta <= 0),
        *final(wait) == if !near {
            *old(wait) as int
        } else if r.puff {
            *old(wait) - delta + FLAME_INTERVAL
        } else {
            *old(wait) - delta
        },
        r.puff ==> near && *old(wait) <= delta,
        !near ==> *final(wait) == *old(wait) && !r.puff && r.card_visible,
        near && !r.puff ==> *final(wait) > 0 && *final(wait) + delta == *old(wait),
        near && r.puff ==> *final(wait) + delta == *old(wait) + 50_000,
{
    if !near {
        return FlameStep { card_visible: true, puff: false };
    }
    *wait = *wait - delta as i64;
    let puff: bool = *wait <= 0;
    if puff {
        *wait = *wait + FLAME_INTERVAL as i64;
    }
    FlameStep { card_visible: false, puff }
}

/// Lets a puff age for a frame; tells whether it is gone. A frame without time
/// changes nothing.
pub fn puff_ages(age: &mut u64, lifetime: u64, delta: u64) -> (r: bool)
    ensures
        *final(age) == if *old(age) + delta > u64::MAX {
            u64::MAX as int
        } else {
            *old(age) + delta
        },
        r == (delta != 0 && *final(age) >= lifetime),
{
    if delta == 0 {
        return false;
    }
    *age = age.saturating_add(delta);
    *age >= lifetime
}

/// Along one axis a torch is near up to its plain distance, and without a camera every
/// torch is.
pub proof fn near_is_a_distance(torch: Vec3Net, eye: Vec3Net)
    ensures
        is_near(torch, None),
        is_near(torch, Some(torch)),
        torch.y == eye.y && torch.z == eye.z ==> (is_near(torch, Some(eye)) <==> -(
        TORCH_PARTICLE_NEAR as int) <= torch.x - eye.x <= TORCH_PARTICLE_NEAR),
        torch.x == eye.x && torch.z == eye.z ==> (is_near(torch, Some(eye)) <==> -(
        TORCH_PARTICLE_NEAR as int) <= torch.y - eye.y <= TORCH_PARTICLE_NEAR),
        torch.x == eye.x && torch.y == eye.y ==> (is_near(torch, Some(eye)) <==> -(
        TORCH_PARTICLE_NEAR as int) <= torch.z - eye.z <= TORCH_PARTICLE_NEAR),
{
    near_along(torch.x - eye.x);
    near_along(torch.y - eye.y);
    near_along(torch.z - eye.z);
    near_along(0);
    assert(torch.x - torch.x == 0);
}

proof fn near_along(d: int)
    ensures
        d * d <= 256_000_000 <==> -16_000 <= d <= 16_000,
        d == 0 ==> d * d == 0,
        0 <= d * d,
{
    assert(d * d <= 256_000_000 <==> -16_000 <= d <= 16_000) by (nonlinear_arith);
    assert(d == 0 ==> d * d == 0) by (nonlinear_arith);
    assert(0 <= d * d) by (nonlinear_arith);
}

} // verus!
