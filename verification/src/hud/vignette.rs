//! The red that closes in on the view as health drains.
use vstd::prelude::*;
use crate::fraction::Fraction;
use crate::hud::ranged::PixelRect;

verus! {

/// How far the view has closed in at a given health.
#[derive(Clone, Copy, Debug, PartialEq, Eq, Structural)]
pub struct VignetteRamp {
    /// From nothing at three quarters of the health to all at none; the edges
    /// redden on a curve over it.
    pub severity: Fraction,
    /// From nothing at three tenths of the health to all at none.
    pub critical: Fraction,
    /// The opacity of the wash over the whole view, in thousandths.
    pub wash_alpha: u32,
    /// The radius of the clear centre as a share of the smaller side.
    pub clear_inset: Fraction,
}

/// Health between none and all.
pub open spec fn held_health(health: i64, max_health: u32) -> int {
    if health < 0 {
        0
    } else if health > max_health {
        max_health as int
    } else {
        health as int
    }
}

/// The view is hemmed in: less than three quarters of the health are left.
pub open spec fn hurt(health: i64, max_health: u32) -> bool {
    4 * held_health(health, max_health) < 3 * max_health
}

/// How deep into the last three tenths of the health it is.
pub open spec fn critical_part(health: i64, max_health: u32) -> int {
    if 10 * held_health(health, max_health) >= 3 * max_health {
        0
    } else {
        3 * max_health - 10 * held_health(health, max_health)
    }
}

/// The ramp at a given health.
pub open spec fn ramp_of(health: i64, max_health: u32) -> VignetteRamp {
    let critical = critical_part(health, max_health);
    VignetteRamp {
        severity: Fraction {
            part: (3 * max_health - 4 * held_health(health, max_health)) as u128,
            whole: (3 * max_health) as u128,
        },
        critical: Fraction { part: critical as u128, whole: (3 * max_health) as u128 },
        wash_alpha: (120_000 * critical / (3 * max_health)) as u32,
        clear_inset: Fraction {
            part: (300_000 * (3 * max_health) - 220_000 * critical) as u128,
            whole: (1_000_000 * (3 * max_health)) as u128,
        },
    }
}

/// Finds how far the view has closed in; not at all with enough health. Health is
/// in thousandths of a point.
pub fn vignette_ramp(health: i64, max_health: u32) -> (r: Option<VignetteRamp>)
    requires
        max_health > 0,
    ensures
        r == if hurt(health, max_health) {
            Some(ramp_of(health, max_health))
        } else {
            None
        },
{
    let held: u64 = if health < 0 {
        0
    } else if health > max_health as i64 {
        max_health as u64
    } else {
        health as u64
    };
    let max: u64 = max_health as u64;
    if 4 * held >= 3 * max {
        return None;
    }
    let whole: u64 = 3 * max;
    let critical: u64 = if 10 * held >= whole {
        0
    } else {
        whole - 10 * held
    };
    proof {
        critical_shares(critical as int, whole as int);
    }
    Some(
        VignetteRamp {
            severity: Fraction { part: (whole - 4 * held) as u128, whole: whole as u128 },
            critical: Fraction { part: critical as u128, whole: whole as u128 },
            wash_alpha: (120_000 * critical / whole) as u32,
            clear_inset: Fraction {
                part: (300_000 * whole - 220_000 * critical) as u128,
                whole: (1_000_000 * whole) as u128,
            },
        },
    )
}

proof fn critical_shares(part: int, whole: int)
    requires
        0 <= part <= whole,
        0 < whole,
    ensures
        0 <= 120_000 * part / whole <= 120_000,
{
    assert(0 <= 120_000 * part / whole <= 120_000) by (nonlinear_arith)
        requires
            0 <= part <= whole,
            0 < whole,
    ;
}

proof fn share_rises(scale: int, less: int, more: int, whole: int)
    requires
        0 <= scale,
        less <= more,
        0 < whole,
    ensures
        scale * less / whole <= scale * more / whole,
{
    assert(scale * less <= scale * more) by (nonlinear_arith)
        requires
            0 <= scale,
            less <= more,
    ;
    let a = scale * less;
    let b = scale * more;
    assert(a / whole <= b / whole) by (nonlinear_arith)
        requires
            a <= b,
            0 < whole,
    ;
}

/// The less health is left, the more the view is hemmed in: the edges redden, the
/// wash thickens and the clear centre never reopens. Under three tenths of the
/// health every loss narrows the clear centre. Even with none left the wash stays
/// under half, and a clear centre stays; at its widest it is less than half the
/// smaller side.
pub proof fn view_only_closes_in(weaker: i64, stronger: i64, max_health: u32)
    requires
        max_health > 0,
        weaker <= stronger,
        hurt(stronger, max_health),
    ensures
        hurt(weaker, max_health),
        ({
            let worse = ramp_of(weaker, max_health);
            let better = ramp_of(stronger, max_health);
            &&& worse.severity.part >= better.severity.part
            &&& worse.wash_alpha >= better.wash_alpha
            &&& worse.clear_inset.whole == better.clear_inset.whole
            &&& worse.clear_inset.part <= better.clear_inset.part
            &&& 10 * held_health(weaker, max_health) < 3 * max_health && held_health(
                weaker,
                max_health,
            ) < held_health(stronger, max_health) ==> worse.clear_inset.part
                < better.clear_inset.part
            &&& worse.wash_alpha < 128_000
            &&& worse.clear_inset.part > 0
            &&& 2 * better.clear_inset.part < better.clear_inset.whole
            &&& worse.severity.valid()
            &&& worse.critical.valid()
        }),
{
    let whole = 3 * max_health;
    let worse = critical_part(weaker, max_health);
    let better = critical_part(stronger, max_health);
    share_rises(120_000, better, worse, whole);
    critical_shares(worse, whole);
    critical_shares(better, whole);
}

/// The smaller side of a box.
pub open spec fn smaller_side(screen: PixelRect) -> int {
    if screen.right - screen.left <= screen.bottom - screen.top {
        screen.right - screen.left
    } else {
        screen.bottom - screen.top
    }
}

/// The part of a screen that the red leaves clear: the screen without an equal
/// margin on each of its four sides.
#[derive(Clone, Copy, Debug, PartialEq, Eq, Structural)]
pub struct ClearCentre {
    pub screen: PixelRect,
    /// The margin in thousandths of a point, the part over the whole.
    pub margin: Fraction,
}

impl ClearCentre {
    /// How far the left side is over, in shares of the margin's whole.
    pub open spec fn left(self) -> int {
        self.screen.left * self.margin.whole + self.margin.part
    }

    /// How far the top is down, in shares of the margin's whole.
    pub open spec fn top(self) -> int {
        self.screen.top * self.margin.whole + self.margin.part
    }

    /// How far the right side is over, in shares of the margin's whole.
    pub open spec fn right(self) -> int {
        self.screen.right * self.margin.whole - self.margin.part
    }

    /// How far the bottom is down, in shares of the margin's whole.
    pub open spec fn bottom(self) -> int {
        self.screen.bottom * self.margin.whole - self.margin.part
    }
}

/// What the red takes of each side: what the radius of the clear centre leaves of
/// half the smaller side.
pub open spec fn red_margin(screen: PixelRect, inset: Fraction) -> Fraction {
    Fraction {
        part: (smaller_side(screen) * (inset.whole - 2 * inset.part)) as u128,
        whole: (2 * inset.whole) as u128,
    }
}

/// The screen without the red on its four sides.
pub open spec fn cleared(screen: PixelRect, inset: Fraction) -> ClearCentre {
    ClearCentre { screen, margin: red_margin(screen, inset) }
}

proof fn margin_fits(side: int, rest: int, whole: int)
    requires
        0 <= side <= 0x2_0000_0000,
        0 < rest < whole <= 0xffff_ffff_ffff_ffff,
    ensures
        0 <= side * rest <= 0x2_0000_0000 * 0xffff_ffff_ffff_ffff,
        side * rest <= side * whole,
        side > 0 ==> side * rest < side * whole,
{
    assert(0 <= side * rest <= 0x2_0000_0000 * 0xffff_ffff_ffff_ffff) by (nonlinear_arith)
        requires
            0 <= side <= 0x2_0000_0000,
            0 < rest <= 0xffff_ffff_ffff_ffff,
    ;
    assert(side * rest <= side * whole && (side > 0 ==> side * rest < side * whole))
        by (nonlinear_arith)
        requires
            0 <= side,
            rest < whole,
    ;
}

/// Finds the part of the screen that the red leaves clear at a given health;
/// nothing where there is no red.
pub fn clear_centre(screen: PixelRect, health: i64, max_health: u32) -> (r: Option<ClearCentre>)
    requires
        screen.on_screen(),
        max_health > 0,
    ensures
        r == if hurt(health, max_health) {
            Some(cleared(screen, ramp_of(health, max_health).clear_inset))
        } else {
            None
        },
{
    let ramp = match vignette_ramp(health, max_health) {
        Some(ramp) => ramp,
        None => {
            return None;
        },
    };
    let width: i64 = screen.right - screen.left;
    let height: i64 = screen.bottom - screen.top;
    let side: i64 = if width <= height {
        width
    } else {
        height
    };
    let part: u128 = ramp.clear_inset.part;
    let whole: u128 = ramp.clear_inset.whole;
    proof {
        view_only_closes_in(health, health, max_health);
        margin_fits(side as int, whole - 2 * part, whole as int);
    }
    Some(
        ClearCentre {
            screen,
            margin: Fraction { part: side as u128 * (whole - 2 * part), whole: 2 * whole },
        },
    )
}

/// With less health the clear part of the screen lies within what was clear with
/// more, and it never turns inside out. Under three tenths of the health every loss
/// brings all four sides in.
pub proof fn clear_centre_closes_in(
    screen: PixelRect,
    weaker: i64,
    stronger: i64,
    max_health: u32,
)
    requires
        screen.on_screen(),
        max_health > 0,
        weaker <= stronger,
        hurt(stronger, max_health),
    ensures
        ({
            let worse = cleared(screen, ramp_of(weaker, max_health).clear_inset);
            let better = cleared(screen, ramp_of(stronger, max_health).clear_inset);
            let whole = worse.margin.whole;
            &&& better.margin.whole == whole
            &&& whole > 0
            &&& screen.left * whole <= better.left() <= worse.left() <= worse.right()
                <= better.right() <= screen.right * whole
            &&& screen.top * whole <= better.top() <= worse.top() <= worse.bottom()
                <= better.bottom() <= screen.bottom * whole
            &&& smaller_side(screen) > 0 ==> worse.left() < worse.right() && worse.top()
                < worse.bottom()
            &&& smaller_side(screen) > 0 && 10 * held_health(weaker, max_health) < 3 * max_health
                && held_health(weaker, max_health) < held_health(stronger, max_health) ==> {
                &&& better.left() < worse.left()
                &&& better.top() < worse.top()
                &&& worse.right() < better.right()
                &&& worse.bottom() < better.bottom()
            }
        }),
{
    view_only_closes_in(weaker, stronger, max_health);
    let worse = ramp_of(weaker, max_health).clear_inset;
    let better = ramp_of(stronger, max_health).clear_inset;
    let side = smaller_side(screen);
    let whole = worse.whole as int;
    let narrow = whole - 2 * worse.part;
    let wide = whole - 2 * better.part;
    margin_fits(side, narrow, whole);
    margin_fits(side, wide, whole);
    assert(side * wide <= side * narrow && (side > 0 && wide < narrow ==> side * wide < side
        * narrow)) by (nonlinear_arith)
        requires
            0 <= side,
            wide <= narrow,
    ;
    side_spans(screen.left as int, screen.right as int, side, whole);
    side_spans(screen.top as int, screen.bottom as int, side, whole);
}

proof fn side_spans(from: int, to: int, side: int, whole: int)
    requires
        to - from >= side,
        whole > 0,
    ensures
        to * (2 * whole) - from * (2 * whole) >= 2 * (side * whole),
{
    assert(to * (2 * whole) - from * (2 * whole) >= 2 * (side * whole)) by (nonlinear_arith)
        requires
            to - from >= side,
            whole > 0,
    ;
}

/// The triangles of the frame around the clear centre: two for each side, over the
/// four outer corners and the four inner ones behind them.
pub fn frame_indices() -> (r: Vec<u32>)
    ensures
        r@ == seq![
            0u32, 1, 5, 0, 5, 4,
            1, 2, 6, 1, 6, 5,
            2, 3, 7, 2, 7, 6,
            3, 0, 4, 3, 4, 7,
        ],
{
    let quads: [(u32, u32, u32, u32); 4] = [(0, 1, 5, 4), (1, 2, 6, 5), (2, 3, 7, 6), (3, 0, 4, 7)];
    let mut indices: Vec<u32> = Vec::new();
    push_quad(&mut indices, quads[0]);
    push_quad(&mut indices, quads[1]);
    push_quad(&mut indices, quads[2]);
    push_quad(&mut indices, quads[3]);
    proof {
        assert(indices@ =~= seq![
            0u32, 1, 5, 0, 5, 4,
            1, 2, 6, 1, 6, 5,
            2, 3, 7, 2, 7, 6,
            3, 0, 4, 3, 4, 7,
        ]);
    }
    indices
}

fn push_quad(indices: &mut Vec<u32>, quad: (u32, u32, u32, u32))
    ensures
        final(indices)@ == old(indices)@ + seq![quad.0, quad.1, quad.2, quad.0, quad.2, quad.3],
{
    indices.push(quad.0);
    indices.push(quad.1);
    indices.push(quad.2);
    indices.push(quad.0);
    indices.push(quad.2);
    indices.push(quad.3);
    proof {
        assert(indices@ =~= old(indices)@ + seq![
            quad.0,
            quad.1,
            quad.2,
            quad.0,
            quad.2,
            quad.3,
        ]);
    }
}

/// The view is clear down to three quarters of the health; from there the edges redden
/// evenly to all of it at none. The wash and the narrowing of the centre begin at three
/// tenths and are strongest at none.
pub proof fn ramp_runs_over_the_health(health: i64, max_health: u32)
    requires
        max_health > 0,
        0 <= health <= max_health,
    ensures
        hurt(health, max_health) <==> 4 * health < 3 * max_health,
        hurt(health, max_health) ==> {
            let ramp = ramp_of(health, max_health);
            &&& ramp.severity.whole == 3 * max_health
            &&& ramp.severity.part == 3 * max_health - 4 * health
            &&& ramp.critical.whole == 3 * max_health
            &&& 10 * health >= 3 * max_health ==> ramp.critical.part == 0 && ramp.wash_alpha == 0
                && 10 * ramp.clear_inset.part == 3 * ramp.clear_inset.whole
            &&& 10 * health <= 3 * max_health ==> ramp.critical.part == 3 * max_health - 10
                * health
            &&& health == 0 ==> ramp.critical.part == ramp.critical.whole && ramp.wash_alpha
                == 120_000 && 100 * ramp.clear_inset.part == 8 * ramp.clear_inset.whole
        },
{
    let whole = 3 * max_health;
    assert(120_000 * whole / whole == 120_000) by (nonlinear_arith)
        requires
            whole > 0,
    ;
}

/// What is below none counts as none, and what is above all as all.
pub proof fn health_is_held_in_bounds(health: i64, max_health: u32)
    ensures
        health < 0 ==> held_health(health, max_health) == 0,
        health > max_health ==> held_health(health, max_health) == max_health,
        0 <= health <= max_health ==> held_health(health, max_health) == health,
{
}

} // verus!
