//! Shares of a whole.
use vstd::prelude::*;

verus! {

/// A share of a whole.
#[derive(Clone, Copy, Debug, PartialEq, Eq, Structural)]
pub struct Fraction {
    pub part: u128,
    pub whole: u128,
}

impl Fraction {
    /// A share lies between nothing and the whole.
    pub open spec fn valid(self) -> bool {
        0 < self.whole && self.part <= self.whole
    }

    /// The share in percent, the nearest whole number and the even one of two
    /// equally near.
    pub open spec fn percent(self) -> nat {
        let scaled = 100 * self.part as int;
        let whole = self.whole as int;
        let floor = scaled / whole;
        let rest = scaled % whole;
        if 2 * rest < whole || (2 * rest == whole && floor % 2 == 0) {
            floor as nat
        } else {
            (floor + 1) as nat
        }
    }
}

/// A share of a scale as a whole number, the nearest one and the upper of two
/// equally near.
pub open spec fn rounded_share(scale: int, part: int, whole: int) -> int {
    (2 * scale * part + whole) / (2 * whole)
}

/// Rounds a share of a byte scale.
pub fn byte_share(scale: u8, part: u64, whole: u64) -> (r: u8)
    requires
        0 < whole,
        part <= whole,
    ensures
        r == rounded_share(scale as int, part as int, whole as int),
        r <= scale,
        part == whole ==> r == scale,
        part == 0 ==> r == 0,
{
    let doubled: u128 = 2 * whole as u128;
    proof {
        assert(0 <= 2 * scale * part <= 510 * 0xffff_ffff_ffff_ffff) by (nonlinear_arith)
            requires
                0 <= scale <= 255,
                0 <= part <= 0xffff_ffff_ffff_ffff,
        ;
        share_stays_within_scale(scale as int, part as int, whole as int);
        assert(2 * scale * part == (2 * scale as int) * part);
    }
    let value: u128 = (2 * scale as u128 * part as u128 + whole as u128) / doubled;
    value as u8
}

/// A share is between nothing and all, and is either of them at its ends.
pub proof fn share_stays_within_scale(scale: int, part: int, whole: int)
    requires
        0 <= scale <= 255,
        0 < whole,
        0 <= part <= whole,
    ensures
        0 <= rounded_share(scale, part, whole) <= scale,
        part == whole ==> rounded_share(scale, part, whole) == scale,
        part == 0 ==> rounded_share(scale, part, whole) == 0,
{
    let top = 2 * scale * part + whole;
    let result = rounded_share(scale, part, whole);
    assert(2 * scale * part <= 2 * scale * whole && 0 <= 2 * scale * part) by (nonlinear_arith)
        requires
            0 <= scale,
            0 <= part <= whole,
    ;
    assert(0 <= result <= scale) by (nonlinear_arith)
        requires
            result == top / (2 * whole),
            0 <= top,
            top <= 2 * scale * whole + whole,
            0 < whole,
            0 <= scale,
    ;
    if part == whole {
        assert(result == scale) by (nonlinear_arith)
            requires
                result == (2 * scale * whole + whole) / (2 * whole),
                0 < whole,
        ;
    }
    if part == 0 {
        assert(result == 0) by (nonlinear_arith)
            requires
                result == (2 * scale * 0 + whole) / (2 * whole),
                0 < whole,
        ;
    }
}

/// A larger share is never a smaller number.
pub proof fn rounded_share_rises(scale: int, less: int, more: int, whole: int)
    requires
        0 <= scale,
        0 < whole,
        less <= more,
    ensures
        rounded_share(scale, less, whole) <= rounded_share(scale, more, whole),
{
    assert(2 * scale * less + whole <= 2 * scale * more + whole) by (nonlinear_arith)
        requires
            0 <= scale,
            less <= more,
    ;
    let a = 2 * scale * less + whole;
    let b = 2 * scale * more + whole;
    assert(a / (2 * whole) <= b / (2 * whole)) by (nonlinear_arith)
        requires
            a <= b,
            0 < whole,
    ;
}

/// The percentage lies at most half a percent off the share, of two that do it is the
/// even one, and the ends are nothing and a hundred.
pub proof fn percent_is_the_nearest(share: Fraction)
    requires
        share.valid(),
    ensures
        ({
            let off = 100 * share.part - share.percent() * share.whole;
            &&& -(share.whole as int) <= 2 * off <= share.whole
            &&& 2 * off == share.whole || 2 * off == -(share.whole as int) ==> share.percent() % 2
                == 0
        }),
        share.percent() <= 100,
        share.part == share.whole ==> share.percent() == 100,
        share.part == 0 ==> share.percent() == 0,
{
    let scaled = 100 * share.part as int;
    let whole = share.whole as int;
    let floor = scaled / whole;
    let rest = scaled % whole;
    assert(scaled == whole * floor + rest && 0 <= rest < whole) by (nonlinear_arith)
        requires
            whole > 0,
            floor == scaled / whole,
            rest == scaled % whole,
    ;
    assert(0 <= floor <= 100 && (floor == 100 ==> rest == 0)) by (nonlinear_arith)
        requires
            scaled == whole * floor + rest,
            0 <= scaled <= 100 * whole,
            0 <= rest < whole,
    ;
    assert((floor + 1) * whole == whole * floor + whole && floor * whole == whole * floor)
        by (nonlinear_arith);
    if share.part == share.whole {
        assert(floor == 100) by (nonlinear_arith)
            requires
                100 * whole == whole * floor + rest,
                0 <= rest < whole,
        ;
    }
    if share.part == 0 {
        assert(floor == 0) by (nonlinear_arith)
            requires
                0 == whole * floor + rest,
                0 <= rest < whole,
        ;
    }
}

/// A rounded share of a scale lies at most half a step off, and halves go up.
pub proof fn rounded_share_is_the_nearest(scale: int, part: int, whole: int)
    requires
        0 < whole,
    ensures
        ({
            let off = rounded_share(scale, part, whole) * whole - scale * part;
            -whole < 2 * off <= whole
        }),
{
    let top = 2 * scale * part + whole;
    let result = rounded_share(scale, part, whole);
    assert(2 * whole * result <= top < 2 * whole * result + 2 * whole) by (nonlinear_arith)
        requires
            result == top / (2 * whole),
            0 < whole,
    ;
    assert(2 * (result * whole) == 2 * whole * result) by (nonlinear_arith);
    assert(2 * (scale * part) == 2 * scale * part) by (nonlinear_arith);
}

} // verus!
