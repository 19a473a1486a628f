//! Conversion between pixel extents and canonical character-cell
//! counts, with explicit rounding.

use vstd::prelude::*;

use crate::values::COORD_LIMIT;

verus! {

/// How a pixel extent is turned into a unit count.  `Exact` reads the
/// independently maintained cached count instead of dividing.
#[derive(Clone, Copy, PartialEq, Eq, Structural, Debug)]
pub enum Rounding {
    Floor,
    Ceiling,
    Exact,
}

/// The largest whole number of units that fit in `p` pixels.
pub open spec fn units_floor(p: int, u: int) -> int {
    p / u
}

/// The smallest whole number of units covering `p` pixels.
pub open spec fn units_ceiling(p: int, u: int) -> int {
    (p + u - 1) / u
}

/// Convert a pixel extent to character units.  `Floor` truncates,
/// `Ceiling` rounds up, and `Exact` returns `cached`, the canonical
/// count maintained by the layout engine, which need not equal either
/// rounding (sibling windows are rounded so that their cached counts
/// sum correctly even when their pixel sizes do not divide evenly).
pub fn pixels_to_units(pixel: i32, unit: i32, cached: i32, mode: Rounding) -> (r: i32)
    requires
        0 <= pixel <= COORD_LIMIT,
        1 <= unit <= COORD_LIMIT,
    ensures
        (match mode {
            Rounding::Floor => r == units_floor(pixel as int, unit as int),
            Rounding::Ceiling => r == units_ceiling(pixel as int, unit as int),
            Rounding::Exact => r == cached,
        }),
        mode != Rounding::Exact ==> 0 <= r <= pixel,
{
    match mode {
        Rounding::Exact => cached,
        Rounding::Floor => {
            let q: u64 = (pixel as u64) / (unit as u64);
            proof {
                lemma_floor_in_range(pixel as int, unit as int);
            }
            q as i32
        },
        Rounding::Ceiling => {
            let q: u64 = ((pixel as u64) + (unit as u64) - 1) / (unit as u64);
            proof {
                lemma_ceiling_in_range(pixel as int, unit as int);
            }
            q as i32
        },
    }
}

proof fn lemma_floor_in_range(p: int, u: int)
    requires
        0 <= p,
        1 <= u,
    ensures
        0 <= units_floor(p, u) <= p,
{
    assert(0 <= p / u <= p) by (nonlinear_arith)
        requires
            0 <= p,
            1 <= u,
    ;
}

proof fn lemma_ceiling_in_range(p: int, u: int)
    requires
        0 <= p,
        1 <= u,
    ensures
        0 <= units_ceiling(p, u) <= p,
{
    assert(0 <= (p + u - 1) / u <= p) by (nonlinear_arith)
        requires
            0 <= p,
            1 <= u,
    ;
}

/// Rounding down never exceeds rounding up, and the two agree exactly
/// when the pixel extent is a whole multiple of the unit size.
pub proof fn lemma_floor_le_ceiling(p: int, u: int)
    requires
        0 <= p,
        1 <= u,
    ensures
        units_floor(p, u) <= units_ceiling(p, u),
        (units_floor(p, u) == units_ceiling(p, u)) <==> (p % u == 0),
{
    let q = p / u;
    let r = p % u;
    vstd::arithmetic::div_mod::lemma_fundamental_div_mod(p, u);
    vstd::arithmetic::div_mod::lemma_mod_bound(p, u);
    assert(p == u * q + r);
    if r == 0 {
        assert(p + u - 1 == u * q + (u - 1));
        assert((u * q + (u - 1)) / u == q) by (nonlinear_arith)
            requires
                1 <= u,
        ;
    } else {
        assert(p + u - 1 == u * (q + 1) + (r - 1)) by (nonlinear_arith)
            requires
                p == u * q + r,
        ;
        assert((u * (q + 1) + (r - 1)) / u == q + 1) by (nonlinear_arith)
            requires
                1 <= u,
                0 <= r - 1 < u,
        ;
    }
}

} // verus!
