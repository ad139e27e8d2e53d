//! The D2Q9 velocity stencil: nine discrete velocities on the square lattice
//! with their equilibrium weights, in the order the shaders index them.
//!
//! ```text
//! 6 2 5
//! 3 0 1
//! 7 4 8
//! ```
//! (the y axis points down the screen: direction 2 is `(0, -1)`).
use vstd::prelude::*;

verus! {

/// Number of discrete velocities of the stencil.
pub const Q: usize = 9;

/// Common denominator of the stencil weights.
pub const WEIGHT_DENOMINATOR: u32 = 36;

/// One discrete velocity `(ex, ey)` and its weight, `weight_36 / 36`.
#[derive(Clone, Copy, PartialEq, Eq, Structural, Debug)]
pub struct LatticeVelocity {
    pub ex: i32,
    pub ey: i32,
    pub weight_36: u32,
}

/// The `k`-th velocity of the stencil.
pub open spec fn stencil(k: int) -> LatticeVelocity {
    if k == 0 {
        LatticeVelocity { ex: 0, ey: 0, weight_36: 16 }
    } else if k == 1 {
        LatticeVelocity { ex: 1, ey: 0, weight_36: 4 }
    } else if k == 2 {
        LatticeVelocity { ex: 0, ey: -1i32, weight_36: 4 }
    } else if k == 3 {
        LatticeVelocity { ex: -1i32, ey: 0, weight_36: 4 }
    } else if k == 4 {
        LatticeVelocity { ex: 0, ey: 1, weight_36: 4 }
    } else if k == 5 {
        LatticeVelocity { ex: 1, ey: -1i32, weight_36: 1 }
    } else if k == 6 {
        LatticeVelocity { ex: -1i32, ey: -1i32, weight_36: 1 }
    } else if k == 7 {
        LatticeVelocity { ex: -1i32, ey: 1, weight_36: 1 }
    } else {
        LatticeVelocity { ex: 1, ey: 1, weight_36: 1 }
    }
}

/// The direction that points the opposite way to direction `k`.
pub open spec fn opposite(k: int) -> int {
    if k == 0 {
        0
    } else if 1 <= k <= 4 {
        (k + 1) % 4 + 1
    } else {
        (k - 3) % 4 + 5
    }
}

/// `sum_{k < n} weight(k) * f(k)`, in 36ths.
pub open spec fn weighted_sum(n: int, f: spec_fn(LatticeVelocity) -> int) -> int
    decreases n,
{
    if n <= 0 {
        0
    } else {
        weighted_sum(n - 1, f) + stencil(n - 1).weight_36 * f(stencil(n - 1))
    }
}

/// The nine velocities of the stencil, in shader order.
pub fn d2q9_stencil() -> (velocities: Vec<LatticeVelocity>)
    ensures
        velocities.len() == Q,
        forall|k: int| 0 <= k < Q ==> #[trigger] velocities@[k] == stencil(k),
{
    let velocities = vec![
        LatticeVelocity { ex: 0, ey: 0, weight_36: 16 },
        LatticeVelocity { ex: 1, ey: 0, weight_36: 4 },
        LatticeVelocity { ex: 0, ey: -1, weight_36: 4 },
        LatticeVelocity { ex: -1, ey: 0, weight_36: 4 },
        LatticeVelocity { ex: 0, ey: 1, weight_36: 4 },
        LatticeVelocity { ex: 1, ey: -1, weight_36: 1 },
        LatticeVelocity { ex: -1, ey: -1, weight_36: 1 },
        LatticeVelocity { ex: -1, ey: 1, weight_36: 1 },
        LatticeVelocity { ex: 1, ey: 1, weight_36: 1 },
    ];
    velocities
}

/// The weights of the stencil add up to one.
pub proof fn lemma_weights_sum_to_one()
    ensures
        weighted_sum(Q as int, |e: LatticeVelocity| 1int) == WEIGHT_DENOMINATOR,
{
    reveal_with_fuel(weighted_sum, 10);
}

/// The weighted velocities cancel: fluid at rest in equilibrium carries no
/// momentum.
pub proof fn lemma_zero_mean_velocity()
    ensures
        weighted_sum(Q as int, |e: LatticeVelocity| e.ex as int) == 0,
        weighted_sum(Q as int, |e: LatticeVelocity| e.ey as int) == 0,
{
    reveal_with_fuel(weighted_sum, 10);
}

/// The second moment of the stencil is isotropic, one third of the identity
/// (12 / 36 on the diagonal, 0 off it): the lattice speed of sound squared is
/// one third.
pub proof fn lemma_isotropic_second_moment()
    ensures
        weighted_sum(Q as int, |e: LatticeVelocity| e.ex * e.ex) == 12,
        weighted_sum(Q as int, |e: LatticeVelocity| e.ey * e.ey) == 12,
        weighted_sum(Q as int, |e: LatticeVelocity| e.ex * e.ey) == 0,
{
    reveal_with_fuel(weighted_sum, 10);
}

/// The shape of the stencil in shader order: direction 0 is at rest,
/// direction 1 points along +x, each of directions 2 to 4 is the one before
/// it turned a quarter (`(ex, ey)` to `(ey, -ex)`, counter-clockwise on a
/// screen whose y axis points down), each diagonal 5 is the sum of the axis
/// directions 1 and 2 and the diagonals 6 to 8 turn the same way; the rest
/// direction weighs 16/36, the axis directions 4/36, the diagonals 1/36.
pub proof fn lemma_stencil_shape(k: int)
    requires
        0 <= k < Q,
    ensures
        stencil(0).ex == 0 && stencil(0).ey == 0,
        stencil(1).ex == 1 && stencil(1).ey == 0,
        stencil(5).ex == stencil(1).ex + stencil(2).ex,
        stencil(5).ey == stencil(1).ey + stencil(2).ey,
        (1 <= k <= 3 || 5 <= k <= 7) ==> stencil(k + 1).ex == stencil(k).ey && stencil(k + 1).ey
            == -stencil(k).ex,
        stencil(k).weight_36 == if k == 0 {
            16int
        } else if k <= 4 {
            4int
        } else {
            1int
        },
{
}

/// Every direction has an opposite in the stencil with the same weight, and
/// reversing twice gives the direction back: bounce-back is well defined.
pub proof fn lemma_opposite_directions(k: int)
    requires
        0 <= k < Q,
    ensures
        0 <= opposite(k) < Q,
        stencil(opposite(k)).ex == -stencil(k).ex,
        stencil(opposite(k)).ey == -stencil(k).ey,
        stencil(opposite(k)).weight_36 == stencil(k).weight_36,
        opposite(opposite(k)) == k,
{
}

/// The rest direction is the only one without velocity; the four axis
/// directions have unit speed and the four diagonals speed `sqrt(2)`.
pub proof fn lemma_speed_classes(k: int)
    requires
        0 <= k < Q,
    ensures
        (stencil(k).ex == 0 && stencil(k).ey == 0) <==> k == 0,
        1 <= k <= 4 <==> stencil(k).ex * stencil(k).ex + stencil(k).ey * stencil(k).ey == 1,
        5 <= k < Q <==> stencil(k).ex * stencil(k).ex + stencil(k).ey * stencil(k).ey == 2,
{
    lemma_unit_square(stencil(k).ex as int);
    lemma_unit_square(stencil(k).ey as int);
}

/// The square of a component of a stencil velocity is its absolute value.
proof fn lemma_unit_square(v: int)
    requires
        -1 <= v <= 1,
    ensures
        v * v == (if v == 0 {
            0int
        } else {
            1int
        }),
{
    assert(v * v == (if v == 0 {
        0int
    } else {
        1int
    })) by (nonlinear_arith)
        requires
            -1 <= v <= 1,
    ;
}

} // verus!
