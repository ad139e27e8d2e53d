//! The row of the third channel obstacle: the row count divided by 1.25 in
//! single precision and truncated, computed exactly with integers.
//!
//! Both steps of the single-precision quotient round to nearest: the row
//! count to the nearest value with 24 significant bits (ties to even), then
//! the quotient `4 a / 5` to 24 significant bits. The quotient never lies
//! half way between two neighbours (its fraction is a multiple of one
//! fifth of the spacing), so rounding it needs no tie rule.
use vstd::prelude::*;

verus! {

/// `2^e`.
pub open spec fn two_to(e: nat) -> nat
    decreases e,
{
    if e == 0 {
        1
    } else {
        2 * two_to((e - 1) as nat)
    }
}

/// The number of binary digits of `n` (0 for 0).
pub open spec fn bit_length(n: nat) -> nat
    decreases n,
{
    if n == 0 {
        0
    } else {
        1 + bit_length(n / 2)
    }
}

/// The single-precision value nearest to `n`, ties to even: `n` itself below
/// `2^24`, else `n` rounded to a multiple of the unit of its last kept bit.
pub open spec fn nearest_f32(n: nat) -> nat {
    if n < two_to(24) {
        n
    } else {
        let unit = two_to((bit_length(n) - 24) as nat);
        let q = n / unit;
        let r = n % unit;
        if 2 * r > unit || (2 * r == unit && q % 2 == 1) {
            (q + 1) * unit
        } else {
            q * unit
        }
    }
}

/// `(n as f32 / 1.25) as u32`: the quotient `v = 4 a / 5` of the rounded
/// `a = nearest_f32(n)`, rounded to the spacing of single-precision values
/// around it and truncated. With `b` the bit length of `floor(v)` the spacing
/// is `2^(b - 24)`: at most a quarter for `b <= 22`, where truncation gives
/// `floor(v)`; a half for `b == 23`; and `u = 2^(b - 24) >= 1` above.
pub open spec fn f32_quotient_by_one_and_a_quarter(n: nat) -> nat {
    let a = nearest_f32(n);
    let w = 4 * a / 5;
    let b = bit_length(w);
    if b <= 22 {
        w
    } else if b == 23 {
        (16 * a + 5) / 10 / 2
    } else {
        let u = two_to((b - 24) as nat);
        (8 * a + 5 * u) / (10 * u) * u
    }
}

proof fn lemma_two_to_positive(e: nat)
    ensures
        two_to(e) >= 1,
    decreases e,
{
    if e > 0 {
        lemma_two_to_positive((e - 1) as nat);
    }
}

proof fn lemma_two_to_adds(a: nat, b: nat)
    ensures
        two_to(a + b) == two_to(a) * two_to(b),
    decreases a,
{
    if a > 0 {
        lemma_two_to_adds((a - 1) as nat, b);
        assert(((a - 1) as nat + b) as nat == (a + b - 1) as nat);
        assert(two_to(a + b) == 2 * two_to((a + b - 1) as nat));
        assert(two_to(a + b) == 2 * (two_to((a - 1) as nat) * two_to(b)));
        assert(two_to(a) * two_to(b) == 2 * (two_to((a - 1) as nat) * two_to(b))) by (
        nonlinear_arith)
            requires
                two_to(a) == 2 * two_to((a - 1) as nat),
        ;
    } else {
        assert(two_to(0) == 1);
        assert(a + b == b);
    }
}

proof fn lemma_two_to_monotone(a: nat, b: nat)
    requires
        a <= b,
    ensures
        two_to(a) <= two_to(b),
    decreases b,
{
    if a < b {
        lemma_two_to_monotone(a, (b - 1) as nat);
        lemma_two_to_positive((b - 1) as nat);
    }
}

/// `n` has bit length `b` exactly when `2^(b-1) <= n < 2^b` (`n == 0` for
/// `b == 0`).
proof fn lemma_bit_length_bounds(n: nat)
    ensures
        n < two_to(bit_length(n)),
        n >= 1 ==> two_to((bit_length(n) - 1) as nat) <= n,
        n == 0 <==> bit_length(n) == 0,
    decreases n,
{
    if n > 0 {
        lemma_bit_length_bounds(n / 2);
    }
}

/// A value below `2^k` has at most `k` bits.
proof fn lemma_bit_length_at_most(n: nat, k: nat)
    requires
        n < two_to(k),
    ensures
        bit_length(n) <= k,
{
    lemma_bit_length_bounds(n);
    if bit_length(n) > k {
        lemma_two_to_monotone(k, (bit_length(n) - 1) as nat);
    }
}

proof fn lemma_two_to_values()
    ensures
        two_to(8) == 256,
        two_to(22) == 4194304,
        two_to(23) == 8388608,
        two_to(24) == 16777216,
        two_to(32) == 4294967296,
        two_to(39) == 549755813888,
        two_to(40) == 1099511627776,
        two_to(64) == 18446744073709551616,
{
    reveal_with_fuel(two_to, 65);
}

/// Up to 5 242 880 rows the single-precision quotient by 1.25, truncated,
/// is four fifths of the row count rounded down.
pub proof fn lemma_quotient_is_four_fifths(ny: nat)
    requires
        ny <= 5242880,
    ensures
        f32_quotient_by_one_and_a_quarter(ny) == ny * 4 / 5,
{
    lemma_two_to_values();
    assert(nearest_f32(ny) == ny);
    let w = 4 * ny / 5;
    assert(w <= 4194304);
    lemma_bit_length_bounds(w);
    if w < 4194304 {
        lemma_bit_length_at_most(w, 22);
    } else {
        let b = bit_length(w);
        if b <= 22 {
            lemma_two_to_monotone(b, 22);
        }
        if b >= 24 {
            lemma_two_to_monotone(23, (b - 1) as nat);
        }
        assert(b == 23);
        assert(ny == 5242880);
    }
}

/// The bit length of `n`.
fn bit_length_of(n: u64) -> (b: u64)
    ensures
        b == bit_length(n as nat),
        b <= 64,
{
    proof {
        lemma_two_to_values();
        lemma_bit_length_at_most(n as nat, 64);
    }
    let mut m: u64 = n;
    let mut b: u64 = 0;
    while m > 0
        invariant
            bit_length(n as nat) == b + bit_length(m as nat),
            b + bit_length(m as nat) <= 64,
        decreases m,
    {
        b = b + 1;
        m = m / 2;
    }
    b
}

/// `2^e` for `e <= 40`.
fn two_to_the(e: u64) -> (p: u64)
    requires
        e <= 40,
    ensures
        p == two_to(e as nat),
        p <= 1099511627776,
{
    let mut p: u64 = 1;
    let mut i: u64 = 0;
    while i < e
        invariant
            i <= e <= 40,
            p == two_to(i as nat),
        decreases e - i,
    {
        proof {
            lemma_two_to_monotone(i as nat, 39);
            lemma_two_to_values();
        }
        p = p * 2;
        i = i + 1;
    }
    proof {
        lemma_two_to_monotone(e as nat, 40);
        lemma_two_to_values();
    }
    p
}

/// The single-precision value nearest to `n`, as an integer.
fn nearest_f32_of(n: u32) -> (a: u64)
    ensures
        a == nearest_f32(n as nat),
        a <= 4294967296 + 256,
        n >= 24 ==> a >= 24,
{
    proof {
        lemma_two_to_values();
    }
    if n < 16777216 {
        return n as u64;
    }
    let n64 = n as u64;
    let b = bit_length_of(n64);
    proof {
        lemma_bit_length_at_most(n as nat, 32);
        lemma_bit_length_bounds(n as nat);
        if b <= 24 {
            lemma_two_to_monotone(b as nat, 24);
        }
    }
    let unit = two_to_the(b - 24);
    proof {
        lemma_two_to_monotone((b - 24) as nat, 8);
        lemma_two_to_positive((b - 24) as nat);
    }
    let q = n64 / unit;
    let r = n64 % unit;
    proof {
        vstd::arithmetic::div_mod::lemma_fundamental_div_mod(n64 as int, unit as int);
        assert(q * unit == unit * q) by (nonlinear_arith);
        assert(q * unit + r == n64);
        assert(q * unit <= n64);
    }
    if 2 * r > unit || (2 * r == unit && q % 2 == 1) {
        proof {
            assert((q + 1) * unit == q * unit + unit) by (nonlinear_arith);
        }
        (q + 1) * unit
    } else {
        proof {
            assert(q * unit >= n64 - unit + 1);
        }
        q * unit
    }
}

/// `(ny as f32 / 1.25) as u32`, computed with integers.
pub fn f32_quotient_row(ny: u32) -> (row: u32)
    ensures
        row == f32_quotient_by_one_and_a_quarter(ny as nat),
        row <= 3500000000,
        ny >= 24 ==> row >= 6,
{
    let a = nearest_f32_of(ny);
    let w = 4 * a / 5;
    let b = bit_length_of(w);
    proof {
        lemma_two_to_values();
        lemma_bit_length_bounds(w as nat);
        lemma_bit_length_at_most(w as nat, 32);
    }
    if b <= 22 {
        return w as u32;
    }
    if b == 23 {
        return ((16 * a + 5) / 10 / 2) as u32;
    }
    let u = two_to_the(b - 24);
    proof {
        lemma_two_to_monotone((b - 24) as nat, 8);
        lemma_two_to_positive((b - 24) as nat);
        lemma_two_to_adds((b - 24) as nat, 23);
        assert((b - 24) + 23 == b - 1);
    }
    let x = 8 * a + 5 * u;
    let q = x / (10 * u);
    proof {
        vstd::arithmetic::div_mod::lemma_fundamental_div_mod(x as int, (10 * u) as int);
        let r = (x as int) % ((10 * u) as int);
        assert(q * u <= 3500000000) by (nonlinear_arith)
            requires
                x == (10 * u) * q + r,
                0 <= r,
                x <= 8 * (4294967296 + 256) + 5 * 256,
                u >= 1,
                q >= 0,
        ;
        assert(q >= 8388608) by (nonlinear_arith)
            requires
                x == (10 * u) * q + r,
                r < 10 * u,
                w == 4 * a / 5,
                w >= u * 8388608,
                x == 8 * a + 5 * u,
                u >= 1,
        ;
        assert(q * u >= 6) by (nonlinear_arith)
            requires
                q >= 8388608,
                u >= 1,
        ;
    }
    (q * u) as u32
}

} // verus!
