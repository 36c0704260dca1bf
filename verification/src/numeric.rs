//! Exact integer descriptions of the floating-point computations behind
//! the size display: the value of an integer converted to `f64`, and decimal
//! rounding with a fixed number of fractional digits. Everything here is
//! integer arithmetic.
use vstd::prelude::*;
use vstd::arithmetic::div_mod::*;
use vstd::arithmetic::mul::*;

verus! {

/// `n / d` rounded to the nearest integer, ties to the even neighbour
/// (the rounding of IEEE conversions and of Rust's fixed-precision float
/// formatting).
pub open spec fn round_half_even(n: nat, d: nat) -> nat
    recommends
        d > 0,
{
    let q = n / d;
    let r = n % d;
    if 2 * r > d || (2 * r == d && q % 2 == 1) {
        q + 1
    } else {
        q
    }
}

/// `2^53`: integers up to this bound are exactly representable in `f64`.
pub open spec fn f64_exact_bound() -> nat {
    9007199254740992
}

/// Starting from the power of two `c`, the spacing of `f64` values around `b`:
/// the smallest power of two (from `c` on) that brings `b` below `2^53`.
pub open spec fn f64_spacing_from(b: nat, c: nat) -> nat
    decreases b - c,
{
    if c == 0 || b / c < f64_exact_bound() || b < 2 * c {
        c
    } else {
        f64_spacing_from(b, 2 * c)
    }
}

/// The exact value of `b as f64` for an integer `b < 2^64`: `b` rounded to
/// 53 significant bits, ties to even.
pub open spec fn f64_value(b: nat) -> nat {
    let u = f64_spacing_from(b, 1);
    round_half_even(b, u) * u
}

/// Executable `round_half_even` on `u128`.
pub fn round_half_even_u128(n: u128, d: u128) -> (q: u128)
    requires
        d > 0,
        n / d < u128::MAX,
    ensures
        q == round_half_even(n as nat, d as nat),
{
    let q = n / d;
    let r = n % d;
    proof {
        lemma_fundamental_div_mod(n as int, d as int);
    }
    if r > d - r || (r == d - r && q % 2 == 1) {
        q + 1
    } else {
        q
    }
}

proof fn lemma_round_half_even_bound(n: nat, d: nat)
    requires
        d > 0,
    ensures
        round_half_even(n, d) * d <= n + d,
        round_half_even(n, d) <= n / d + 1,
{
    lemma_fundamental_div_mod(n as int, d as int);
    let q = n / d;
    let r = n % d;
    assert(n == d * q + r);
    assert((q + 1) * d == d * q + d) by (nonlinear_arith);
    assert(q * d == d * q) by (nonlinear_arith);
}

/// The value of `b as f64`, as an integer.
pub fn f64_value_of(b: u64) -> (v: u128)
    ensures
        v == f64_value(b as nat),
        v <= 2 * (b as nat) + 1,
{
    let mut c: u128 = 1;
    let bb = b as u128;
    while c > 0 && bb / c >= 9007199254740992 && bb >= 2 * c
        invariant
            bb == b as u128,
            c >= 1,
            c <= bb + 1,
            f64_spacing_from(b as nat, c as nat) == f64_spacing_from(b as nat, 1),
        decreases bb - c,
    {
        c = 2 * c;
    }
    assert(f64_spacing_from(b as nat, c as nat) == c as nat);
    proof {
        lemma_fundamental_div_mod(b as int, c as int);
        lemma_round_half_even_bound(b as nat, c as nat);
        assert(b as nat / c as nat <= b as nat) by {
            lemma_div_is_ordered_by_denominator(b as int, 1, c as int);
        }
    }
    let q = round_half_even_u128(bb, c);
    proof {
        assert(q * c <= bb + c);
    }
    q * c
}

} // verus!
