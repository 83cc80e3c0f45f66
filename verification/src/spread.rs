//! The spread representation and its arithmetic laws.
//!
//! A dense n-bit value is "spread" by moving its bit `i` to position `2*i`,
//! leaving a zero bit between consecutive dense bits. Adding two or three
//! spread values in a wide integer then never lets one semantic bit carry
//! into its neighbour: the even-position bits of the sum are the bitwise
//! XOR of the dense inputs, and the odd-position bits are the bitwise AND
//! (for two operands) or the per-bit majority (for three).

use vstd::prelude::*;
use vstd::arithmetic::power2::{pow2, lemma_pow2_adds, lemma_pow2_pos, lemma2_to64};
use vstd::arithmetic::div_mod::{
    lemma_fundamental_div_mod, lemma_fundamental_div_mod_converse,
};
use vstd::arithmetic::mul::lemma_mul_is_associative;

verus! {

/// Four to the power `e`: the weight of dense bit position `e` after spreading.
pub open spec fn pow4(e: nat) -> nat {
    pow2(2 * e)
}

/// The spread of a dense value: bit `i` of `x` contributes `4^i`.
pub open spec fn spread(x: nat) -> nat
    decreases x,
{
    if x == 0 {
        0
    } else {
        x % 2 + 4 * spread(x / 2)
    }
}

/// The dense value read off the even bit positions of `x`.
pub open spec fn even_bits(x: nat) -> nat
    decreases x,
{
    if x == 0 {
        0
    } else {
        x % 2 + 2 * even_bits(x / 4)
    }
}

/// The dense value read off the odd bit positions of `x`.
pub open spec fn odd_bits(x: nat) -> nat
    decreases x,
{
    if x == 0 {
        0
    } else {
        (x / 2) % 2 + 2 * odd_bits(x / 4)
    }
}

/// Bitwise XOR of two natural numbers.
pub open spec fn bxor(a: nat, b: nat) -> nat
    decreases a + b,
{
    if a == 0 && b == 0 {
        0
    } else {
        (a % 2 + b % 2) % 2 + 2 * bxor(a / 2, b / 2)
    }
}

/// Bitwise XOR of three natural numbers.
pub open spec fn bxor3(a: nat, b: nat, c: nat) -> nat
    decreases a + b + c,
{
    if a == 0 && b == 0 && c == 0 {
        0
    } else {
        (a % 2 + b % 2 + c % 2) % 2 + 2 * bxor3(a / 2, b / 2, c / 2)
    }
}

/// Bitwise AND of two natural numbers.
pub open spec fn band(a: nat, b: nat) -> nat
    decreases a + b,
{
    if a == 0 && b == 0 {
        0
    } else {
        (a % 2) * (b % 2) + 2 * band(a / 2, b / 2)
    }
}

/// Per-bit majority of three natural numbers.
pub open spec fn bmaj(a: nat, b: nat, c: nat) -> nat
    decreases a + b + c,
{
    if a == 0 && b == 0 && c == 0 {
        0
    } else {
        (if a % 2 + b % 2 + c % 2 >= 2 {
            1nat
        } else {
            0nat
        }) + 2 * bmaj(a / 2, b / 2, c / 2)
    }
}

/// Bitwise complement within 32 bits.
pub open spec fn bnot32(x: nat) -> nat {
    (pow2(32) - 1 - x) as nat
}

/// Right rotation of a 32-bit value by `r` positions.
pub open spec fn rotr32(x: nat, r: nat) -> nat {
    x / pow2(r) + pow2((32 - r) as nat) * (x % pow2(r))
}

/// Bit `i` of `x`.
pub open spec fn bit_at(x: nat, i: nat) -> nat {
    (x / pow2(i)) % 2
}

/// The sum of the low `n` bits of `x`, each weighted by `4^i`.
pub open spec fn spread_sum(x: nat, n: nat) -> nat
    decreases n,
{
    if n == 0 {
        0
    } else {
        spread_sum(x, (n - 1) as nat) + bit_at(x, (n - 1) as nat) * pow4((n - 1) as nat)
    }
}

pub proof fn lemma_pow4_unfold(n: nat)
    requires
        n >= 1,
    ensures
        pow4(n) == 4 * pow4((n - 1) as nat),
{
    lemma_pow2_adds(2, (2 * n - 2) as nat);
    lemma2_to64();
}

pub proof fn lemma_pow2_unfold_step(n: nat)
    requires
        n >= 1,
    ensures
        pow2(n) == 2 * pow2((n - 1) as nat),
{
    lemma_pow2_adds(1, (n - 1) as nat);
    lemma2_to64();
}

/// `spread` satisfies its recurrence at every argument, including zero.
pub proof fn lemma_spread_unfold(x: nat)
    ensures
        spread(x) == x % 2 + 4 * spread(x / 2),
{
}

pub proof fn lemma_even_unfold(x: nat)
    ensures
        even_bits(x) == x % 2 + 2 * even_bits(x / 4),
        odd_bits(x) == (x / 2) % 2 + 2 * odd_bits(x / 4),
{
}

pub proof fn lemma_bxor_unfold(a: nat, b: nat)
    ensures
        bxor(a, b) == (a % 2 + b % 2) % 2 + 2 * bxor(a / 2, b / 2),
        band(a, b) == (a % 2) * (b % 2) + 2 * band(a / 2, b / 2),
{
    reveal_with_fuel(bxor, 2);
    reveal_with_fuel(band, 2);
    if a == 0 && b == 0 {
        assert((a % 2) * (b % 2) == 0) by (nonlinear_arith)
            requires
                a % 2 == 0,
        ;
    }
}

/// The low dense bit sits in the two low spread bits, and dividing a spread
/// value by four spreads the remaining bits.
pub proof fn lemma_spread_low(x: nat)
    ensures
        spread(x) % 4 == x % 2,
        spread(x) / 4 == spread(x / 2),
        spread(x) % 2 == x % 2,
{
    lemma_spread_unfold(x);
    lemma_fundamental_div_mod_converse(spread(x) as int, 4, spread(x / 2) as int, (x % 2) as int);
    lemma_fundamental_div_mod_converse(
        spread(x) as int,
        2,
        (2 * spread(x / 2)) as int,
        (x % 2) as int,
    );
}

pub proof fn lemma_half_bound(n: nat, x: nat)
    requires
        n >= 1,
        x < pow2(n),
    ensures
        x / 2 < pow2((n - 1) as nat),
{
    lemma_pow2_unfold_step(n);
    lemma_fundamental_div_mod(x as int, 2);
}

pub proof fn lemma_quarter_bound(n: nat, x: nat)
    requires
        n >= 1,
        x < pow4(n),
    ensures
        x / 4 < pow4((n - 1) as nat),
{
    lemma_pow4_unfold(n);
    lemma_fundamental_div_mod(x as int, 4);
}

/// A dense value below `2^n` spreads to below `4^n`; moreover three such
/// spread values always sum to below `4^n`.
pub proof fn lemma_spread_bound(n: nat, x: nat)
    requires
        x < pow2(n),
    ensures
        3 * spread(x) < pow4(n),
        spread(x) < pow4(n),
    decreases n,
{
    if n == 0 {
        lemma2_to64();
    } else {
        lemma_half_bound(n, x);
        lemma_spread_bound((n - 1) as nat, x / 2);
        lemma_pow4_unfold(n);
        lemma_spread_unfold(x);
    }
}

/// Spreading a concatenation: if `lo` fits in `n` bits, the spread of
/// `lo + 2^n * hi` is `spread(lo) + 4^n * spread(hi)`.
pub proof fn lemma_spread_split(n: nat, lo: nat, hi: nat)
    requires
        lo < pow2(n),
    ensures
        spread(lo + pow2(n) * hi) == spread(lo) + pow4(n) * spread(hi),
    decreases n,
{
    if n == 0 {
        assert(pow2(0) == 1 && pow4(0) == 1) by {
            lemma2_to64();
        }
        assert(lo == 0);
        assert(spread(0 + 1 * hi) == spread(0) + 1 * spread(hi));
    } else {
        let x = lo + pow2(n) * hi;
        lemma_pow2_unfold_step(n);
        lemma_half_bound(n, lo);
        assert(pow2(n) * hi == 2 * (pow2((n - 1) as nat) * hi)) by {
            lemma_mul_is_associative(2, pow2((n - 1) as nat) as int, hi as int);
        }
        lemma_fundamental_div_mod(lo as int, 2);
        let q = lo / 2 + pow2((n - 1) as nat) * hi;
        assert(x == q * 2 + lo % 2);
        lemma_fundamental_div_mod_converse(x as int, 2, q as int, (lo % 2) as int);
        assert(x / 2 == q && x % 2 == lo % 2);
        lemma_spread_split((n - 1) as nat, lo / 2, hi);
        lemma_spread_unfold(x);
        lemma_spread_unfold(lo);
        lemma_pow4_unfold(n);
        assert(4 * (pow4((n - 1) as nat) * spread(hi)) == pow4(n) * spread(hi)) by {
            lemma_mul_is_associative(4, pow4((n - 1) as nat) as int, spread(hi) as int);
        }
    }
}

/// Adding two spread values: the even bits of the sum hold the XOR of the
/// dense inputs and the odd bits hold their AND.
pub proof fn lemma_spread_add2(a: nat, b: nat)
    ensures
        spread(a) + spread(b) == spread(bxor(a, b)) + 2 * spread(band(a, b)),
    decreases a + b,
{
    if a == 0 && b == 0 {
    } else {
        let ab = a % 2;
        let bb = b % 2;
        lemma_bxor_unfold(a, b);
        assert(ab * bb <= 1) by (nonlinear_arith)
            requires
                ab <= 1 && bb <= 1,
        ;
        lemma_fundamental_div_mod_converse(
            bxor(a, b) as int,
            2,
            bxor(a / 2, b / 2) as int,
            ((ab + bb) % 2) as int,
        );
        lemma_fundamental_div_mod_converse(
            band(a, b) as int,
            2,
            band(a / 2, b / 2) as int,
            (ab * bb) as int,
        );
        lemma_spread_add2(a / 2, b / 2);
        lemma_spread_unfold(a);
        lemma_spread_unfold(b);
        lemma_spread_unfold(bxor(a, b));
        lemma_spread_unfold(band(a, b));
        assert(ab + bb == (ab + bb) % 2 + 2 * (ab * bb)) by (nonlinear_arith)
            requires
                ab <= 1 && bb <= 1,
        ;
    }
}

/// Adding three spread values: the even bits of the sum hold the three-way
/// XOR of the dense inputs and the odd bits hold their per-bit majority.
pub proof fn lemma_spread_add3(a: nat, b: nat, c: nat)
    ensures
        spread(a) + spread(b) + spread(c) == spread(bxor3(a, b, c)) + 2 * spread(bmaj(a, b, c)),
    decreases a + b + c,
{
    if a == 0 && b == 0 && c == 0 {
    } else {
        let ab = a % 2;
        let bb = b % 2;
        let cb = c % 2;
        let xb = (ab + bb + cb) % 2;
        let mb: nat = if ab + bb + cb >= 2 {
            1
        } else {
            0
        };
        lemma_fundamental_div_mod_converse(
            bxor3(a, b, c) as int,
            2,
            bxor3(a / 2, b / 2, c / 2) as int,
            xb as int,
        );
        lemma_fundamental_div_mod_converse(
            bmaj(a, b, c) as int,
            2,
            bmaj(a / 2, b / 2, c / 2) as int,
            mb as int,
        );
        lemma_spread_add3(a / 2, b / 2, c / 2);
        lemma_spread_unfold(a);
        lemma_spread_unfold(b);
        lemma_spread_unfold(c);
        lemma_spread_unfold(bxor3(a, b, c));
        lemma_spread_unfold(bmaj(a, b, c));
        let s = ab + bb + cb;
        assert(s == s % 2 + 2 * mb) by {
            if s == 0 {
            } else if s == 1 {
            } else if s == 2 {
            } else {
                assert(s == 3);
            }
        }
    }
}

/// Plain addition splits into XOR and carry: `a + b == (a XOR b) + 2*(a AND b)`.
pub proof fn lemma_add_xor_and(a: nat, b: nat)
    ensures
        a + b == bxor(a, b) + 2 * band(a, b),
    decreases a + b,
{
    if a == 0 && b == 0 {
    } else {
        let ab = a % 2;
        let bb = b % 2;
        lemma_add_xor_and(a / 2, b / 2);
        lemma_fundamental_div_mod(a as int, 2);
        lemma_fundamental_div_mod(b as int, 2);
        lemma_bxor_unfold(a, b);
        assert(ab + bb == (ab + bb) % 2 + 2 * (ab * bb)) by (nonlinear_arith)
            requires
                ab <= 1 && bb <= 1,
        ;
    }
}

/// The complement of an `n`-bit value is disjoint from it and XORs with it
/// to the all-ones mask.
pub proof fn lemma_not(n: nat, a: nat)
    requires
        a < pow2(n),
    ensures
        band(a, (pow2(n) - 1 - a) as nat) == 0,
        bxor(a, (pow2(n) - 1 - a) as nat) == (pow2(n) - 1) as nat,
    decreases n,
{
    if n == 0 {
        lemma2_to64();
        assert(a == 0);
    } else {
        let m = (pow2(n) - 1 - a) as nat;
        lemma_pow2_unfold_step(n);
        lemma_half_bound(n, a);
        lemma_fundamental_div_mod(a as int, 2);
        let mh = (pow2((n - 1) as nat) - 1 - a / 2) as nat;
        assert(m == mh * 2 + (1 - a % 2));
        lemma_fundamental_div_mod_converse(m as int, 2, mh as int, (1 - a % 2) as int);
        lemma_not((n - 1) as nat, a / 2);
        lemma_bxor_unfold(a, m);
        lemma_pow2_pos((n - 1) as nat);
    }
}

/// Recovering the dense values from a two-operand spread sum: the even and
/// odd bits of `spread(p) + 2*spread(q)` are exactly `p` and `q`.
pub proof fn lemma_even_odd(p: nat, q: nat)
    ensures
        even_bits(spread(p) + 2 * spread(q)) == p,
        odd_bits(spread(p) + 2 * spread(q)) == q,
    decreases p + q,
{
    if p == 0 && q == 0 {
    } else {
        let s = spread(p / 2) + 2 * spread(q / 2);
        let r = spread(p) + 2 * spread(q);
        lemma_spread_unfold(p);
        lemma_spread_unfold(q);
        assert(r == 4 * s + (p % 2 + 2 * (q % 2)));
        lemma_fundamental_div_mod_converse(r as int, 4, s as int, (p % 2 + 2 * (q % 2)) as int);
        lemma_fundamental_div_mod_converse(
            r as int,
            2,
            (q % 2 + 2 * s) as int,
            (p % 2) as int,
        );
        lemma_fundamental_div_mod_converse((r / 2) as int, 2, s as int, (q % 2) as int);
        lemma_even_odd(p / 2, q / 2);
        lemma_even_unfold(r);
        lemma_fundamental_div_mod(p as int, 2);
        lemma_fundamental_div_mod(q as int, 2);
    }
}

/// Spreading is injective.
pub proof fn lemma_spread_injective(a: nat, b: nat)
    requires
        spread(a) == spread(b),
    ensures
        a == b,
    decreases a + b,
{
    if a == 0 && b == 0 {
    } else {
        lemma_spread_low(a);
        lemma_spread_low(b);
        lemma_spread_injective(a / 2, b / 2);
        lemma_fundamental_div_mod(a as int, 2);
        lemma_fundamental_div_mod(b as int, 2);
    }
}

/// `spread` computes the bit-doubling sum: bit `i` of the dense input,
/// weighted by `4^i`, summed over all `n` bits.
pub proof fn lemma_spread_is_bit_sum(n: nat, x: nat)
    requires
        x < pow2(n),
    ensures
        spread(x) == spread_sum(x, n),
    decreases n,
{
    if n == 0 {
        assert(x == 0) by {
            lemma2_to64();
        }
    } else {
        lemma_half_bound(n, x);
        lemma_spread_is_bit_sum((n - 1) as nat, x / 2);
        lemma_spread_sum_step(x, n);
        lemma_spread_unfold(x);
    }
}

proof fn lemma_spread_sum_step(x: nat, n: nat)
    requires
        n >= 1,
    ensures
        spread_sum(x, n) == x % 2 + 4 * spread_sum(x / 2, (n - 1) as nat),
    decreases n,
{
    lemma2_to64();
    reveal_with_fuel(spread_sum, 2);
    if n == 1 {
        assert(bit_at(x, 0) == x % 2) by {
            vstd::arithmetic::div_mod::lemma_div_basics(x as int);
        }
        assert(spread_sum(x, 1) == bit_at(x, 0) * pow4(0));
        assert(bit_at(x, 0) * pow4(0) == bit_at(x, 0)) by (nonlinear_arith)
            requires
                pow4(0) == 1,
        ;
    } else {
        lemma_spread_sum_step(x, (n - 1) as nat);
        assert(bit_at(x, (n - 1) as nat) == bit_at(x / 2, (n - 2) as nat)) by {
            lemma_pow2_unfold_step((n - 1) as nat);
            lemma_pow2_pos((n - 2) as nat);
            vstd::arithmetic::div_mod::lemma_div_denominator(
                x as int,
                2,
                pow2((n - 2) as nat) as int,
            );
        }
        lemma_pow4_unfold((n - 1) as nat);
        let bit = bit_at(x / 2, (n - 2) as nat);
        let p = pow4((n - 2) as nat);
        assert(bit * (4 * p) == 4 * (bit * p)) by (nonlinear_arith);
    }
}

/// Bitwise results stay within the width of their inputs.
pub proof fn lemma_bitops_bound(n: nat, a: nat, b: nat, c: nat)
    requires
        a < pow2(n),
        b < pow2(n),
        c < pow2(n),
    ensures
        bxor(a, b) < pow2(n),
        band(a, b) < pow2(n),
        bxor3(a, b, c) < pow2(n),
        bmaj(a, b, c) < pow2(n),
    decreases n,
{
    if n == 0 {
        lemma2_to64();
    } else {
        lemma_half_bound(n, a);
        lemma_half_bound(n, b);
        lemma_half_bound(n, c);
        lemma_bitops_bound((n - 1) as nat, a / 2, b / 2, c / 2);
        lemma_pow2_unfold_step(n);
        lemma_bxor_unfold(a, b);
        assert((a % 2) * (b % 2) <= 1) by (nonlinear_arith)
            requires
                a % 2 <= 1 && b % 2 <= 1,
        ;
        reveal_with_fuel(bxor3, 2);
        reveal_with_fuel(bmaj, 2);
    }
}

/// The even and odd bits of a `2n`-bit value are `n`-bit values.
pub proof fn lemma_even_odd_bound(n: nat, x: nat)
    requires
        x < pow4(n),
    ensures
        even_bits(x) < pow2(n),
        odd_bits(x) < pow2(n),
    decreases n,
{
    if n == 0 {
        lemma2_to64();
    } else {
        lemma_quarter_bound(n, x);
        lemma_even_odd_bound((n - 1) as nat, x / 4);
        lemma_pow2_unfold_step(n);
        lemma_even_unfold(x);
    }
}

/// The spread of the all-ones `n`-bit mask: three times it is `4^n - 1`.
pub proof fn lemma_spread_ones(n: nat)
    ensures
        3 * spread((pow2(n) - 1) as nat) == pow4(n) - 1,
    decreases n,
{
    if n == 0 {
        lemma2_to64();
    } else {
        lemma_spread_ones((n - 1) as nat);
        lemma_pow2_unfold_step(n);
        lemma_pow4_unfold(n);
        lemma_pow2_pos((n - 1) as nat);
        let x = (pow2(n) - 1) as nat;
        assert(x == (pow2((n - 1) as nat) - 1) * 2 + 1);
        lemma_fundamental_div_mod_converse(
            x as int,
            2,
            pow2((n - 1) as nat) - 1,
            1,
        );
        lemma_spread_unfold(x);
    }
}

} // verus!
