//! The boolean-function gates' arithmetic: what each spread-domain sum
//! computes, as SHA-256 defines it.

use vstd::prelude::*;
use vstd::arithmetic::power2::{lemma2_to64, lemma2_to64_rest, pow2};
use vstd::arithmetic::div_mod::{
    lemma_fundamental_div_mod, lemma_fundamental_div_mod_converse, lemma_mod_bound,
};
use crate::spread::{
    band, bmaj, bnot32, bxor, bxor3, even_bits, lemma_add_xor_and, lemma_bitops_bound,
    lemma_bxor_unfold, lemma_even_odd, lemma_even_odd_bound, lemma_not, lemma_spread_add2,
    lemma_spread_add3, lemma_spread_bound, lemma_spread_split, odd_bits, pow4,
    rotr32, spread,
};
use crate::cells::CellValue32;
use crate::words::{spread_pair_known, spread_pair_wf, spread_pair_word};

verus! {

/// SHA-256's Σ0: XOR of the 32-bit right rotations by 2, 13 and 22.
pub open spec fn sigma0_spec(w: nat) -> nat {
    bxor3(rotr32(w, 2), rotr32(w, 13), rotr32(w, 22))
}

/// SHA-256's Σ1: XOR of the 32-bit right rotations by 6, 11 and 25.
pub open spec fn sigma1_spec(w: nat) -> nat {
    bxor3(rotr32(w, 6), rotr32(w, 11), rotr32(w, 25))
}

/// SHA-256's choice function: `(e AND f) XOR ((NOT e) AND g)`.
pub open spec fn ch_spec(e: nat, f: nat, g: nat) -> nat {
    bxor(band(e, f), band(bnot32(e), g))
}

/// SHA-256's majority function, per bit.
pub open spec fn maj_spec(a: nat, b: nat, c: nat) -> nat {
    bmaj(a, b, c)
}

/// Adding the spreads of two 32-bit values: the even and odd bits of the
/// 64-bit sum's halves are the halves of the XOR and of the AND.
pub proof fn lemma_two_spread_sum(e: nat, f: nat)
    requires
        e < pow2(32),
        f < pow2(32),
    ensures
        spread(e) + spread(f) < pow2(64),
        even_bits((spread(e) + spread(f)) % pow2(32)) == bxor(e, f) % pow2(16),
        odd_bits((spread(e) + spread(f)) % pow2(32)) == band(e, f) % pow2(16),
        even_bits((spread(e) + spread(f)) / pow2(32)) == bxor(e, f) / pow2(16),
        odd_bits((spread(e) + spread(f)) / pow2(32)) == band(e, f) / pow2(16),
        bxor(e, f) < pow2(32),
        band(e, f) < pow2(32),
{
    lemma2_to64();
    lemma_spread_add2(e, f);
    lemma_bitops_bound(32, e, f, f);
    let x = bxor(e, f);
    let m = band(e, f);
    lemma_halves_of_pair_sum(x, m);
    lemma_spread_bound(32, e);
    lemma_spread_bound(32, f);
    assert(pow4(32) == pow2(64));
}

/// Adding the spreads of three 32-bit values: the even and odd bits of the
/// 64-bit sum's halves are the halves of the three-way XOR and the per-bit
/// majority.
pub proof fn lemma_three_spread_sum(a: nat, b: nat, c: nat)
    requires
        a < pow2(32),
        b < pow2(32),
        c < pow2(32),
    ensures
        spread(a) + spread(b) + spread(c) < pow2(64),
        even_bits((spread(a) + spread(b) + spread(c)) % pow2(32)) == bxor3(a, b, c) % pow2(16),
        odd_bits((spread(a) + spread(b) + spread(c)) % pow2(32)) == bmaj(a, b, c) % pow2(16),
        even_bits((spread(a) + spread(b) + spread(c)) / pow2(32)) == bxor3(a, b, c) / pow2(16),
        odd_bits((spread(a) + spread(b) + spread(c)) / pow2(32)) == bmaj(a, b, c) / pow2(16),
        bxor3(a, b, c) < pow2(32),
        bmaj(a, b, c) < pow2(32),
{
    lemma2_to64();
    lemma_spread_add3(a, b, c);
    lemma_bitops_bound(32, a, b, c);
    let x = bxor3(a, b, c);
    let m = bmaj(a, b, c);
    lemma_halves_of_pair_sum(x, m);
    lemma_spread_bound(32, a);
    lemma_spread_bound(32, b);
    lemma_spread_bound(32, c);
    assert(pow4(32) == pow2(64));
}

/// `spread(x) + 2*spread(m)` splits at the 32-bit boundary into the same
/// form over the 16-bit halves of `x` and `m`, and even/odd extraction of
/// each half recovers those halves.
proof fn lemma_halves_of_pair_sum(x: nat, m: nat)
    requires
        x < pow2(32),
        m < pow2(32),
    ensures
        even_bits((spread(x) + 2 * spread(m)) % pow2(32)) == x % pow2(16),
        odd_bits((spread(x) + 2 * spread(m)) % pow2(32)) == m % pow2(16),
        even_bits((spread(x) + 2 * spread(m)) / pow2(32)) == x / pow2(16),
        odd_bits((spread(x) + 2 * spread(m)) / pow2(32)) == m / pow2(16),
{
    lemma2_to64();
    let r = spread(x) + 2 * spread(m);
    let xl = x % pow2(16);
    let xh = x / pow2(16);
    let ml = m % pow2(16);
    let mh = m / pow2(16);
    lemma_fundamental_div_mod(x as int, pow2(16) as int);
    lemma_fundamental_div_mod(m as int, pow2(16) as int);
    lemma_mod_bound(x as int, pow2(16) as int);
    lemma_mod_bound(m as int, pow2(16) as int);
    lemma_spread_split(16, xl, xh);
    lemma_spread_split(16, ml, mh);
    assert(pow4(16) == pow2(32));
    lemma_spread_bound(16, xl);
    lemma_spread_bound(16, ml);
    let rem = spread(xl) + 2 * spread(ml);
    let q = spread(xh) + 2 * spread(mh);
    assert(rem < pow2(32));
    assert(r == q * pow2(32) + rem) by {
        assert(spread(x) == spread(xl) + pow2(32) * spread(xh));
        assert(spread(m) == spread(ml) + pow2(32) * spread(mh));
    }
    lemma_fundamental_div_mod_converse(r as int, pow2(32) as int, q as int, rem as int);
    lemma_even_odd(xl, ml);
    lemma_even_odd(xh, mh);
}

/// Subtracting a half-word's spread from the all-even mask spreads its
/// 16-bit complement.
pub proof fn lemma_neg_half(d: nat)
    requires
        d < pow2(16),
    ensures
        spread(d) <= 0x5555_5555,
        spread((pow2(16) - 1 - d) as nat) == 0x5555_5555 - spread(d),
        ((pow2(16) - 1 - d) as nat) < pow2(16),
{
    lemma2_to64();
    crate::util::lemma_mask_even();
    let nd = (pow2(16) - 1 - d) as nat;
    lemma_not(16, d);
    lemma_spread_add2(d, nd);
    assert(pow4(16) == pow2(32));
}

/// ANDs taken against disjoint masks stay disjoint.
proof fn lemma_band_products_disjoint(e: nat, f: nat, m: nat, g: nat)
    requires
        band(e, m) == 0,
    ensures
        band(band(e, f), band(m, g)) == 0,
    decreases e + f + m + g,
{
    if e == 0 && f == 0 && m == 0 && g == 0 {
        assert(band(e, f) == 0 && band(m, g) == 0);
    } else {
        lemma_band_products_disjoint_step(e, f, m, g);
    }
}

proof fn lemma_band_products_disjoint_step(e: nat, f: nat, m: nat, g: nat)
    requires
        band(e, m) == 0,
        e + f + m + g > 0,
    ensures
        band(band(e, f), band(m, g)) == 0,
    decreases e + f + m + g,
{
    let eb = e % 2;
    let fb = f % 2;
    let mb = m % 2;
    let gb = g % 2;
    lemma_bxor_unfold(e, m);
    assert(eb * mb == 0 && band(e / 2, m / 2) == 0);
    if e / 2 + f / 2 + m / 2 + g / 2 == 0 {
        assert(band(e / 2, f / 2) == 0 && band(m / 2, g / 2) == 0);
    } else {
        lemma_band_products_disjoint_step(e / 2, f / 2, m / 2, g / 2);
    }
    lemma_bxor_unfold(e, f);
    lemma_bxor_unfold(m, g);
    assert(eb * fb <= 1 && mb * gb <= 1) by (nonlinear_arith)
        requires
            eb <= 1 && fb <= 1 && mb <= 1 && gb <= 1,
    ;
    lemma_fundamental_div_mod_converse(
        band(e, f) as int,
        2,
        band(e / 2, f / 2) as int,
        (eb * fb) as int,
    );
    lemma_fundamental_div_mod_converse(
        band(m, g) as int,
        2,
        band(m / 2, g / 2) as int,
        (mb * gb) as int,
    );
    lemma_bxor_unfold(band(e, f), band(m, g));
    assert((eb * fb) * (mb * gb) == 0) by (nonlinear_arith)
        requires
            eb * mb == 0 && eb <= 1 && fb <= 1 && mb <= 1 && gb <= 1,
    ;
}

/// The choice function splits into two disjoint AND terms whose plain sum
/// is their XOR: the form the circuit's two gate halves compute.
pub proof fn lemma_ch_split(e: nat, f: nat, g: nat)
    requires
        e < pow2(32),
        f < pow2(32),
        g < pow2(32),
    ensures
        band(e, f) + band(bnot32(e), g) == ch_spec(e, f, g),
        ch_spec(e, f, g) < pow2(32),
        bnot32(e) < pow2(32),
{
    let ne = bnot32(e);
    lemma_not(32, e);
    lemma_band_products_disjoint(e, f, ne, g);
    lemma_add_xor_and(band(e, f), band(ne, g));
    lemma_bitops_bound(32, e, f, g);
    lemma_bitops_bound(32, ne, g, g);
    lemma_bitops_bound(32, band(e, f), band(ne, g), g);
}

/// Rewrites a product by a power term into a product by its literal value.
pub proof fn lemma_mul_eq(a: nat, b: nat, c: nat)
    requires
        a == c,
    ensures
        a * b == c * b,
{
    assert(a * b == c * b) by (nonlinear_arith)
        requires
            a == c,
    ;
}

/// A known well-formed spread pair: each half is at most the all-even mask,
/// the dense word it holds fits 32 bits, and that word's spread is the sum
/// of the pair weighted at the 32-bit boundary.
pub proof fn lemma_spread_pair_word_facts(p: (CellValue32, CellValue32))
    requires
        spread_pair_wf(p),
        spread_pair_known(p),
    ensures
        spread_pair_word(p) < pow2(32),
        spread(spread_pair_word(p)) == (p.0.value->0 as nat) + 0x1_0000_0000 * (
        p.1.value->0 as nat),
        p.0.value->0 <= 0x5555_5555,
        p.1.value->0 <= 0x5555_5555,
        even_bits(p.0.value->0 as nat) < pow2(16),
        even_bits(p.1.value->0 as nat) < pow2(16),
{
    lemma2_to64();
    let v0 = p.0.value->0 as nat;
    let v1 = p.1.value->0 as nat;
    let lo = even_bits(v0);
    let hi = even_bits(v1);
    assert(pow4(16) == pow2(32));
    lemma_even_odd_bound(16, v0);
    lemma_even_odd_bound(16, v1);
    lemma_spread_split(16, lo, hi);
    lemma_mul_eq(pow2(16), hi, 0x10000);
    lemma_mul_eq(pow4(16), spread(hi), 0x1_0000_0000);
    lemma_spread_bound(16, lo);
    lemma_spread_bound(16, hi);
}

/// The three weighted spread sums the Σ0 gate forms are the spreads of the
/// three rotations of the recombined A-word.
#[verifier::rlimit(100)]
#[verifier::spinoff_prover]
pub proof fn lemma_sigma0_forms(p0: nat, p1: nat, p2: nat, p3: nat, p4: nat, p5: nat)
    requires
        p0 < 4,
        p1 < 0x800,
        p2 < 8,
        p3 < 8,
        p4 < 8,
        p5 < 0x400,
    ensures
        ({
            let w = p0 + 4 * p1 + 0x2000 * p2 + 0x10000 * p3 + 0x80000 * p4 + 0x400000 * p5;
            &&& w < pow2(32)
            &&& spread(p1) + 0x400000 * spread(p2) + 0x10000000 * spread(p3) + 0x400000000
                * spread(p4) + 0x10000000000 * spread(p5) + 0x1000000000000000 * spread(p0)
                == spread(rotr32(w, 2))
            &&& spread(p2) + 0x40 * spread(p3) + 0x1000 * spread(p4) + 0x40000 * spread(p5)
                + 0x4000000000 * spread(p0) + 0x40000000000 * spread(p1) == spread(rotr32(w, 13))
            &&& spread(p5) + 0x100000 * spread(p0) + 0x1000000 * spread(p1) + 0x400000000000
                * spread(p2) + 0x10000000000000 * spread(p3) + 0x400000000000000 * spread(p4)
                == spread(rotr32(w, 22))
            &&& rotr32(w, 2) < pow2(32)
            &&& rotr32(w, 13) < pow2(32)
            &&& rotr32(w, 22) < pow2(32)
        }),
{
    lemma2_to64();
    lemma2_to64_rest();
    let w = p0 + 4 * p1 + 0x2000 * p2 + 0x10000 * p3 + 0x80000 * p4 + 0x400000 * p5;

    // Rotation by 2: pieces reordered as p1 | p2 | p3 | p4 | p5 | p0.
    let t4 = p5 + 0x400 * p0;
    lemma_spread_split(10, p5, p0);
    lemma_mul_eq(pow2(10), p0, 0x400);
    lemma_mul_eq(pow4(10), spread(p0), 0x100000);
    let t3 = p4 + 8 * t4;
    lemma_spread_split(3, p4, t4);
    lemma_mul_eq(pow2(3), t4, 0x8);
    lemma_mul_eq(pow4(3), spread(t4), 0x40);
    let t2 = p3 + 8 * t3;
    lemma_spread_split(3, p3, t3);
    lemma_mul_eq(pow2(3), t3, 0x8);
    lemma_mul_eq(pow4(3), spread(t3), 0x40);
    let t1 = p2 + 8 * t2;
    lemma_spread_split(3, p2, t2);
    lemma_mul_eq(pow2(3), t2, 0x8);
    lemma_mul_eq(pow4(3), spread(t2), 0x40);
    let r2 = p1 + 0x800 * t1;
    lemma_spread_split(11, p1, t1);
    lemma_mul_eq(pow2(11), t1, 0x800);
    lemma_mul_eq(pow4(11), spread(t1), 0x400000);
    assert(spread(t4) == spread(p5) + 0x100000 * spread(p0));
    assert(spread(t3) == spread(p4) + 0x40 * spread(t4));
    assert(spread(t2) == spread(p3) + 0x40 * spread(t3));
    assert(spread(t1) == spread(p2) + 0x40 * spread(t2));
    assert(spread(r2) == spread(p1) + 0x400000 * spread(t1));
    let q2 = p1 + 0x800 * p2 + 0x4000 * p3 + 0x20000 * p4 + 0x100000 * p5;
    assert(w == q2 * 4 + p0);
    lemma_fundamental_div_mod_converse(w as int, 4, q2 as int, p0 as int);
    lemma_mul_eq(pow2(30), w % pow2(2), 0x40000000);
    assert(rotr32(w, 2) == q2 + 0x40000000 * p0);
    assert(rotr32(w, 2) == r2);

    // Rotation by 13: pieces reordered as p2 | p3 | p4 | p5 | p0 | p1.
    let v1 = p0 + 4 * p1;
    lemma_spread_split(2, p0, p1);
    lemma_mul_eq(pow2(2), p1, 0x4);
    lemma_mul_eq(pow4(2), spread(p1), 0x10);
    let u4 = p5 + 0x400 * v1;
    lemma_spread_split(10, p5, v1);
    lemma_mul_eq(pow2(10), v1, 0x400);
    lemma_mul_eq(pow4(10), spread(v1), 0x100000);
    let u3 = p4 + 8 * u4;
    lemma_spread_split(3, p4, u4);
    lemma_mul_eq(pow2(3), u4, 0x8);
    lemma_mul_eq(pow4(3), spread(u4), 0x40);
    let u2 = p3 + 8 * u3;
    lemma_spread_split(3, p3, u3);
    lemma_mul_eq(pow2(3), u3, 0x8);
    lemma_mul_eq(pow4(3), spread(u3), 0x40);
    let r13 = p2 + 8 * u2;
    lemma_spread_split(3, p2, u2);
    lemma_mul_eq(pow2(3), u2, 0x8);
    lemma_mul_eq(pow4(3), spread(u2), 0x40);
    assert(spread(v1) == spread(p0) + 0x10 * spread(p1));
    assert(spread(u4) == spread(p5) + 0x100000 * spread(v1));
    assert(spread(u3) == spread(p4) + 0x40 * spread(u4));
    assert(spread(u2) == spread(p3) + 0x40 * spread(u3));
    assert(spread(r13) == spread(p2) + 0x40 * spread(u2));
    let q13 = p2 + 8 * p3 + 0x40 * p4 + 0x200 * p5;
    assert(w == q13 * 0x2000 + v1);
    lemma_fundamental_div_mod_converse(w as int, 0x2000, q13 as int, v1 as int);
    lemma_mul_eq(pow2(19), w % pow2(13), 0x80000);
    assert(rotr32(w, 13) == q13 + 0x80000 * v1);
    assert(rotr32(w, 13) == r13);

    // Rotation by 22: pieces reordered as p5 | p0 | p1 | p2 | p3 | p4.
    let z3 = p3 + 8 * p4;
    lemma_spread_split(3, p3, p4);
    lemma_mul_eq(pow2(3), p4, 0x8);
    lemma_mul_eq(pow4(3), spread(p4), 0x40);
    let z2 = p2 + 8 * z3;
    lemma_spread_split(3, p2, z3);
    lemma_mul_eq(pow2(3), z3, 0x8);
    lemma_mul_eq(pow4(3), spread(z3), 0x40);
    let z1 = p1 + 0x800 * z2;
    lemma_spread_split(11, p1, z2);
    lemma_mul_eq(pow2(11), z2, 0x800);
    lemma_mul_eq(pow4(11), spread(z2), 0x400000);
    let z0 = p0 + 4 * z1;
    lemma_spread_split(2, p0, z1);
    lemma_mul_eq(pow2(2), z1, 0x4);
    lemma_mul_eq(pow4(2), spread(z1), 0x10);
    let r22 = p5 + 0x400 * z0;
    lemma_spread_split(10, p5, z0);
    lemma_mul_eq(pow2(10), z0, 0x400);
    lemma_mul_eq(pow4(10), spread(z0), 0x100000);
    assert(spread(z3) == spread(p3) + 0x40 * spread(p4));
    assert(spread(z2) == spread(p2) + 0x40 * spread(z3));
    assert(spread(z1) == spread(p1) + 0x400000 * spread(z2));
    assert(spread(z0) == spread(p0) + 0x10 * spread(z1));
    assert(spread(r22) == spread(p5) + 0x100000 * spread(z0));
    let q22 = p5;
    let rem22 = p0 + 4 * p1 + 0x2000 * p2 + 0x10000 * p3 + 0x80000 * p4;
    assert(w == q22 * 0x400000 + rem22);
    lemma_fundamental_div_mod_converse(w as int, 0x400000, q22 as int, rem22 as int);
    lemma_mul_eq(pow2(10), w % pow2(22), 0x400);
    assert(rotr32(w, 22) == q22 + 0x400 * rem22);
    assert(rotr32(w, 22) == r22);

    assert(w < pow2(32));
    assert(spread(p1) + 0x400000 * spread(p2) + 0x10000000 * spread(p3) + 0x400000000 * spread(p4)
        + 0x10000000000 * spread(p5) + 0x1000000000000000 * spread(p0) == spread(rotr32(w, 2)));
    assert(spread(p2) + 0x40 * spread(p3) + 0x1000 * spread(p4) + 0x40000 * spread(p5)
        + 0x4000000000 * spread(p0) + 0x40000000000 * spread(p1) == spread(rotr32(w, 13)));
    assert(spread(p5) + 0x100000 * spread(p0) + 0x1000000 * spread(p1) + 0x400000000000 * spread(p2)
        + 0x10000000000000 * spread(p3) + 0x400000000000000 * spread(p4) == spread(
    rotr32(w, 22)));
    assert(rotr32(w, 2) < pow2(32) && rotr32(w, 13) < pow2(32) && rotr32(w, 22) < pow2(32));
}

/// The three weighted spread sums the Σ1 gate forms are the spreads of the
/// three rotations of the recombined E-word.
#[verifier::rlimit(100)]
#[verifier::spinoff_prover]
pub proof fn lemma_sigma1_forms(p0: nat, p1: nat, p2: nat, p3: nat, p4: nat, p5: nat)
    requires
        p0 < 8,
        p1 < 8,
        p2 < 4,
        p3 < 8,
        p4 < 0x4000,
        p5 < 0x80,
    ensures
        ({
            let w = p0 + 8 * p1 + 0x40 * p2 + 0x100 * p3 + 0x800 * p4 + 0x2000000 * p5;
            &&& w < pow2(32)
            &&& spread(p2) + 0x10 * spread(p3) + 0x400 * spread(p4) + 0x4000000000 * spread(p5)
                + 0x10000000000000 * spread(p0) + 0x400000000000000 * spread(p1) == spread(
                rotr32(w, 6),
            )
            &&& spread(p4) + 0x10000000 * spread(p5) + 0x40000000000 * spread(p0)
                + 0x1000000000000 * spread(p1) + 0x40000000000000 * spread(p2)
                + 0x400000000000000 * spread(p3) == spread(rotr32(w, 11))
            &&& spread(p5) + 0x4000 * spread(p0) + 0x100000 * spread(p1) + 0x4000000 * spread(p2)
                + 0x40000000 * spread(p3) + 0x1000000000 * spread(p4) == spread(rotr32(w, 25))
            &&& rotr32(w, 6) < pow2(32)
            &&& rotr32(w, 11) < pow2(32)
            &&& rotr32(w, 25) < pow2(32)
        }),
{
    lemma2_to64();
    lemma2_to64_rest();
    let w = p0 + 8 * p1 + 0x40 * p2 + 0x100 * p3 + 0x800 * p4 + 0x2000000 * p5;

    // Rotation by 6: pieces reordered as p2 | p3 | p4 | p5 | p0 | p1.
    let y1 = p0 + 8 * p1;
    lemma_spread_split(3, p0, p1);
    lemma_mul_eq(pow2(3), p1, 0x8);
    lemma_mul_eq(pow4(3), spread(p1), 0x40);
    let y2 = p5 + 0x80 * y1;
    lemma_spread_split(7, p5, y1);
    lemma_mul_eq(pow2(7), y1, 0x80);
    lemma_mul_eq(pow4(7), spread(y1), 0x4000);
    let y3 = p4 + 0x4000 * y2;
    lemma_spread_split(14, p4, y2);
    lemma_mul_eq(pow2(14), y2, 0x4000);
    lemma_mul_eq(pow4(14), spread(y2), 0x10000000);
    let y4 = p3 + 8 * y3;
    lemma_spread_split(3, p3, y3);
    lemma_mul_eq(pow2(3), y3, 0x8);
    lemma_mul_eq(pow4(3), spread(y3), 0x40);
    let r6 = p2 + 4 * y4;
    lemma_spread_split(2, p2, y4);
    lemma_mul_eq(pow2(2), y4, 0x4);
    lemma_mul_eq(pow4(2), spread(y4), 0x10);
    assert(spread(y1) == spread(p0) + 0x40 * spread(p1));
    assert(spread(y2) == spread(p5) + 0x4000 * spread(y1));
    assert(spread(y3) == spread(p4) + 0x10000000 * spread(y2));
    assert(spread(y4) == spread(p3) + 0x40 * spread(y3));
    assert(spread(r6) == spread(p2) + 0x10 * spread(y4));
    let q6 = p2 + 4 * p3 + 0x20 * p4 + 0x80000 * p5;
    assert(w == q6 * 0x40 + y1);
    lemma_fundamental_div_mod_converse(w as int, 0x40, q6 as int, y1 as int);
    lemma_mul_eq(pow2(26), w % pow2(6), 0x4000000);
    assert(rotr32(w, 6) == q6 + 0x4000000 * y1);
    assert(rotr32(w, 6) == r6);

    // Rotation by 11: pieces reordered as p4 | p5 | p0 | p1 | p2 | p3.
    let x1 = p2 + 4 * p3;
    lemma_spread_split(2, p2, p3);
    lemma_mul_eq(pow2(2), p3, 0x4);
    lemma_mul_eq(pow4(2), spread(p3), 0x10);
    let x2 = p1 + 8 * x1;
    lemma_spread_split(3, p1, x1);
    lemma_mul_eq(pow2(3), x1, 0x8);
    lemma_mul_eq(pow4(3), spread(x1), 0x40);
    let x3 = p0 + 8 * x2;
    lemma_spread_split(3, p0, x2);
    lemma_mul_eq(pow2(3), x2, 0x8);
    lemma_mul_eq(pow4(3), spread(x2), 0x40);
    let x4 = p5 + 0x80 * x3;
    lemma_spread_split(7, p5, x3);
    lemma_mul_eq(pow2(7), x3, 0x80);
    lemma_mul_eq(pow4(7), spread(x3), 0x4000);
    let r11 = p4 + 0x4000 * x4;
    lemma_spread_split(14, p4, x4);
    lemma_mul_eq(pow2(14), x4, 0x4000);
    lemma_mul_eq(pow4(14), spread(x4), 0x10000000);
    assert(spread(x1) == spread(p2) + 0x10 * spread(p3));
    assert(spread(x2) == spread(p1) + 0x40 * spread(x1));
    assert(spread(x3) == spread(p0) + 0x40 * spread(x2));
    assert(spread(x4) == spread(p5) + 0x4000 * spread(x3));
    assert(spread(r11) == spread(p4) + 0x10000000 * spread(x4));
    let q11 = p4 + 0x4000 * p5;
    let rem11 = p0 + 8 * p1 + 0x40 * p2 + 0x100 * p3;
    assert(w == q11 * 0x800 + rem11);
    lemma_fundamental_div_mod_converse(w as int, 0x800, q11 as int, rem11 as int);
    lemma_mul_eq(pow2(21), w % pow2(11), 0x200000);
    assert(rotr32(w, 11) == q11 + 0x200000 * rem11);
    assert(rotr32(w, 11) == r11);

    // Rotation by 25: pieces reordered as p5 | p0 | p1 | p2 | p3 | p4.
    let u1 = p3 + 8 * p4;
    lemma_spread_split(3, p3, p4);
    lemma_mul_eq(pow2(3), p4, 0x8);
    lemma_mul_eq(pow4(3), spread(p4), 0x40);
    let u2 = p2 + 4 * u1;
    lemma_spread_split(2, p2, u1);
    lemma_mul_eq(pow2(2), u1, 0x4);
    lemma_mul_eq(pow4(2), spread(u1), 0x10);
    let u3 = p1 + 8 * u2;
    lemma_spread_split(3, p1, u2);
    lemma_mul_eq(pow2(3), u2, 0x8);
    lemma_mul_eq(pow4(3), spread(u2), 0x40);
    let u4 = p0 + 8 * u3;
    lemma_spread_split(3, p0, u3);
    lemma_mul_eq(pow2(3), u3, 0x8);
    lemma_mul_eq(pow4(3), spread(u3), 0x40);
    let r25 = p5 + 0x80 * u4;
    lemma_spread_split(7, p5, u4);
    lemma_mul_eq(pow2(7), u4, 0x80);
    lemma_mul_eq(pow4(7), spread(u4), 0x4000);
    assert(spread(u1) == spread(p3) + 0x40 * spread(p4));
    assert(spread(u2) == spread(p2) + 0x10 * spread(u1));
    assert(spread(u3) == spread(p1) + 0x40 * spread(u2));
    assert(spread(u4) == spread(p0) + 0x40 * spread(u3));
    assert(spread(r25) == spread(p5) + 0x4000 * spread(u4));
    let q25 = p5;
    let rem25 = p0 + 8 * p1 + 0x40 * p2 + 0x100 * p3 + 0x800 * p4;
    assert(w == q25 * 0x2000000 + rem25);
    lemma_fundamental_div_mod_converse(w as int, 0x2000000, q25 as int, rem25 as int);
    lemma_mul_eq(pow2(7), w % pow2(25), 0x80);
    assert(rotr32(w, 25) == q25 + 0x80 * rem25);
    assert(rotr32(w, 25) == r25);

    assert(w < pow2(32));
    assert(spread(p2) + 0x10 * spread(p3) + 0x400 * spread(p4) + 0x4000000000 * spread(p5)
        + 0x10000000000000 * spread(p0) + 0x400000000000000 * spread(p1) == spread(rotr32(w, 6)));
    assert(spread(p4) + 0x10000000 * spread(p5) + 0x40000000000 * spread(p0) + 0x1000000000000
        * spread(p1) + 0x40000000000000 * spread(p2) + 0x400000000000000 * spread(p3) == spread(
    rotr32(w, 11)));
    assert(spread(p5) + 0x4000 * spread(p0) + 0x100000 * spread(p1) + 0x4000000 * spread(p2)
        + 0x40000000 * spread(p3) + 0x1000000000 * spread(p4) == spread(rotr32(w, 25)));
    assert(rotr32(w, 6) < pow2(32) && rotr32(w, 11) < pow2(32) && rotr32(w, 25) < pow2(32));
}

} // verus!
