//! Executable helpers on dense and spread values.

use vstd::prelude::*;
use vstd::arithmetic::power2::{
    pow2, lemma2_to64, lemma_pow2_adds, lemma_pow2_pos, lemma_pow2_strictly_increases,
};
use vstd::arithmetic::div_mod::{lemma_breakdown, lemma_mod_bound};
use crate::spread::{
    even_bits, lemma_even_odd_bound, lemma_even_unfold, lemma_half_bound, lemma_pow2_unfold_step,
    lemma_pow4_unfold, lemma_quarter_bound, lemma_spread_bound, lemma_spread_ones,
    lemma_spread_unfold, odd_bits, pow4, spread,
};

verus! {

/// The spread of the all-ones 16-bit mask: every even bit position set.
pub const MASK_EVEN_32: u32 = 0x5555_5555;

/// `MASK_EVEN_32` is the spread of `0xFFFF`.
pub proof fn lemma_mask_even()
    ensures
        MASK_EVEN_32 as nat == spread((pow2(16) - 1) as nat),
        pow2(16) == 0x10000,
        pow2(32) == 0x1_0000_0000,
{
    lemma_spread_ones(16);
    lemma2_to64();
    assert(pow4(16) == pow2(32));
}

/// Two to the power `e`, as a 32-bit value.
pub fn pow2_u32(e: u32) -> (r: u32)
    requires
        e <= 31,
    ensures
        r as nat == pow2(e as nat),
        r >= 1,
{
    let mut r: u32 = 1;
    let mut i: u32 = 0;
    proof {
        lemma2_to64();
    }
    while i < e
        invariant
            i <= e <= 31,
            r as nat == pow2(i as nat),
        decreases e - i,
    {
        proof {
            lemma_pow2_unfold_step((i + 1) as nat);
            lemma_pow2_strictly_increases((i + 1) as nat, 32);
            lemma2_to64();
        }
        r = r * 2;
        i = i + 1;
    }
    proof {
        lemma_pow2_pos(e as nat);
    }
    r
}

/// Interleaves the bits of a 16-bit word with zero bits: the spread form.
pub fn interleave_u16_with_zeros(x: u16) -> (r: u32)
    ensures
        r as nat == spread(x as nat),
{
    let mut acc: u64 = 0;
    let mut p4: u64 = 1;
    let mut cur: u32 = x as u32;
    let mut i: usize = 0;
    proof {
        lemma2_to64();
        assert((x as nat) < pow2(16));
    }
    while i < 16
        invariant
            i <= 16,
            p4 as nat == pow4(i as nat),
            (cur as nat) < pow2((16 - i) as nat),
            acc as nat + p4 as nat * spread(cur as nat) == spread(x as nat),
            (acc as nat) < (p4 as nat),
        decreases 16 - i,
    {
        let b: u64 = (cur % 2) as u64;
        proof {
            lemma_pow4_unfold((i + 1) as nat);
            if 2 * i < 30 {
                lemma_pow2_strictly_increases((2 * i) as nat, 30);
            }
            lemma2_to64();
            assert(p4 <= 0x40000000);
            lemma_spread_unfold(cur as nat);
            let cb = (cur as nat) % 2;
            let sc = spread((cur as nat) / 2);
            assert(p4 as nat * (cb + 4 * sc) == p4 as nat * cb + (4 * p4 as nat) * sc)
                by (nonlinear_arith);
            lemma_half_bound((16 - i) as nat, cur as nat);
            assert(b * p4 <= p4) by (nonlinear_arith)
                requires
                    b <= 1,
            ;
            assert(b as nat * p4 as nat == p4 as nat * (b as nat)) by (nonlinear_arith);
        }
        acc = acc + b * p4;
        p4 = p4 * 4;
        cur = cur / 2;
        i = i + 1;
    }
    proof {
        lemma2_to64();
        assert(cur == 0);
        assert(spread(cur as nat) == 0);
        assert(p4 as nat * spread(cur as nat) == 0) by (nonlinear_arith)
            requires
                spread(cur as nat) == 0,
        ;
        assert(acc as nat == spread(x as nat));
        lemma_spread_bound(16, x as nat);
        assert(pow4(16) == pow2(32));
        assert(acc < 0x1_0000_0000);
    }
    acc as u32
}

/// Splits a 32-bit value into the dense value on its even bit positions and
/// the dense value on its odd bit positions.
pub fn get_even_and_odd_bits_u32(x: u32) -> (r: (u16, u16))
    ensures
        r.0 as nat == even_bits(x as nat),
        r.1 as nat == odd_bits(x as nat),
{
    let mut acc_e: u32 = 0;
    let mut acc_o: u32 = 0;
    let mut p2: u32 = 1;
    let mut cur: u32 = x;
    let mut i: usize = 0;
    proof {
        lemma2_to64();
        assert(pow4(16) == pow2(32));
        assert((x as nat) < pow4(16));
        lemma_even_odd_bound(16, x as nat);
    }
    while i < 16
        invariant
            i <= 16,
            p2 as nat == pow2(i as nat),
            (cur as nat) < pow4((16 - i) as nat),
            acc_e as nat + p2 as nat * even_bits(cur as nat) == even_bits(x as nat),
            acc_o as nat + p2 as nat * odd_bits(cur as nat) == odd_bits(x as nat),
            even_bits(x as nat) < 0x10000,
            odd_bits(x as nat) < 0x10000,
            (acc_e as nat) <= even_bits(x as nat),
            (acc_o as nat) <= odd_bits(x as nat),
        decreases 16 - i,
    {
        let be: u32 = cur % 2;
        let bo: u32 = (cur / 2) % 2;
        proof {
            lemma_pow2_unfold_step((i + 1) as nat);
            if i < 15 {
                lemma_pow2_strictly_increases(i as nat, 15);
            }
            lemma2_to64();
            assert(p2 <= 0x8000);
            lemma_even_unfold(cur as nat);
            let ce = even_bits((cur as nat) / 4);
            let co = odd_bits((cur as nat) / 4);
            assert(p2 as nat * ((cur as nat) % 2 + 2 * ce) == p2 as nat * ((cur as nat) % 2) + (2
                * p2 as nat) * ce) by (nonlinear_arith);
            assert(p2 as nat * (((cur as nat) / 2) % 2 + 2 * co) == p2 as nat * (((cur as nat) / 2)
                % 2) + (2 * p2 as nat) * co) by (nonlinear_arith);
            lemma_quarter_bound((16 - i) as nat, cur as nat);
            assert(be * p2 <= p2) by (nonlinear_arith)
                requires
                    be <= 1,
            ;
            assert(bo * p2 <= p2) by (nonlinear_arith)
                requires
                    bo <= 1,
            ;
            assert(be as nat * p2 as nat == p2 as nat * (be as nat)) by (nonlinear_arith);
            assert(bo as nat * p2 as nat == p2 as nat * (bo as nat)) by (nonlinear_arith);
        }
        acc_e = acc_e + be * p2;
        acc_o = acc_o + bo * p2;
        p2 = p2 * 2;
        cur = cur / 4;
        i = i + 1;
    }
    proof {
        lemma2_to64();
        assert(pow4(0) == pow2(0));
        assert(cur == 0);
        assert(even_bits(cur as nat) == 0 && odd_bits(cur as nat) == 0);
        assert(p2 as nat * even_bits(cur as nat) == 0) by (nonlinear_arith)
            requires
                even_bits(cur as nat) == 0,
        ;
        assert(p2 as nat * odd_bits(cur as nat) == 0) by (nonlinear_arith)
            requires
                odd_bits(cur as nat) == 0,
        ;
        assert(acc_e as nat == even_bits(x as nat));
        assert(acc_o as nat == odd_bits(x as nat));
    }
    (acc_e as u16, acc_o as u16)
}

/// The fixed-width pieces of `x`, low piece first: piece `i` holds the
/// `ws[i]` bits of `x` that start at the cumulative offset of the earlier
/// widths.
pub open spec fn chopped(x: nat, ws: Seq<u32>) -> Seq<u32>
    decreases ws.len(),
{
    if ws.len() == 0 {
        Seq::empty()
    } else {
        seq![(x % pow2(ws[0] as nat)) as u32] + chopped(x / pow2(ws[0] as nat), ws.drop_first())
    }
}

/// The number of bits covered by a width list.
pub open spec fn total_width(ws: Seq<u32>) -> nat
    decreases ws.len(),
{
    if ws.len() == 0 {
        0
    } else {
        ws[0] as nat + total_width(ws.drop_first())
    }
}

/// The weighted recombination of pieces: piece `i` is multiplied by two to
/// the cumulative offset of the earlier widths.
pub open spec fn recombined(ws: Seq<u32>, ps: Seq<u32>) -> nat
    decreases ws.len(),
{
    if ws.len() == 0 || ps.len() == 0 {
        0
    } else {
        ps[0] as nat + pow2(ws[0] as nat) * recombined(ws.drop_first(), ps.drop_first())
    }
}

/// Chopping is inverted by weighted recombination: the pieces of `x` put
/// back together give `x` reduced to the covered width.
pub proof fn lemma_chopped_props(x: nat, ws: Seq<u32>)
    requires
        forall|i: int| 0 <= i < ws.len() ==> #[trigger] ws[i] <= 31,
    ensures
        chopped(x, ws).len() == ws.len(),
        forall|i: int|
            0 <= i < ws.len() ==> (#[trigger] chopped(x, ws)[i]) < pow2(ws[i] as nat),
        recombined(ws, chopped(x, ws)) == x % pow2(total_width(ws)),
    decreases ws.len(),
{
    if ws.len() == 0 {
        lemma2_to64();
        assert(x % pow2(0) == x % 1 == 0);
    } else {
        let w0 = ws[0] as nat;
        lemma_pow2_pos(w0);
        lemma_mod_bound(x as int, pow2(w0) as int);
        let p0 = x % pow2(w0);
        let rest = chopped(x / pow2(w0), ws.drop_first());
        lemma_chopped_props(x / pow2(w0), ws.drop_first());
        lemma_pow2_strictly_increases(w0, 32);
        lemma2_to64();
        assert(chopped(x, ws) == seq![p0 as u32] + rest);
        assert((seq![p0 as u32] + rest).drop_first() =~= rest);
        assert((seq![p0 as u32] + rest)[0] == p0 as u32);
        assert(forall|i: int|
            0 <= i < ws.len() ==> (#[trigger] chopped(x, ws)[i]) < pow2(ws[i] as nat)) by {
            assert(forall|i: int|
                1 <= i < ws.len() ==> chopped(x, ws)[i] == rest[i - 1] && ws[i]
                    == ws.drop_first()[i - 1]);
        }
        let t1 = total_width(ws.drop_first());
        lemma_pow2_pos(t1);
        lemma_breakdown(x as int, pow2(w0) as int, pow2(t1) as int);
        lemma_pow2_adds(w0, t1);
        assert(recombined(ws, chopped(x, ws)) == p0 + pow2(w0) * recombined(
            ws.drop_first(),
            rest,
        ));
    }
}

/// Splits `x` into consecutive little-endian pieces of the given bit widths.
pub fn chop_u32(x: u32, widths: &Vec<u32>) -> (pieces: Vec<u32>)
    requires
        forall|i: int| 0 <= i < widths@.len() ==> #[trigger] widths@[i] <= 31,
    ensures
        pieces@ == chopped(x as nat, widths@),
{
    let mut pieces: Vec<u32> = Vec::new();
    let mut cur: u32 = x;
    let mut i: usize = 0;
    proof {
        assert(widths@.skip(0) =~= widths@);
        assert(Seq::<u32>::empty() + chopped(x as nat, widths@) =~= chopped(x as nat, widths@));
    }
    while i < widths.len()
        invariant
            i <= widths@.len(),
            forall|j: int| 0 <= j < widths@.len() ==> #[trigger] widths@[j] <= 31,
            pieces@ + chopped(cur as nat, widths@.skip(i as int)) == chopped(x as nat, widths@),
        decreases widths@.len() - i,
    {
        let w = widths[i];
        let m: u32 = pow2_u32(w);
        let p: u32 = cur % m;
        let next: u32 = cur / m;
        proof {
            assert(widths@.skip(i as int).drop_first() =~= widths@.skip(i as int + 1));
            assert(widths@.skip(i as int)[0] == widths@[i as int]);
            assert(chopped(cur as nat, widths@.skip(i as int)) == seq![p] + chopped(
                next as nat,
                widths@.skip(i as int + 1),
            ));
            assert((pieces@ + seq![p]) + chopped(next as nat, widths@.skip(i as int + 1)) =~= pieces@
                + (seq![p] + chopped(next as nat, widths@.skip(i as int + 1))));
        }
        pieces.push(p);
        cur = next;
        i = i + 1;
    }
    proof {
        assert(widths@.skip(widths@.len() as int) =~= Seq::<u32>::empty());
        assert(pieces@ + Seq::<u32>::empty() =~= pieces@);
    }
    pieces
}

/// Whether every operand half is a known witness value.
pub open spec fn known_operands(ops: Seq<(Option<u16>, Option<u16>)>) -> bool {
    forall|i: int| 0 <= i < ops.len() ==> (#[trigger] ops[i]).0 is Some && ops[i].1 is Some
}

/// The exact integer total of a list of known (lo, hi) half-word operands.
pub open spec fn operands_total(ops: Seq<(Option<u16>, Option<u16>)>) -> nat
    decreases ops.len(),
{
    if ops.len() == 0 {
        0
    } else {
        operands_total(ops.drop_last()) + (ops.last().0->0 as nat) + 0x10000 * (
        ops.last().1->0 as nat)
    }
}

/// Adds dense half-word operands as unbounded integers and reduces modulo
/// `2^32`, reporting the quotient as an explicit carry. An unknown operand
/// makes both outputs unknown.
pub fn sum_with_carry(operands: Vec<(Option<u16>, Option<u16>)>) -> (r: (Option<u32>, Option<u64>))
    requires
        2 <= operands@.len() <= 6,
    ensures
        known_operands(operands@) ==> {
            &&& r.0 == Some((operands_total(operands@) % pow2(32)) as u32)
            &&& r.1 == Some((operands_total(operands@) / pow2(32)) as u64)
            &&& (r.0->0 as nat) + pow2(32) * (r.1->0 as nat) == operands_total(operands@)
            &&& (r.0->0 as nat) < pow2(32)
            &&& (r.1->0 as nat) < operands@.len()
        },
        !known_operands(operands@) ==> r == (None::<u32>, None::<u64>),
{
    let mut sum: u64 = 0;
    let mut known: bool = true;
    let mut i: usize = 0;
    while i < operands.len()
        invariant
            i <= operands@.len() <= 6,
            known <==> known_operands(operands@.take(i as int)),
            known ==> sum as nat == operands_total(operands@.take(i as int)),
            sum <= i * 0xFFFF_FFFF,
        decreases operands@.len() - i,
    {
        let (lo_o, hi_o) = operands[i];
        proof {
            assert(operands@.take(i as int + 1).drop_last() =~= operands@.take(i as int));
            assert(operands@.take(i as int + 1).last() == operands@[i as int]);
        }
        match (lo_o, hi_o) {
            (Some(lo), Some(hi)) => {
                sum = sum + lo as u64 + 0x10000u64 * (hi as u64);
            },
            _ => {
                known = false;
            },
        }
        i = i + 1;
    }
    proof {
        assert(operands@.take(operands@.len() as int) =~= operands@);
    }
    if known {
        let result: u32 = (sum % 0x1_0000_0000u64) as u32;
        let carry: u64 = sum / 0x1_0000_0000u64;
        proof {
            lemma2_to64();
            assert(carry < operands@.len());
        }
        (Some(result), Some(carry))
    } else {
        (None, None)
    }
}

/// Splits a 32-bit word into its low and high dense 16-bit halves.
pub fn u32_to_halves(x: u32) -> (r: (u16, u16))
    ensures
        r.0 as nat == (x as nat) % 0x10000,
        r.1 as nat == (x as nat) / 0x10000,
        x as nat == r.0 as nat + 0x10000 * (r.1 as nat),
{
    ((x % 65536) as u16, (x / 65536) as u16)
}

} // verus!
