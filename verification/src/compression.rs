//! The compression gates: decomposition, the boolean-function gates, and
//! the carry-tracked word sums, each assigning its fixed rows of the table.
//!
//! Construction is structurally total: an unknown witness value flows
//! through every helper as `None` and never fails; a malformed witness is
//! caught only by the backend's constraint checker, never here.

use vstd::prelude::*;
use vstd::arithmetic::power2::{lemma2_to64, lemma2_to64_rest, pow2};
use vstd::arithmetic::div_mod::lemma_fundamental_div_mod;
use crate::cells::{
    assign_and_constrain16, assign_and_constrain32, constrain16_evs, constrain32_evs, opt16,
    CellValue16, CellValue32, Event, Region, A_1, A_3, A_4, A_5, A_6, A_7, A_8, A_9, S_A_NEW,
    S_CH, S_CH_NEG, S_DECOMPOSE_ABCD, S_DECOMPOSE_EFGH, S_E_NEW, S_H_PRIME, S_MAJ,
    S_UPPER_SIGMA_0, S_UPPER_SIGMA_1,
};
use crate::gates::{
    lemma_mul_eq, lemma_neg_half, lemma_sigma0_forms, lemma_sigma1_forms,
    lemma_spread_pair_word_facts, lemma_three_spread_sum, lemma_two_spread_sum, maj_spec,
    sigma0_spec, sigma1_spec,
};
use crate::rows::{
    get_a_new_row, get_ch_neg_row, get_ch_row, get_decompose_a_row, get_decompose_e_row,
    get_e_new_row, get_h_prime_row, get_maj_row, get_upper_sigma_0_row, get_upper_sigma_1_row,
};
use crate::spread::{
    band, bmaj, bnot32, bxor, bxor3, even_bits, lemma_spread_bound, lemma_spread_split, pow4,
    rotr32, spread,
};
use crate::table::{sw_of, SpreadVar, SpreadWord};
use crate::util::{
    get_even_and_odd_bits_u32, known_operands, operands_total, sum_with_carry, u32_to_halves,
    MASK_EVEN_32,
};
use crate::words::{
    dense_pair_known, dense_pair_val, pair_consistent, spread_pair_known, spread_pair_wf,
    spread_pair_word, AbcdVar, EfghVar, RoundWordA, RoundWordE,
};

verus! {

/// The low dense 16-bit half of an optional word.
pub open spec fn lo_half(w: Option<u32>) -> Option<u16> {
    match w {
        Some(v) => Some((v % 0x10000) as u16),
        None => None,
    }
}

/// The high dense 16-bit half of an optional word.
pub open spec fn hi_half(w: Option<u32>) -> Option<u16> {
    match w {
        Some(v) => Some((v / 0x10000) as u16),
        None => None,
    }
}

/// The six A-decomposition pieces of an optional word, low piece first.
pub open spec fn abcd_pieces(w: Option<u32>) -> (
    Option<u16>,
    Option<u16>,
    Option<u16>,
    Option<u16>,
    Option<u16>,
    Option<u16>,
) {
    match w {
        Some(v) => (
            Some((v % 4) as u16),
            Some(((v / 4) % 0x800) as u16),
            Some(((v / 0x2000) % 8) as u16),
            Some(((v / 0x10000) % 8) as u16),
            Some(((v / 0x80000) % 8) as u16),
            Some((v / 0x400000) as u16),
        ),
        None => (None, None, None, None, None, None),
    }
}

/// The six E-decomposition pieces of an optional word, low piece first.
pub open spec fn efgh_pieces(w: Option<u32>) -> (
    Option<u16>,
    Option<u16>,
    Option<u16>,
    Option<u16>,
    Option<u16>,
    Option<u16>,
) {
    match w {
        Some(v) => (
            Some((v % 8) as u16),
            Some(((v / 8) % 8) as u16),
            Some(((v / 0x40) % 4) as u16),
            Some(((v / 0x100) % 8) as u16),
            Some(((v / 0x800) % 0x4000) as u16),
            Some((v / 0x2000000) as u16),
        ),
        None => (None, None, None, None, None, None),
    }
}

/// The low half of a 32-bit gate result, when the witness is known.
pub open spec fn out_lo(known: bool, v: nat) -> Option<u16> {
    if known {
        Some((v % 0x10000) as u16)
    } else {
        None
    }
}

/// The high half of a 32-bit gate result, when the witness is known.
pub open spec fn out_hi(known: bool, v: nat) -> Option<u16> {
    if known {
        Some((v / 0x10000) as u16)
    } else {
        None
    }
}

/// The reduced result cell value of a carry-tracked sum.
pub open spec fn sum_result(known: bool, total: nat) -> Option<u32> {
    if known {
        Some((total % pow2(32)) as u32)
    } else {
        None
    }
}

/// The carry cell value of a carry-tracked sum: the sum's quotient by
/// `2^32`.
pub open spec fn sum_carry(known: bool, total: nat) -> Option<u64> {
    if known {
        Some((total / pow2(32)) as u64)
    } else {
        None
    }
}

/// The events of assigning a gate's four result halves at `row`, `row+1`:
/// even halves through the lookup, odd halves as plain cells.
#[verifier::opaque]
pub open spec fn spread_outputs_evs(
    row: usize,
    r0e: Option<u16>,
    r0o: Option<u16>,
    r1e: Option<u16>,
    r1o: Option<u16>,
) -> Seq<Event> {
    SpreadVar::lookup_evs(row, sw_of(r0e)) + SpreadVar::lookup_evs((row + 1) as usize, sw_of(r1e))
        + SpreadVar::plain_evs(A_3, row, A_4, row, sw_of(r0o)) + SpreadVar::plain_evs(
        A_3,
        (row + 1) as usize,
        A_4,
        (row + 1) as usize,
        sw_of(r1o),
    )
}

/// The events of the A-decomposition at `row`: its selector, the four
/// copy-backed pieces, and the two wide pieces (b, 11 bits; d, 10 bits)
/// through the spread-table lookup.
#[verifier::opaque]
pub open spec fn decompose_abcd_evs(row: usize, v: Option<u32>) -> Seq<Event> {
    let p = abcd_pieces(v);
    seq![Event::Fixed { col: S_DECOMPOSE_ABCD, row }] + SpreadVar::plain_evs(
        A_3,
        (row + 1) as usize,
        A_4,
        (row + 1) as usize,
        sw_of(p.0),
    ) + SpreadVar::lookup_evs(row, sw_of(p.1)) + SpreadVar::plain_evs(
        A_3,
        row,
        A_4,
        row,
        sw_of(p.2),
    ) + SpreadVar::plain_evs(A_5, row, A_6, row, sw_of(p.3)) + SpreadVar::plain_evs(
        A_5,
        (row + 1) as usize,
        A_6,
        (row + 1) as usize,
        sw_of(p.4),
    ) + SpreadVar::lookup_evs((row + 1) as usize, sw_of(p.5))
}

/// The events of the E-decomposition at `row`: its selector, the four
/// copy-backed pieces, and the two wide pieces (c, 14 bits; d, 7 bits)
/// through the spread-table lookup.
#[verifier::opaque]
pub open spec fn decompose_efgh_evs(row: usize, v: Option<u32>) -> Seq<Event> {
    let p = efgh_pieces(v);
    seq![Event::Fixed { col: S_DECOMPOSE_EFGH, row }] + SpreadVar::plain_evs(
        A_3,
        (row + 1) as usize,
        A_4,
        (row + 1) as usize,
        sw_of(p.0),
    ) + SpreadVar::plain_evs(A_5, (row + 1) as usize, A_6, (row + 1) as usize, sw_of(p.1))
        + SpreadVar::plain_evs(A_3, row, A_4, row, sw_of(p.2)) + SpreadVar::plain_evs(
        A_5,
        row,
        A_6,
        row,
        sw_of(p.3),
    ) + SpreadVar::lookup_evs((row + 1) as usize, sw_of(p.4)) + SpreadVar::lookup_evs(
        row,
        sw_of(p.5),
    )
}

/// The two events of assigning a word's dense halves at the given cells.
#[verifier::opaque]
pub open spec fn word_halves_dense_evs(
    lo_row: usize,
    lo_col: usize,
    hi_row: usize,
    hi_col: usize,
    word: Option<u32>,
) -> Seq<Event> {
    seq![
        Event::Advice { col: lo_col, row: lo_row, value: opt16(lo_half(word)) },
        Event::Advice { col: hi_col, row: hi_row, value: opt16(hi_half(word)) },
    ]
}

/// The events of assigning a word's dense and spread halves at `row`,
/// `row+1`.
#[verifier::opaque]
pub open spec fn word_halves_evs(row: usize, word: Option<u32>) -> Seq<Event> {
    SpreadVar::plain_evs(A_7, row, A_8, row, sw_of(lo_half(word))) + SpreadVar::plain_evs(
        A_7,
        (row + 1) as usize,
        A_8,
        (row + 1) as usize,
        sw_of(hi_half(word)),
    )
}

/// The fixed decompose row of the A word for a round index.
pub open spec fn decompose_a_row(idx: i32) -> usize {
    if idx == -1 {
        8
    } else {
        (24 * idx + 14) as usize
    }
}

/// The fixed decompose row of the E word for a round index.
pub open spec fn decompose_e_row(idx: i32) -> usize {
    if idx == -1 {
        0
    } else {
        (24 * idx) as usize
    }
}

/// The starting rows of the per-round gate slots.
pub open spec fn sigma0_row(idx: i32) -> usize {
    (24 * idx + 17) as usize
}

pub open spec fn sigma1_row(idx: i32) -> usize {
    (24 * idx + 3) as usize
}

pub open spec fn ch_row_of(idx: i32) -> usize {
    (24 * idx + 7) as usize
}

pub open spec fn ch_neg_row_of(idx: i32) -> usize {
    (24 * idx + 11) as usize
}

pub open spec fn maj_row_of(idx: i32) -> usize {
    (24 * idx + 21) as usize
}

pub open spec fn h_prime_row_of(idx: i32) -> usize {
    (24 * idx + 7) as usize
}

pub open spec fn e_new_row_of(idx: i32) -> usize {
    (24 * idx + 9) as usize
}

pub open spec fn a_new_row_of(idx: i32) -> usize {
    (24 * idx + 21) as usize
}

/// The odd carry bits the Σ0 sum discards.
pub open spec fn sigma0_carries(w: nat) -> nat {
    bmaj(rotr32(w, 2), rotr32(w, 13), rotr32(w, 22))
}

/// The odd carry bits the Σ1 sum discards.
pub open spec fn sigma1_carries(w: nat) -> nat {
    bmaj(rotr32(w, 6), rotr32(w, 11), rotr32(w, 25))
}

/// The cell value of a complemented spread half: the all-even mask minus
/// the half's spread value.
pub open spec fn neg_cell(c: CellValue32) -> Option<u64> {
    match c.value {
        Some(v) => Some((0x5555_5555 - v) as u64),
        None => None,
    }
}

/// The round word the A decomposition at `idx` returns.
#[verifier::opaque]
pub open spec fn decompose_a_word(idx: i32, v: Option<u32>) -> RoundWordA {
    let row = decompose_a_row(idx);
    let p = abcd_pieces(v);
    RoundWordA {
        pieces: AbcdVar {
            idx,
            val: v,
            a: SpreadVar::plain_var(A_3, (row + 1) as usize, A_4, (row + 1) as usize, sw_of(p.0)),
            b: SpreadVar::lookup_var(row, sw_of(p.1)),
            c_lo: SpreadVar::plain_var(A_3, row, A_4, row, sw_of(p.2)),
            c_mid: SpreadVar::plain_var(A_5, row, A_6, row, sw_of(p.3)),
            c_hi: SpreadVar::plain_var(
                A_5,
                (row + 1) as usize,
                A_6,
                (row + 1) as usize,
                sw_of(p.4),
            ),
            d: SpreadVar::lookup_var((row + 1) as usize, sw_of(p.5)),
        },
        dense_halves: (
            SpreadVar::plain_var(A_7, row, A_8, row, sw_of(lo_half(v))).dense,
            SpreadVar::plain_var(
                A_7,
                (row + 1) as usize,
                A_8,
                (row + 1) as usize,
                sw_of(hi_half(v)),
            ).dense,
        ),
        spread_halves: (
            SpreadVar::plain_var(A_7, row, A_8, row, sw_of(lo_half(v))).spread,
            SpreadVar::plain_var(
                A_7,
                (row + 1) as usize,
                A_8,
                (row + 1) as usize,
                sw_of(hi_half(v)),
            ).spread,
        ),
    }
}

/// The round word the E decomposition at `idx` returns.
#[verifier::opaque]
pub open spec fn decompose_e_word(idx: i32, v: Option<u32>) -> RoundWordE {
    let row = decompose_e_row(idx);
    let p = efgh_pieces(v);
    RoundWordE {
        pieces: EfghVar {
            idx,
            val: v,
            a_lo: SpreadVar::plain_var(
                A_3,
                (row + 1) as usize,
                A_4,
                (row + 1) as usize,
                sw_of(p.0),
            ),
            a_hi: SpreadVar::plain_var(
                A_5,
                (row + 1) as usize,
                A_6,
                (row + 1) as usize,
                sw_of(p.1),
            ),
            b_lo: SpreadVar::plain_var(A_3, row, A_4, row, sw_of(p.2)),
            b_hi: SpreadVar::plain_var(A_5, row, A_6, row, sw_of(p.3)),
            c: SpreadVar::lookup_var((row + 1) as usize, sw_of(p.4)),
            d: SpreadVar::lookup_var(row, sw_of(p.5)),
        },
        dense_halves: (
            SpreadVar::plain_var(A_7, row, A_8, row, sw_of(lo_half(v))).dense,
            SpreadVar::plain_var(
                A_7,
                (row + 1) as usize,
                A_8,
                (row + 1) as usize,
                sw_of(hi_half(v)),
            ).dense,
        ),
        spread_halves: (
            SpreadVar::plain_var(A_7, row, A_8, row, sw_of(lo_half(v))).spread,
            SpreadVar::plain_var(
                A_7,
                (row + 1) as usize,
                A_8,
                (row + 1) as usize,
                sw_of(hi_half(v)),
            ).spread,
        ),
    }
}

/// The events of the full A-word decomposition at `idx`.
#[verifier::opaque]
pub open spec fn decompose_a_evs(idx: i32, v: Option<u32>) -> Seq<Event> {
    word_halves_evs(decompose_a_row(idx), v) + decompose_abcd_evs(decompose_a_row(idx), v)
}

/// The events of the full E-word decomposition at `idx`.
#[verifier::opaque]
pub open spec fn decompose_e_evs(idx: i32, v: Option<u32>) -> Seq<Event> {
    word_halves_evs(decompose_e_row(idx), v) + decompose_efgh_evs(decompose_e_row(idx), v)
}

/// The events of the Σ0 gate at `idx`: its selector, the six copied piece
/// spreads, and the four result halves.
#[verifier::opaque]
pub open spec fn sigma0_evs(idx: i32, word: AbcdVar) -> Seq<Event> {
    let row = sigma0_row(idx);
    let k = word.val is Some;
    let v = word.val->0 as nat;
    seq![Event::Fixed { col: S_UPPER_SIGMA_0, row }] + constrain32_evs(
        A_3,
        (row + 1) as usize,
        word.a.spread,
    ) + constrain32_evs(A_5, row, word.b.spread) + constrain32_evs(
        A_3,
        (row - 1) as usize,
        word.c_lo.spread,
    ) + constrain32_evs(A_4, (row - 1) as usize, word.c_mid.spread) + constrain32_evs(
        A_4,
        (row + 1) as usize,
        word.c_hi.spread,
    ) + constrain32_evs(A_4, row, word.d.spread) + spread_outputs_evs(
        row,
        out_lo(k, sigma0_spec(v)),
        out_lo(k, sigma0_carries(v)),
        out_hi(k, sigma0_spec(v)),
        out_hi(k, sigma0_carries(v)),
    )
}

/// The events of the Σ1 gate at `idx`.
#[verifier::opaque]
pub open spec fn sigma1_evs(idx: i32, word: EfghVar) -> Seq<Event> {
    let row = sigma1_row(idx);
    let k = word.val is Some;
    let v = word.val->0 as nat;
    seq![Event::Fixed { col: S_UPPER_SIGMA_1, row }] + constrain32_evs(
        A_3,
        (row + 1) as usize,
        word.a_lo.spread,
    ) + constrain32_evs(A_4, (row + 1) as usize, word.a_hi.spread) + constrain32_evs(
        A_3,
        (row - 1) as usize,
        word.b_lo.spread,
    ) + constrain32_evs(A_4, (row - 1) as usize, word.b_hi.spread) + constrain32_evs(
        A_5,
        row,
        word.c.spread,
    ) + constrain32_evs(A_4, row, word.d.spread) + spread_outputs_evs(
        row,
        out_lo(k, sigma1_spec(v)),
        out_lo(k, sigma1_carries(v)),
        out_hi(k, sigma1_spec(v)),
        out_hi(k, sigma1_carries(v)),
    )
}

/// The events of the first Ch half-gate at `idx`.
#[verifier::opaque]
pub open spec fn ch_evs(
    idx: i32,
    e: (CellValue32, CellValue32),
    f: (CellValue32, CellValue32),
) -> Seq<Event> {
    let row = ch_row_of(idx);
    let k = spread_pair_known(e);
    let ew = spread_pair_word(e);
    let fw = spread_pair_word(f);
    seq![Event::Fixed { col: S_CH, row }] + constrain32_evs(A_3, (row - 1) as usize, e.0)
        + constrain32_evs(A_4, (row - 1) as usize, e.1) + constrain32_evs(
        A_3,
        (row + 1) as usize,
        f.0,
    ) + constrain32_evs(A_4, (row + 1) as usize, f.1) + spread_outputs_evs(
        row,
        out_lo(k, bxor(ew, fw)),
        out_lo(k, band(ew, fw)),
        out_hi(k, bxor(ew, fw)),
        out_hi(k, band(ew, fw)),
    )
}

/// The events of the Ch-complement half-gate at `idx`, including the two
/// mask-subtracted spread cells realizing NOT E.
#[verifier::opaque]
pub open spec fn ch_neg_evs(
    idx: i32,
    e: (CellValue32, CellValue32),
    g: (CellValue32, CellValue32),
) -> Seq<Event> {
    let row = ch_neg_row_of(idx);
    let k = spread_pair_known(e);
    let new = bnot32(spread_pair_word(e));
    let gw = spread_pair_word(g);
    seq![Event::Fixed { col: S_CH_NEG, row }] + constrain32_evs(A_5, (row - 1) as usize, e.0)
        + constrain32_evs(A_5, row, e.1) + constrain32_evs(A_3, (row + 1) as usize, g.0)
        + constrain32_evs(A_4, (row + 1) as usize, g.1) + seq![
        Event::Advice { col: A_3, row: (row - 1) as usize, value: neg_cell(e.0) },
        Event::Advice { col: A_4, row: (row - 1) as usize, value: neg_cell(e.1) },
    ] + spread_outputs_evs(
        row,
        out_lo(k, bxor(new, gw)),
        out_lo(k, band(new, gw)),
        out_hi(k, bxor(new, gw)),
        out_hi(k, band(new, gw)),
    )
}

/// The events of the Maj gate at `idx`.
#[verifier::opaque]
pub open spec fn maj_evs(
    idx: i32,
    a: (CellValue32, CellValue32),
    b: (CellValue32, CellValue32),
    c: (CellValue32, CellValue32),
) -> Seq<Event> {
    let row = maj_row_of(idx);
    let k = spread_pair_known(a);
    let aw = spread_pair_word(a);
    let bw = spread_pair_word(b);
    let cw = spread_pair_word(c);
    seq![Event::Fixed { col: S_MAJ, row }] + constrain32_evs(A_4, (row - 1) as usize, a.0)
        + constrain32_evs(A_5, (row - 1) as usize, a.1) + constrain32_evs(A_4, row, b.0)
        + constrain32_evs(A_5, row, b.1) + constrain32_evs(A_4, (row + 1) as usize, c.0)
        + constrain32_evs(A_5, (row + 1) as usize, c.1) + spread_outputs_evs(
        row,
        out_lo(k, bxor3(aw, bw, cw)),
        out_lo(k, bmaj(aw, bw, cw)),
        out_hi(k, bxor3(aw, bw, cw)),
        out_hi(k, bmaj(aw, bw, cw)),
    )
}

/// The integer total of H' = H + Ch + Ch-complement + Σ1 + K + W.
pub open spec fn h_prime_total(
    h: (CellValue16, CellValue16),
    ch: (CellValue16, CellValue16),
    ch_neg: (CellValue16, CellValue16),
    sigma_1: (CellValue16, CellValue16),
    k: u32,
    w: (CellValue16, CellValue16),
) -> nat {
    dense_pair_val(h) + dense_pair_val(ch) + dense_pair_val(ch_neg) + dense_pair_val(sigma_1)
        + k as nat + dense_pair_val(w)
}

/// The events of the H' gate at `idx`: its selector, the copied operands,
/// the K halves, the reduced result halves, and the explicit carry cell
/// holding the total's quotient by `2^32`.
#[verifier::opaque]
pub open spec fn h_prime_evs(
    idx: i32,
    h: (CellValue16, CellValue16),
    ch: (CellValue16, CellValue16),
    ch_neg: (CellValue16, CellValue16),
    sigma_1: (CellValue16, CellValue16),
    k: u32,
    w: (CellValue16, CellValue16),
) -> Seq<Event> {
    let row = h_prime_row_of(idx);
    let known = dense_pair_known(h);
    let total = h_prime_total(h, ch, ch_neg, sigma_1, k, w);
    seq![Event::Fixed { col: S_H_PRIME, row }] + constrain16_evs(A_7, (row - 1) as usize, h.0)
        + constrain16_evs(A_7, row, h.1) + constrain16_evs(A_4, row, sigma_1.0)
        + constrain16_evs(A_5, row, sigma_1.1) + seq![
        Event::Advice { col: A_6, row: (row - 1) as usize, value: Some((k % 0x10000) as u64) },
        Event::Advice { col: A_6, row, value: Some((k / 0x10000) as u64) },
    ] + constrain16_evs(A_8, (row - 1) as usize, w.0) + constrain16_evs(A_8, row, w.1)
        + constrain16_evs(A_6, (row + 1) as usize, ch.1) + constrain16_evs(
        A_5,
        (row - 1) as usize,
        ch_neg.0,
    ) + constrain16_evs(A_5, (row + 1) as usize, ch_neg.1) + word_halves_dense_evs(
        (row + 1) as usize,
        A_7,
        (row + 1) as usize,
        A_8,
        sum_result(known, total),
    ) + seq![Event::Advice { col: A_9, row: (row + 1) as usize, value: sum_carry(known, total) }]
}

/// The events of the E_new gate at `idx`, with its carry cell.
#[verifier::opaque]
pub open spec fn e_new_evs(
    idx: i32,
    d: (CellValue16, CellValue16),
    h_prime: (CellValue16, CellValue16),
) -> Seq<Event> {
    let row = e_new_row_of(idx);
    let known = dense_pair_known(d);
    let total = dense_pair_val(h_prime) + dense_pair_val(d);
    seq![Event::Fixed { col: S_E_NEW, row }] + constrain16_evs(A_7, row, d.0) + constrain16_evs(
        A_7,
        (row + 1) as usize,
        d.1,
    ) + word_halves_dense_evs(row, A_8, (row + 1) as usize, A_8, sum_result(known, total))
        + seq![Event::Advice { col: A_9, row: (row + 1) as usize, value: sum_carry(known, total) }]
}

/// The events of the A_new gate at `idx`, with its carry cell.
#[verifier::opaque]
pub open spec fn a_new_evs(
    idx: i32,
    maj: (CellValue16, CellValue16),
    sigma_0: (CellValue16, CellValue16),
    h_prime: (CellValue16, CellValue16),
) -> Seq<Event> {
    let row = a_new_row_of(idx);
    let known = dense_pair_known(h_prime);
    let total = dense_pair_val(h_prime) + dense_pair_val(sigma_0) + dense_pair_val(maj);
    seq![Event::Fixed { col: S_A_NEW, row }] + constrain16_evs(A_3, (row - 1) as usize, maj.1)
        + constrain16_evs(A_6, row, sigma_0.0) + constrain16_evs(
        A_6,
        (row + 1) as usize,
        sigma_0.1,
    ) + constrain16_evs(A_7, (row - 1) as usize, h_prime.0) + constrain16_evs(
        A_8,
        (row - 1) as usize,
        h_prime.1,
    ) + word_halves_dense_evs(row, A_8, (row + 1) as usize, A_8, sum_result(known, total))
        + seq![Event::Advice { col: A_9, row, value: sum_carry(known, total) }]
}

/// The cells `assign_word_halves` hands back for a word at `row`.
pub open spec fn word_halves_cells(row: usize, word: Option<u32>) -> (
    (CellValue16, CellValue16),
    (CellValue32, CellValue32),
) {
    let lo = SpreadVar::plain_var(A_7, row, A_8, row, sw_of(lo_half(word)));
    let hi = SpreadVar::plain_var(
        A_7,
        (row + 1) as usize,
        A_8,
        (row + 1) as usize,
        sw_of(hi_half(word)),
    );
    ((lo.dense, hi.dense), (lo.spread, hi.spread))
}

/// The result cell pair of the Σ0 gate, as its contract pins it.
pub open spec fn sigma0_out_pair(idx: i32, word: AbcdVar) -> (CellValue16, CellValue16) {
    let k = word.val is Some;
    let v = word.val->0 as nat;
    (
        CellValue16 { col: A_1, row: sigma0_row(idx), value: out_lo(k, sigma0_spec(v)) },
        CellValue16 {
            col: A_1,
            row: (sigma0_row(idx) + 1) as usize,
            value: out_hi(k, sigma0_spec(v)),
        },
    )
}

/// The result cell pair of the Σ1 gate.
pub open spec fn sigma1_out_pair(idx: i32, word: EfghVar) -> (CellValue16, CellValue16) {
    let k = word.val is Some;
    let v = word.val->0 as nat;
    (
        CellValue16 { col: A_1, row: sigma1_row(idx), value: out_lo(k, sigma1_spec(v)) },
        CellValue16 {
            col: A_1,
            row: (sigma1_row(idx) + 1) as usize,
            value: out_hi(k, sigma1_spec(v)),
        },
    )
}

/// The result cell pair of the first Ch half-gate.
pub open spec fn ch_out_pair(
    idx: i32,
    e: (CellValue32, CellValue32),
    f: (CellValue32, CellValue32),
) -> (CellValue16, CellValue16) {
    let k = spread_pair_known(e);
    let v = band(spread_pair_word(e), spread_pair_word(f));
    (
        CellValue16 { col: A_3, row: ch_row_of(idx), value: out_lo(k, v) },
        CellValue16 { col: A_3, row: (ch_row_of(idx) + 1) as usize, value: out_hi(k, v) },
    )
}

/// The result cell pair of the Ch-complement half-gate.
pub open spec fn ch_neg_out_pair(
    idx: i32,
    e: (CellValue32, CellValue32),
    g: (CellValue32, CellValue32),
) -> (CellValue16, CellValue16) {
    let k = spread_pair_known(e);
    let v = band(bnot32(spread_pair_word(e)), spread_pair_word(g));
    (
        CellValue16 { col: A_3, row: ch_neg_row_of(idx), value: out_lo(k, v) },
        CellValue16 { col: A_3, row: (ch_neg_row_of(idx) + 1) as usize, value: out_hi(k, v) },
    )
}

/// The result cell pair of the Maj gate.
pub open spec fn maj_out_pair(
    idx: i32,
    a: (CellValue32, CellValue32),
    b: (CellValue32, CellValue32),
    c: (CellValue32, CellValue32),
) -> (CellValue16, CellValue16) {
    let k = spread_pair_known(a);
    let v = bmaj(spread_pair_word(a), spread_pair_word(b), spread_pair_word(c));
    (
        CellValue16 { col: A_3, row: maj_row_of(idx), value: out_lo(k, v) },
        CellValue16 { col: A_3, row: (maj_row_of(idx) + 1) as usize, value: out_hi(k, v) },
    )
}

/// The result cell pair of the H' gate.
pub open spec fn h_prime_out_pair(
    idx: i32,
    h: (CellValue16, CellValue16),
    ch: (CellValue16, CellValue16),
    ch_neg: (CellValue16, CellValue16),
    sigma_1: (CellValue16, CellValue16),
    k: u32,
    w: (CellValue16, CellValue16),
) -> (CellValue16, CellValue16) {
    let v = sum_result(dense_pair_known(h), h_prime_total(h, ch, ch_neg, sigma_1, k, w));
    (
        CellValue16 { col: A_7, row: (h_prime_row_of(idx) + 1) as usize, value: lo_half(v) },
        CellValue16 { col: A_8, row: (h_prime_row_of(idx) + 1) as usize, value: hi_half(v) },
    )
}

/// The result cell pair of the E_new gate.
pub open spec fn e_new_out_pair(
    idx: i32,
    d: (CellValue16, CellValue16),
    h_prime: (CellValue16, CellValue16),
) -> (CellValue16, CellValue16) {
    let v = sum_result(dense_pair_known(d), dense_pair_val(h_prime) + dense_pair_val(d));
    (
        CellValue16 { col: A_8, row: e_new_row_of(idx), value: lo_half(v) },
        CellValue16 { col: A_8, row: (e_new_row_of(idx) + 1) as usize, value: hi_half(v) },
    )
}

/// The result cell pair of the A_new gate.
pub open spec fn a_new_out_pair(
    idx: i32,
    maj: (CellValue16, CellValue16),
    sigma_0: (CellValue16, CellValue16),
    h_prime: (CellValue16, CellValue16),
) -> (CellValue16, CellValue16) {
    let v = sum_result(
        dense_pair_known(h_prime),
        dense_pair_val(h_prime) + dense_pair_val(sigma_0) + dense_pair_val(maj),
    );
    (
        CellValue16 { col: A_8, row: a_new_row_of(idx), value: lo_half(v) },
        CellValue16 { col: A_8, row: (a_new_row_of(idx) + 1) as usize, value: hi_half(v) },
    )
}

/// The table row an event touches: the written or constrained-new cell's
/// row; for a copy, the newly placed operand's row.
pub open spec fn event_row(ev: Event) -> usize {
    match ev {
        Event::Advice { row, .. } => row,
        Event::Fixed { row, .. } => row,
        Event::Copy { a, .. } => a.row,
        Event::Lookup { row } => row,
    }
}

/// The Σ0 gate's row window: all its events lie in its own row slot.
pub proof fn lemma_sigma0_row_window(idx: i32, word: AbcdVar)
    requires
        0 <= idx < 64,
    ensures
        forall|j: int|
            0 <= j < sigma0_evs(idx, word).len() ==> sigma0_row(idx) - 1 <= event_row(
                #[trigger] sigma0_evs(idx, word)[j],
            ) <= sigma0_row(idx) + 1,
{
    reveal(sigma0_evs);
    reveal(spread_outputs_evs);
}

/// The Σ1 gate's row window.
pub proof fn lemma_sigma1_row_window(idx: i32, word: EfghVar)
    requires
        0 <= idx < 64,
    ensures
        forall|j: int|
            0 <= j < sigma1_evs(idx, word).len() ==> sigma1_row(idx) - 1 <= event_row(
                #[trigger] sigma1_evs(idx, word)[j],
            ) <= sigma1_row(idx) + 1,
{
    reveal(sigma1_evs);
    reveal(spread_outputs_evs);
}

/// The Ch half-gate's row window.
pub proof fn lemma_ch_row_window(idx: i32, e: (CellValue32, CellValue32), f: (CellValue32, CellValue32))
    requires
        0 <= idx < 64,
    ensures
        forall|j: int|
            0 <= j < ch_evs(idx, e, f).len() ==> ch_row_of(idx) - 1 <= event_row(
                #[trigger] ch_evs(idx, e, f)[j],
            ) <= ch_row_of(idx) + 1,
{
    reveal(ch_evs);
    reveal(spread_outputs_evs);
}

/// The Ch-complement half-gate's row window.
pub proof fn lemma_ch_neg_row_window(idx: i32, e: (CellValue32, CellValue32), g: (CellValue32, CellValue32))
    requires
        0 <= idx < 64,
    ensures
        forall|j: int|
            0 <= j < ch_neg_evs(idx, e, g).len() ==> ch_neg_row_of(idx) - 1 <= event_row(
                #[trigger] ch_neg_evs(idx, e, g)[j],
            ) <= ch_neg_row_of(idx) + 1,
{
    reveal(ch_neg_evs);
    reveal(spread_outputs_evs);
}

/// The Maj gate's row window.
pub proof fn lemma_maj_row_window(
    idx: i32,
    a: (CellValue32, CellValue32),
    b: (CellValue32, CellValue32),
    c: (CellValue32, CellValue32),
)
    requires
        0 <= idx < 64,
    ensures
        forall|j: int|
            0 <= j < maj_evs(idx, a, b, c).len() ==> maj_row_of(idx) - 1 <= event_row(
                #[trigger] maj_evs(idx, a, b, c)[j],
            ) <= maj_row_of(idx) + 1,
{
    reveal(maj_evs);
    reveal(spread_outputs_evs);
}

/// The H' gate's row window.
pub proof fn lemma_h_prime_row_window(
    idx: i32,
    h: (CellValue16, CellValue16),
    ch: (CellValue16, CellValue16),
    ch_neg: (CellValue16, CellValue16),
    sigma_1: (CellValue16, CellValue16),
    k: u32,
    w: (CellValue16, CellValue16),
)
    requires
        0 <= idx < 64,
    ensures
        forall|j: int|
            0 <= j < h_prime_evs(idx, h, ch, ch_neg, sigma_1, k, w).len() ==> h_prime_row_of(idx)
                - 1 <= event_row(#[trigger] h_prime_evs(idx, h, ch, ch_neg, sigma_1, k, w)[j])
                <= h_prime_row_of(idx) + 1,
{
    reveal(h_prime_evs);
    reveal(word_halves_dense_evs);
}

/// The E_new gate's row window.
pub proof fn lemma_e_new_row_window(
    idx: i32,
    d: (CellValue16, CellValue16),
    h_prime: (CellValue16, CellValue16),
)
    requires
        0 <= idx < 64,
    ensures
        forall|j: int|
            0 <= j < e_new_evs(idx, d, h_prime).len() ==> e_new_row_of(idx) <= event_row(
                #[trigger] e_new_evs(idx, d, h_prime)[j],
            ) <= e_new_row_of(idx) + 1,
{
    reveal(e_new_evs);
    reveal(word_halves_dense_evs);
}

/// The A_new gate's row window.
pub proof fn lemma_a_new_row_window(
    idx: i32,
    maj: (CellValue16, CellValue16),
    sigma_0: (CellValue16, CellValue16),
    h_prime: (CellValue16, CellValue16),
)
    requires
        0 <= idx < 64,
    ensures
        forall|j: int|
            0 <= j < a_new_evs(idx, maj, sigma_0, h_prime).len() ==> a_new_row_of(idx) - 1
                <= event_row(#[trigger] a_new_evs(idx, maj, sigma_0, h_prime)[j]) <= a_new_row_of(
                idx,
            ) + 1,
{
    reveal(a_new_evs);
    reveal(word_halves_dense_evs);
}

/// A decomposition's row window: both its rows belong to it.
pub proof fn lemma_decompose_row_windows(row: usize, v: Option<u32>)
    requires
        row + 2 < 0x10000,
    ensures
        forall|j: int|
            0 <= j < decompose_abcd_evs(row, v).len() ==> row <= event_row(
                #[trigger] decompose_abcd_evs(row, v)[j],
            ) <= row + 1,
        forall|j: int|
            0 <= j < decompose_efgh_evs(row, v).len() ==> row <= event_row(
                #[trigger] decompose_efgh_evs(row, v)[j],
            ) <= row + 1,
{
    reveal(decompose_abcd_evs);
    reveal(decompose_efgh_evs);
}

/// The compression gates' column assignment.
pub struct CompressionConfig {
    pub message_schedule: usize,
    pub extras: [usize; 6],
}

impl CompressionConfig {
    /// The canonical column layout.
    pub open spec fn wf(self) -> bool {
        &&& self.message_schedule == A_5
        &&& self.extras@ == seq![A_3, A_4, A_6, A_7, A_8, A_9]
    }

    pub fn new() -> (c: CompressionConfig)
        ensures
            c.wf(),
    {
        let c = CompressionConfig { message_schedule: A_5, extras: [A_3, A_4, A_6, A_7, A_8, A_9] };
        proof {
            assert(c.extras@ =~= seq![A_3, A_4, A_6, A_7, A_8, A_9]);
        }
        c
    }

    /// Writes a gate's four 16-bit result pieces into their rows: the
    /// even-bit pieces with a lookup each, the odd-bit pieces as plain
    /// advice cells.
    pub fn assign_spread_outputs(
        &self,
        region: &mut Region,
        row: usize,
        r_0_even: Option<u16>,
        r_0_odd: Option<u16>,
        r_1_even: Option<u16>,
        r_1_odd: Option<u16>,
    ) -> (r: ((CellValue16, CellValue16), (CellValue16, CellValue16)))
        requires
            row + 1 < 0x10000,
        ensures
            r.0.0 == (CellValue16 { col: A_1, row, value: r_0_even }),
            r.0.1 == (CellValue16 { col: A_1, row: (row + 1) as usize, value: r_1_even }),
            r.1.0 == (CellValue16 { col: A_3, row, value: r_0_odd }),
            r.1.1 == (CellValue16 { col: A_3, row: (row + 1) as usize, value: r_1_odd }),
            final(region)@ == old(region)@ + spread_outputs_evs(row, r_0_even, r_0_odd, r_1_even, r_1_odd),
    {
        let v0 = SpreadVar::with_lookup(region, row, SpreadWord::opt_new(r_0_even));
        let v1 = SpreadVar::with_lookup(region, row + 1, SpreadWord::opt_new(r_1_even));
        let o0 = SpreadVar::without_lookup(region, A_3, row, A_4, row, SpreadWord::opt_new(r_0_odd));
        let o1 = SpreadVar::without_lookup(
            region,
            A_3,
            row + 1,
            A_4,
            row + 1,
            SpreadWord::opt_new(r_1_odd),
        );
        proof {
            reveal(spread_outputs_evs);
            assert(region@ =~= old(region)@ + spread_outputs_evs(
                row,
                r_0_even,
                r_0_odd,
                r_1_even,
                r_1_odd,
            ));
        }
        ((v0.dense, v1.dense), (o0.dense, o1.dense))
    }

    /// The even halves of a Σ gate: the dense rotate-XOR value.
    pub fn assign_sigma_outputs(
        &self,
        region: &mut Region,
        row: usize,
        r_0_even: Option<u16>,
        r_0_odd: Option<u16>,
        r_1_even: Option<u16>,
        r_1_odd: Option<u16>,
    ) -> (r: (CellValue16, CellValue16))
        requires
            row + 1 < 0x10000,
        ensures
            r.0 == (CellValue16 { col: A_1, row, value: r_0_even }),
            r.1 == (CellValue16 { col: A_1, row: (row + 1) as usize, value: r_1_even }),
            final(region)@ == old(region)@ + spread_outputs_evs(row, r_0_even, r_0_odd, r_1_even, r_1_odd),
    {
        let (even, _odd) = self.assign_spread_outputs(region, row, r_0_even, r_0_odd, r_1_even, r_1_odd);
        even
    }

    /// The odd halves of the Ch gate's output: the carry bits are the AND.
    pub fn assign_ch_outputs(
        &self,
        region: &mut Region,
        row: usize,
        r_0_even: Option<u16>,
        r_0_odd: Option<u16>,
        r_1_even: Option<u16>,
        r_1_odd: Option<u16>,
    ) -> (r: (CellValue16, CellValue16))
        requires
            row + 1 < 0x10000,
        ensures
            r.0 == (CellValue16 { col: A_3, row, value: r_0_odd }),
            r.1 == (CellValue16 { col: A_3, row: (row + 1) as usize, value: r_1_odd }),
            final(region)@ == old(region)@ + spread_outputs_evs(row, r_0_even, r_0_odd, r_1_even, r_1_odd),
    {
        let (_even, odd) = self.assign_spread_outputs(region, row, r_0_even, r_0_odd, r_1_even, r_1_odd);
        odd
    }

    /// The odd halves of the Maj gate's output: the carry bits are the
    /// per-bit majority.
    pub fn assign_maj_outputs(
        &self,
        region: &mut Region,
        row: usize,
        r_0_even: Option<u16>,
        r_0_odd: Option<u16>,
        r_1_even: Option<u16>,
        r_1_odd: Option<u16>,
    ) -> (r: (CellValue16, CellValue16))
        requires
            row + 1 < 0x10000,
        ensures
            r.0 == (CellValue16 { col: A_3, row, value: r_0_odd }),
            r.1 == (CellValue16 { col: A_3, row: (row + 1) as usize, value: r_1_odd }),
            final(region)@ == old(region)@ + spread_outputs_evs(row, r_0_even, r_0_odd, r_1_even, r_1_odd),
    {
        let (_even, odd) = self.assign_spread_outputs(region, row, r_0_even, r_0_odd, r_1_even, r_1_odd);
        odd
    }

    /// Splits a word (or unknown) into the A-decomposition's fixed piece
    /// widths 2, 11, 3, 3, 3, 10 and assigns each piece: the two wide
    /// pieces through the lookup, the rest copy-backed.
    pub fn decompose_abcd(&self, region: &mut Region, row: usize, a_val: Option<u32>) -> (r: (
        SpreadVar,
        SpreadVar,
        SpreadVar,
        SpreadVar,
        SpreadVar,
        SpreadVar,
    ))
        requires
            self.wf(),
            row + 2 < 0x10000,
        ensures
            r.0.wf() && r.1.wf() && r.2.wf() && r.3.wf() && r.4.wf() && r.5.wf(),
            a_val is Some <==> r.0.known(),
            a_val is Some <==> r.1.known(),
            a_val is Some <==> r.2.known(),
            a_val is Some <==> r.3.known(),
            a_val is Some <==> r.4.known(),
            a_val is Some <==> r.5.known(),
            a_val is Some ==> {
                &&& r.0.dense_val() < 4
                &&& r.1.dense_val() < 0x800
                &&& r.2.dense_val() < 8
                &&& r.3.dense_val() < 8
                &&& r.4.dense_val() < 8
                &&& r.5.dense_val() < 0x400
                &&& a_val->0 as nat == r.0.dense_val() + 4 * r.1.dense_val() + 0x2000
                    * r.2.dense_val() + 0x10000 * r.3.dense_val() + 0x80000 * r.4.dense_val()
                    + 0x400000 * r.5.dense_val()
            },
            r.0 == SpreadVar::plain_var(
                A_3,
                (row + 1) as usize,
                A_4,
                (row + 1) as usize,
                sw_of(abcd_pieces(a_val).0),
            ),
            r.1 == SpreadVar::lookup_var(row, sw_of(abcd_pieces(a_val).1)),
            r.2 == SpreadVar::plain_var(A_3, row, A_4, row, sw_of(abcd_pieces(a_val).2)),
            r.3 == SpreadVar::plain_var(A_5, row, A_6, row, sw_of(abcd_pieces(a_val).3)),
            r.4 == SpreadVar::plain_var(
                A_5,
                (row + 1) as usize,
                A_6,
                (row + 1) as usize,
                sw_of(abcd_pieces(a_val).4),
            ),
            r.5 == SpreadVar::lookup_var((row + 1) as usize, sw_of(abcd_pieces(a_val).5)),
            final(region)@ == old(region)@ + decompose_abcd_evs(row, a_val),
    {
        region.assign_fixed(S_DECOMPOSE_ABCD, row);

        let a_3 = self.extras[0];
        let a_4 = self.extras[1];
        let a_5 = self.message_schedule;
        let a_6 = self.extras[2];

        let (w0, w1, w2, w3, w4, w5): (
            Option<u16>,
            Option<u16>,
            Option<u16>,
            Option<u16>,
            Option<u16>,
            Option<u16>,
        ) = match a_val {
            Some(v) => {
                let p0: u32 = v % 4;
                let p1: u32 = (v / 4) % 0x800;
                let p2: u32 = (v / 0x2000) % 8;
                let p3: u32 = (v / 0x10000) % 8;
                let p4: u32 = (v / 0x80000) % 8;
                let p5: u32 = v / 0x400000;
                proof {
                    lemma_piece_chain_abcd(v as nat);
                }
                (
                    Some(p0 as u16),
                    Some(p1 as u16),
                    Some(p2 as u16),
                    Some(p3 as u16),
                    Some(p4 as u16),
                    Some(p5 as u16),
                )
            },
            None => (None, None, None, None, None, None),
        };

        proof {
            assert((w0, w1, w2, w3, w4, w5) == abcd_pieces(a_val));
        }
        let a = SpreadVar::without_lookup(region, a_3, row + 1, a_4, row + 1, SpreadWord::opt_new(w0));
        let b = SpreadVar::with_lookup(region, row, SpreadWord::opt_new(w1));
        let c_lo = SpreadVar::without_lookup(region, a_3, row, a_4, row, SpreadWord::opt_new(w2));
        let c_mid = SpreadVar::without_lookup(region, a_5, row, a_6, row, SpreadWord::opt_new(w3));
        let c_hi = SpreadVar::without_lookup(
            region,
            a_5,
            row + 1,
            a_6,
            row + 1,
            SpreadWord::opt_new(w4),
        );
        let d = SpreadVar::with_lookup(region, row + 1, SpreadWord::opt_new(w5));
        proof {
            reveal(decompose_abcd_evs);
            assert(region@ =~= old(region)@ + decompose_abcd_evs(row, a_val));
        }
        (a, b, c_lo, c_mid, c_hi, d)
    }

    /// Splits a word (or unknown) into the E-decomposition's fixed piece
    /// widths 3, 3, 2, 3, 14, 7 and assigns each piece.
    pub fn decompose_efgh(&self, region: &mut Region, row: usize, val: Option<u32>) -> (r: (
        SpreadVar,
        SpreadVar,
        SpreadVar,
        SpreadVar,
        SpreadVar,
        SpreadVar,
    ))
        requires
            self.wf(),
            row + 2 < 0x10000,
        ensures
            r.0.wf() && r.1.wf() && r.2.wf() && r.3.wf() && r.4.wf() && r.5.wf(),
            val is Some <==> r.0.known(),
            val is Some <==> r.1.known(),
            val is Some <==> r.2.known(),
            val is Some <==> r.3.known(),
            val is Some <==> r.4.known(),
            val is Some <==> r.5.known(),
            val is Some ==> {
                &&& r.0.dense_val() < 8
                &&& r.1.dense_val() < 8
                &&& r.2.dense_val() < 4
                &&& r.3.dense_val() < 8
                &&& r.4.dense_val() < 0x4000
                &&& r.5.dense_val() < 0x80
                &&& val->0 as nat == r.0.dense_val() + 8 * r.1.dense_val() + 0x40
                    * r.2.dense_val() + 0x100 * r.3.dense_val() + 0x800 * r.4.dense_val()
                    + 0x2000000 * r.5.dense_val()
            },
            r.0 == SpreadVar::plain_var(
                A_3,
                (row + 1) as usize,
                A_4,
                (row + 1) as usize,
                sw_of(efgh_pieces(val).0),
            ),
            r.1 == SpreadVar::plain_var(
                A_5,
                (row + 1) as usize,
                A_6,
                (row + 1) as usize,
                sw_of(efgh_pieces(val).1),
            ),
            r.2 == SpreadVar::plain_var(A_3, row, A_4, row, sw_of(efgh_pieces(val).2)),
            r.3 == SpreadVar::plain_var(A_5, row, A_6, row, sw_of(efgh_pieces(val).3)),
            r.4 == SpreadVar::lookup_var((row + 1) as usize, sw_of(efgh_pieces(val).4)),
            r.5 == SpreadVar::lookup_var(row, sw_of(efgh_pieces(val).5)),
            final(region)@ == old(region)@ + decompose_efgh_evs(row, val),
    {
        region.assign_fixed(S_DECOMPOSE_EFGH, row);

        let a_3 = self.extras[0];
        let a_4 = self.extras[1];
        let a_5 = self.message_schedule;
        let a_6 = self.extras[2];

        let (w0, w1, w2, w3, w4, w5): (
            Option<u16>,
            Option<u16>,
            Option<u16>,
            Option<u16>,
            Option<u16>,
            Option<u16>,
        ) = match val {
            Some(v) => {
                let p0: u32 = v % 8;
                let p1: u32 = (v / 8) % 8;
                let p2: u32 = (v / 0x40) % 4;
                let p3: u32 = (v / 0x100) % 8;
                let p4: u32 = (v / 0x800) % 0x4000;
                let p5: u32 = v / 0x2000000;
                proof {
                    lemma_piece_chain_efgh(v as nat);
                }
                (
                    Some(p0 as u16),
                    Some(p1 as u16),
                    Some(p2 as u16),
                    Some(p3 as u16),
                    Some(p4 as u16),
                    Some(p5 as u16),
                )
            },
            None => (None, None, None, None, None, None),
        };

        proof {
            assert((w0, w1, w2, w3, w4, w5) == efgh_pieces(val));
        }
        let a_lo = SpreadVar::without_lookup(region, a_3, row + 1, a_4, row + 1, SpreadWord::opt_new(w0));
        let a_hi = SpreadVar::without_lookup(region, a_5, row + 1, a_6, row + 1, SpreadWord::opt_new(w1));
        let b_lo = SpreadVar::without_lookup(region, a_3, row, a_4, row, SpreadWord::opt_new(w2));
        let b_hi = SpreadVar::without_lookup(region, a_5, row, a_6, row, SpreadWord::opt_new(w3));
        let c = SpreadVar::with_lookup(region, row + 1, SpreadWord::opt_new(w4));
        let d = SpreadVar::with_lookup(region, row, SpreadWord::opt_new(w5));
        proof {
            reveal(decompose_efgh_evs);
            assert(region@ =~= old(region)@ + decompose_efgh_evs(row, val));
        }
        (a_lo, a_hi, b_lo, b_hi, c, d)
    }

    /// Assigns dense (lo, hi) halves of a word at the given cells.
    pub fn assign_word_halves_dense(
        &self,
        region: &mut Region,
        lo_row: usize,
        lo_col: usize,
        hi_row: usize,
        hi_col: usize,
        word: Option<u32>,
    ) -> (r: (CellValue16, CellValue16))
        ensures
            r.0 == (CellValue16 { col: lo_col, row: lo_row, value: lo_half(word) }),
            r.1 == (CellValue16 { col: hi_col, row: hi_row, value: hi_half(word) }),
            r.0.col == lo_col && r.0.row == lo_row,
            r.1.col == hi_col && r.1.row == hi_row,
            word is Some <==> dense_pair_known(r),
            word is Some <==> r.0.value is Some,
            word is Some <==> r.1.value is Some,
            word is Some ==> dense_pair_val(r) == word->0 as nat,
            final(region)@ == old(region)@ + word_halves_dense_evs(
                lo_row,
                lo_col,
                hi_row,
                hi_col,
                word,
            ),
    {
        let (lo, hi): (Option<u16>, Option<u16>) = match word {
            Some(w) => {
                let h = u32_to_halves(w);
                (Some(h.0), Some(h.1))
            },
            None => (None, None),
        };
        region.assign_advice(lo_col, lo_row, match lo {
            Some(v) => Some(v as u64),
            None => None,
        });
        region.assign_advice(hi_col, hi_row, match hi {
            Some(v) => Some(v as u64),
            None => None,
        });
        proof {
            assert(lo == lo_half(word) && hi == hi_half(word));
            reveal(word_halves_dense_evs);
            assert(region@ =~= old(region)@ + word_halves_dense_evs(
                lo_row,
                lo_col,
                hi_row,
                hi_col,
                word,
            ));
        }
        (
            CellValue16 { col: lo_col, row: lo_row, value: lo },
            CellValue16 { col: hi_col, row: hi_row, value: hi },
        )
    }

    /// Assigns dense and spread cells for both halves of a word.
    pub fn assign_word_halves(&self, region: &mut Region, row: usize, word: Option<u32>) -> (r: (
        (CellValue16, CellValue16),
        (CellValue32, CellValue32),
    ))
        requires
            self.wf(),
            row + 1 < 0x10000,
        ensures
            crate::words::halves_wf(r.0, r.1),
            word is Some <==> dense_pair_known(r.0),
            word is Some ==> dense_pair_val(r.0) == word->0 as nat,
            r == word_halves_cells(row, word),
            r.0.0 == SpreadVar::plain_var(A_7, row, A_8, row, sw_of(lo_half(word))).dense,
            r.1.0 == SpreadVar::plain_var(A_7, row, A_8, row, sw_of(lo_half(word))).spread,
            r.0.1 == SpreadVar::plain_var(
                A_7,
                (row + 1) as usize,
                A_8,
                (row + 1) as usize,
                sw_of(hi_half(word)),
            ).dense,
            r.1.1 == SpreadVar::plain_var(
                A_7,
                (row + 1) as usize,
                A_8,
                (row + 1) as usize,
                sw_of(hi_half(word)),
            ).spread,
            final(region)@ == old(region)@ + word_halves_evs(row, word),
    {
        let a_7 = self.extras[3];
        let a_8 = self.extras[4];

        let (lo, hi): (Option<u16>, Option<u16>) = match word {
            Some(w) => {
                let h = u32_to_halves(w);
                (Some(h.0), Some(h.1))
            },
            None => (None, None),
        };
        proof {
            assert(lo == lo_half(word) && hi == hi_half(word));
        }
        let w_lo = SpreadVar::without_lookup(region, a_7, row, a_8, row, SpreadWord::opt_new(lo));
        let w_hi = SpreadVar::without_lookup(
            region,
            a_7,
            row + 1,
            a_8,
            row + 1,
            SpreadWord::opt_new(hi),
        );
        proof {
            reveal(word_halves_evs);
            assert(region@ =~= old(region)@ + word_halves_evs(row, word));
        }
        ((w_lo.dense, w_hi.dense), (w_lo.spread, w_hi.spread))
    }

    /// Decomposes the round's A word (or unknown) at its fixed rows.
    pub fn decompose_a(&self, region: &mut Region, idx: i32, a_val: Option<u32>) -> (r: RoundWordA)
        requires
            self.wf(),
            -1 <= idx < 64,
        ensures
            r.wf(),
            a_val is Some <==> r.known(),
            a_val is Some ==> r.val() == a_val->0 as nat,
            r.pieces.idx == idx,
            r == decompose_a_word(idx, a_val),
            final(region)@ == old(region)@ + decompose_a_evs(idx, a_val),
    {
        let row = get_decompose_a_row(idx);
        proof {
            assert(row == decompose_a_row(idx));
        }
        let (dense_halves, spread_halves) = self.assign_word_halves(region, row, a_val);
        let (a, b, c_lo, c_mid, c_hi, d) = self.decompose_abcd(region, row, a_val);
        let a_pieces = AbcdVar { idx, val: a_val, a, b, c_lo, c_mid, c_hi, d };
        let r = RoundWordA::new(a_pieces, dense_halves, spread_halves);
        proof {
            reveal(decompose_a_word);
            reveal(decompose_a_evs);
            assert(r == decompose_a_word(idx, a_val));
            assert(region@ =~= old(region)@ + decompose_a_evs(idx, a_val));
        }
        r
    }

    /// Decomposes the round's E word (or unknown) at its fixed rows.
    pub fn decompose_e(&self, region: &mut Region, idx: i32, e_val: Option<u32>) -> (r: RoundWordE)
        requires
            self.wf(),
            -1 <= idx < 64,
        ensures
            r.wf(),
            e_val is Some <==> r.known(),
            e_val is Some ==> r.val() == e_val->0 as nat,
            r.pieces.idx == idx,
            r == decompose_e_word(idx, e_val),
            final(region)@ == old(region)@ + decompose_e_evs(idx, e_val),
    {
        let row = get_decompose_e_row(idx);
        proof {
            assert(row == decompose_e_row(idx));
        }
        let (dense_halves, spread_halves) = self.assign_word_halves(region, row, e_val);
        let (a_lo, a_hi, b_lo, b_hi, c, d) = self.decompose_efgh(region, row, e_val);
        let e_pieces = EfghVar { idx, val: e_val, a_lo, a_hi, b_lo, b_hi, c, d };
        let r = RoundWordE::new(e_pieces, dense_halves, spread_halves);
        proof {
            reveal(decompose_e_word);
            reveal(decompose_e_evs);
            assert(r == decompose_e_word(idx, e_val));
            assert(region@ =~= old(region)@ + decompose_e_evs(idx, e_val));
        }
        r
    }

    /// The Σ0 gate: realigns the A pieces' spreads to the three rotation
    /// offsets, sums them, and splits each 32-bit half of the sum into its
    /// even bits (the XOR of the rotations) and its odd carry bits.
    #[verifier::rlimit(100)]
    #[verifier::spinoff_prover]
    pub fn assign_upper_sigma_0(&self, region: &mut Region, idx: i32, word: AbcdVar) -> (r: (
        CellValue16,
        CellValue16,
    ))
        requires
            self.wf(),
            0 <= idx < 64,
            word.wf(),
        ensures
            word.known() ==> dense_pair_known(r) && dense_pair_val(r) == sigma0_spec(
                word.val->0 as nat,
            ),
            !word.known() ==> r.0.value is None && r.1.value is None,
            r.0 == (CellValue16 {
                col: A_1,
                row: sigma0_row(idx),
                value: out_lo(word.val is Some, sigma0_spec(word.val->0 as nat)),
            }),
            r.1 == (CellValue16 {
                col: A_1,
                row: (sigma0_row(idx) + 1) as usize,
                value: out_hi(word.val is Some, sigma0_spec(word.val->0 as nat)),
            }),
            final(region)@ == old(region)@ + sigma0_evs(idx, word),
    {
        let a_3 = self.extras[0];
        let a_4 = self.extras[1];
        let a_5 = self.message_schedule;

        let row = get_upper_sigma_0_row(idx);

        region.assign_fixed(S_UPPER_SIGMA_0, row);

        assign_and_constrain32(region, a_3, row + 1, word.a.spread);
        assign_and_constrain32(region, a_5, row, word.b.spread);
        assign_and_constrain32(region, a_3, row - 1, word.c_lo.spread);
        assign_and_constrain32(region, a_4, row - 1, word.c_mid.spread);
        assign_and_constrain32(region, a_4, row + 1, word.c_hi.spread);
        assign_and_constrain32(region, a_4, row, word.d.spread);

        let (r_0_even, r_0_odd, r_1_even, r_1_odd): (
            Option<u16>,
            Option<u16>,
            Option<u16>,
            Option<u16>,
        ) = if word.a.spread.value.is_some() {
            let ghost w = word.val->0 as nat;
            proof {
                lemma2_to64();
                lemma2_to64_rest();
                lemma_spread_bound(2, word.a.dense_val());
                lemma_spread_bound(11, word.b.dense_val());
                lemma_spread_bound(3, word.c_lo.dense_val());
                lemma_spread_bound(3, word.c_mid.dense_val());
                lemma_spread_bound(3, word.c_hi.dense_val());
                lemma_spread_bound(10, word.d.dense_val());
                lemma_sigma0_forms(
                    word.a.dense_val(),
                    word.b.dense_val(),
                    word.c_lo.dense_val(),
                    word.c_mid.dense_val(),
                    word.c_hi.dense_val(),
                    word.d.dense_val(),
                );
            }
            let spread_a = word.a.spread.value.unwrap() as u64;
            let spread_b = word.b.spread.value.unwrap() as u64;
            let spread_c_lo = word.c_lo.spread.value.unwrap() as u64;
            let spread_c_mid = word.c_mid.spread.value.unwrap() as u64;
            let spread_c_hi = word.c_hi.spread.value.unwrap() as u64;
            let spread_d = word.d.spread.value.unwrap() as u64;

            let xor_0: u64 = spread_b + 0x400000 * spread_c_lo + 0x10000000 * spread_c_mid
                + 0x400000000 * spread_c_hi + 0x10000000000 * spread_d + 0x1000000000000000
                * spread_a;
            let xor_1: u64 = spread_c_lo + 0x40 * spread_c_mid + 0x1000 * spread_c_hi + 0x40000
                * spread_d + 0x4000000000 * spread_a + 0x40000000000 * spread_b;
            let xor_2: u64 = spread_d + 0x100000 * spread_a + 0x1000000 * spread_b
                + 0x400000000000 * spread_c_lo + 0x10000000000000 * spread_c_mid
                + 0x400000000000000 * spread_c_hi;
            proof {
                assert(xor_0 as nat == spread(rotr32(w, 2)));
                assert(xor_1 as nat == spread(rotr32(w, 13)));
                assert(xor_2 as nat == spread(rotr32(w, 22)));
                lemma_spread_bound(32, rotr32(w, 2));
                lemma_spread_bound(32, rotr32(w, 13));
                lemma_spread_bound(32, rotr32(w, 22));
                assert(pow4(32) == pow2(64));
                lemma_three_spread_sum(rotr32(w, 2), rotr32(w, 13), rotr32(w, 22));
            }
            let r_total: u64 = xor_0 + xor_1 + xor_2;
            let r_0: u32 = (r_total % 0x1_0000_0000) as u32;
            let r_1: u32 = (r_total / 0x1_0000_0000) as u32;
            let (r_0_even, r_0_odd) = get_even_and_odd_bits_u32(r_0);
            let (r_1_even, r_1_odd) = get_even_and_odd_bits_u32(r_1);
            proof {
                let s = spread(rotr32(w, 2)) + spread(rotr32(w, 13)) + spread(rotr32(w, 22));
                assert(r_0 as nat == s % pow2(32) && r_1 as nat == s / pow2(32));
                assert(r_0_even as nat == sigma0_spec(w) % pow2(16));
                assert(r_1_even as nat == sigma0_spec(w) / pow2(16));
                assert(r_0_odd as nat == sigma0_carries(w) % pow2(16));
                assert(r_1_odd as nat == sigma0_carries(w) / pow2(16));
                lemma_fundamental_div_mod(sigma0_spec(w) as int, pow2(16) as int);
                assert(r_0_even as nat + 0x10000 * (r_1_even as nat) == sigma0_spec(w));
            }
            (Some(r_0_even), Some(r_0_odd), Some(r_1_even), Some(r_1_odd))
        } else {
            (None, None, None, None)
        };

        proof {
            lemma2_to64();
            let k = word.val is Some;
            let v = word.val->0 as nat;
            assert(r_0_even == out_lo(k, sigma0_spec(v)));
            assert(r_0_odd == out_lo(k, sigma0_carries(v)));
            assert(r_1_even == out_hi(k, sigma0_spec(v)));
            assert(r_1_odd == out_hi(k, sigma0_carries(v)));
        }
        let outs = self.assign_sigma_outputs(region, row, r_0_even, r_0_odd, r_1_even, r_1_odd);
        proof {
            reveal(sigma0_evs);
            assert(region@ =~= old(region)@ + sigma0_evs(idx, word));
        }
        outs
    }

    /// The Σ1 gate, over the E pieces and rotation amounts 6, 11, 25.
    #[verifier::rlimit(100)]
    #[verifier::spinoff_prover]
    pub fn assign_upper_sigma_1(&self, region: &mut Region, idx: i32, word: EfghVar) -> (r: (
        CellValue16,
        CellValue16,
    ))
        requires
            self.wf(),
            0 <= idx < 64,
            word.wf(),
        ensures
            word.known() ==> dense_pair_known(r) && dense_pair_val(r) == sigma1_spec(
                word.val->0 as nat,
            ),
            !word.known() ==> r.0.value is None && r.1.value is None,
            r.0 == (CellValue16 {
                col: A_1,
                row: sigma1_row(idx),
                value: out_lo(word.val is Some, sigma1_spec(word.val->0 as nat)),
            }),
            r.1 == (CellValue16 {
                col: A_1,
                row: (sigma1_row(idx) + 1) as usize,
                value: out_hi(word.val is Some, sigma1_spec(word.val->0 as nat)),
            }),
            final(region)@ == old(region)@ + sigma1_evs(idx, word),
    {
        let a_3 = self.extras[0];
        let a_4 = self.extras[1];
        let a_5 = self.message_schedule;

        let row = get_upper_sigma_1_row(idx);

        region.assign_fixed(S_UPPER_SIGMA_1, row);

        assign_and_constrain32(region, a_3, row + 1, word.a_lo.spread);
        assign_and_constrain32(region, a_4, row + 1, word.a_hi.spread);
        assign_and_constrain32(region, a_3, row - 1, word.b_lo.spread);
        assign_and_constrain32(region, a_4, row - 1, word.b_hi.spread);
        assign_and_constrain32(region, a_5, row, word.c.spread);
        assign_and_constrain32(region, a_4, row, word.d.spread);

        let (r_0_even, r_0_odd, r_1_even, r_1_odd): (
            Option<u16>,
            Option<u16>,
            Option<u16>,
            Option<u16>,
        ) = if word.a_lo.spread.value.is_some() {
            let ghost w = word.val->0 as nat;
            proof {
                lemma2_to64();
                lemma2_to64_rest();
                lemma_spread_bound(3, word.a_lo.dense_val());
                lemma_spread_bound(3, word.a_hi.dense_val());
                lemma_spread_bound(2, word.b_lo.dense_val());
                lemma_spread_bound(3, word.b_hi.dense_val());
                lemma_spread_bound(14, word.c.dense_val());
                lemma_spread_bound(7, word.d.dense_val());
                lemma_sigma1_forms(
                    word.a_lo.dense_val(),
                    word.a_hi.dense_val(),
                    word.b_lo.dense_val(),
                    word.b_hi.dense_val(),
                    word.c.dense_val(),
                    word.d.dense_val(),
                );
            }
            let spread_a_lo = word.a_lo.spread.value.unwrap() as u64;
            let spread_a_hi = word.a_hi.spread.value.unwrap() as u64;
            let spread_b_lo = word.b_lo.spread.value.unwrap() as u64;
            let spread_b_hi = word.b_hi.spread.value.unwrap() as u64;
            let spread_c = word.c.spread.value.unwrap() as u64;
            let spread_d = word.d.spread.value.unwrap() as u64;

            let xor_0: u64 = spread_b_lo + 0x10 * spread_b_hi + 0x400 * spread_c + 0x4000000000
                * spread_d + 0x10000000000000 * spread_a_lo + 0x400000000000000 * spread_a_hi;
            let xor_1: u64 = spread_c + 0x10000000 * spread_d + 0x40000000000 * spread_a_lo
                + 0x1000000000000 * spread_a_hi + 0x40000000000000 * spread_b_lo
                + 0x400000000000000 * spread_b_hi;
            let xor_2: u64 = spread_d + 0x4000 * spread_a_lo + 0x100000 * spread_a_hi + 0x4000000
                * spread_b_lo + 0x40000000 * spread_b_hi + 0x1000000000 * spread_c;
            proof {
                assert(xor_0 as nat == spread(rotr32(w, 6)));
                assert(xor_1 as nat == spread(rotr32(w, 11)));
                assert(xor_2 as nat == spread(rotr32(w, 25)));
                lemma_spread_bound(32, rotr32(w, 6));
                lemma_spread_bound(32, rotr32(w, 11));
                lemma_spread_bound(32, rotr32(w, 25));
                assert(pow4(32) == pow2(64));
                lemma_three_spread_sum(rotr32(w, 6), rotr32(w, 11), rotr32(w, 25));
            }
            let r_total: u64 = xor_0 + xor_1 + xor_2;
            let r_0: u32 = (r_total % 0x1_0000_0000) as u32;
            let r_1: u32 = (r_total / 0x1_0000_0000) as u32;
            let (r_0_even, r_0_odd) = get_even_and_odd_bits_u32(r_0);
            let (r_1_even, r_1_odd) = get_even_and_odd_bits_u32(r_1);
            proof {
                let s = spread(rotr32(w, 6)) + spread(rotr32(w, 11)) + spread(rotr32(w, 25));
                assert(r_0 as nat == s % pow2(32) && r_1 as nat == s / pow2(32));
                assert(r_0_even as nat == sigma1_spec(w) % pow2(16));
                assert(r_1_even as nat == sigma1_spec(w) / pow2(16));
                assert(r_0_odd as nat == sigma1_carries(w) % pow2(16));
                assert(r_1_odd as nat == sigma1_carries(w) / pow2(16));
                lemma_fundamental_div_mod(sigma1_spec(w) as int, pow2(16) as int);
                assert(r_0_even as nat + 0x10000 * (r_1_even as nat) == sigma1_spec(w));
            }
            (Some(r_0_even), Some(r_0_odd), Some(r_1_even), Some(r_1_odd))
        } else {
            (None, None, None, None)
        };

        proof {
            lemma2_to64();
            let k = word.val is Some;
            let v = word.val->0 as nat;
            assert(r_0_even == out_lo(k, sigma1_spec(v)));
            assert(r_0_odd == out_lo(k, sigma1_carries(v)));
            assert(r_1_even == out_hi(k, sigma1_spec(v)));
            assert(r_1_odd == out_hi(k, sigma1_carries(v)));
        }
        let outs = self.assign_sigma_outputs(region, row, r_0_even, r_0_odd, r_1_even, r_1_odd);
        proof {
            reveal(sigma1_evs);
            assert(region@ =~= old(region)@ + sigma1_evs(idx, word));
        }
        outs
    }

    /// The first Ch half-gate: the odd bits of `spread(E) + spread(F)` are
    /// the bitwise AND of E and F.
    pub fn assign_ch(
        &self,
        region: &mut Region,
        idx: i32,
        spread_halves_e: (CellValue32, CellValue32),
        spread_halves_f: (CellValue32, CellValue32),
    ) -> (r: (CellValue16, CellValue16))
        requires
            self.wf(),
            0 <= idx < 64,
            spread_pair_wf(spread_halves_e),
            spread_pair_wf(spread_halves_f),
            spread_pair_known(spread_halves_e) <==> spread_pair_known(spread_halves_f),
        ensures
            spread_pair_known(spread_halves_e) ==> dense_pair_known(r) && dense_pair_val(r)
                == band(spread_pair_word(spread_halves_e), spread_pair_word(spread_halves_f)),
            !spread_pair_known(spread_halves_e) ==> r.0.value is None && r.1.value is None,
            r.0 == (CellValue16 {
                col: A_3,
                row: ch_row_of(idx),
                value: out_lo(
                    spread_pair_known(spread_halves_e),
                    band(spread_pair_word(spread_halves_e), spread_pair_word(spread_halves_f)),
                ),
            }),
            r.1 == (CellValue16 {
                col: A_3,
                row: (ch_row_of(idx) + 1) as usize,
                value: out_hi(
                    spread_pair_known(spread_halves_e),
                    band(spread_pair_word(spread_halves_e), spread_pair_word(spread_halves_f)),
                ),
            }),
            final(region)@ == old(region)@ + ch_evs(idx, spread_halves_e, spread_halves_f),
    {
        let a_3 = self.extras[0];
        let a_4 = self.extras[1];

        let row = get_ch_row(idx);

        region.assign_fixed(S_CH, row);

        assign_and_constrain32(region, a_3, row - 1, spread_halves_e.0);
        assign_and_constrain32(region, a_4, row - 1, spread_halves_e.1);
        assign_and_constrain32(region, a_3, row + 1, spread_halves_f.0);
        assign_and_constrain32(region, a_4, row + 1, spread_halves_f.1);

        let (p0_even, p0_odd, p1_even, p1_odd): (
            Option<u16>,
            Option<u16>,
            Option<u16>,
            Option<u16>,
        ) = if spread_halves_e.0.value.is_some() {
            let ghost ew = spread_pair_word(spread_halves_e);
            let ghost fw = spread_pair_word(spread_halves_f);
            proof {
                lemma2_to64();
                lemma_spread_pair_word_facts(spread_halves_e);
                lemma_spread_pair_word_facts(spread_halves_f);
                lemma_two_spread_sum(ew, fw);
            }
            let se0 = spread_halves_e.0.value.unwrap() as u64;
            let se1 = spread_halves_e.1.value.unwrap() as u64;
            let sf0 = spread_halves_f.0.value.unwrap() as u64;
            let sf1 = spread_halves_f.1.value.unwrap() as u64;
            let p: u64 = se0 + sf0 + 0x1_0000_0000 * (se1 + sf1);
            proof {
                assert(p as nat == spread(ew) + spread(fw));
            }
            let p_0: u32 = (p % 0x1_0000_0000) as u32;
            let p_1: u32 = (p / 0x1_0000_0000) as u32;
            let (p0_even, p0_odd) = get_even_and_odd_bits_u32(p_0);
            let (p1_even, p1_odd) = get_even_and_odd_bits_u32(p_1);
            proof {
                assert(p_0 as nat == (spread(ew) + spread(fw)) % pow2(32));
                assert(p_1 as nat == (spread(ew) + spread(fw)) / pow2(32));
                assert(p0_odd as nat == band(ew, fw) % pow2(16));
                assert(p1_odd as nat == band(ew, fw) / pow2(16));
                assert(p0_even as nat == bxor(ew, fw) % pow2(16));
                assert(p1_even as nat == bxor(ew, fw) / pow2(16));
                lemma_fundamental_div_mod(band(ew, fw) as int, pow2(16) as int);
                assert(p0_odd as nat + 0x10000 * (p1_odd as nat) == band(ew, fw));
            }
            (Some(p0_even), Some(p0_odd), Some(p1_even), Some(p1_odd))
        } else {
            (None, None, None, None)
        };
        proof {
            lemma2_to64();
            let k = spread_pair_known(spread_halves_e);
            let ew = spread_pair_word(spread_halves_e);
            let fw = spread_pair_word(spread_halves_f);
            assert(p0_even == out_lo(k, bxor(ew, fw)));
            assert(p0_odd == out_lo(k, band(ew, fw)));
            assert(p1_even == out_hi(k, bxor(ew, fw)));
            assert(p1_odd == out_hi(k, band(ew, fw)));
        }
        let outs = self.assign_ch_outputs(region, row, p0_even, p0_odd, p1_even, p1_odd);
        proof {
            reveal(ch_evs);
            assert(region@ =~= old(region)@ + ch_evs(idx, spread_halves_e, spread_halves_f));
        }
        outs
    }

    /// The second Ch half-gate: E's spread halves are subtracted from the
    /// all-even mask, realizing NOT E without a separate gate, and the odd
    /// bits of `spread(NOT E) + spread(G)` are the AND of NOT E and G.
    pub fn assign_ch_neg(
        &self,
        region: &mut Region,
        idx: i32,
        spread_halves_e: (CellValue32, CellValue32),
        spread_halves_g: (CellValue32, CellValue32),
    ) -> (r: (CellValue16, CellValue16))
        requires
            self.wf(),
            0 <= idx < 64,
            spread_pair_wf(spread_halves_e),
            spread_pair_wf(spread_halves_g),
            spread_pair_known(spread_halves_e) <==> spread_pair_known(spread_halves_g),
        ensures
            spread_pair_known(spread_halves_e) ==> dense_pair_known(r) && dense_pair_val(r)
                == band(
                bnot32(spread_pair_word(spread_halves_e)),
                spread_pair_word(spread_halves_g),
            ),
            !spread_pair_known(spread_halves_e) ==> r.0.value is None && r.1.value is None,
            r.0 == (CellValue16 {
                col: A_3,
                row: ch_neg_row_of(idx),
                value: out_lo(
                    spread_pair_known(spread_halves_e),
                    band(
                        bnot32(spread_pair_word(spread_halves_e)),
                        spread_pair_word(spread_halves_g),
                    ),
                ),
            }),
            r.1 == (CellValue16 {
                col: A_3,
                row: (ch_neg_row_of(idx) + 1) as usize,
                value: out_hi(
                    spread_pair_known(spread_halves_e),
                    band(
                        bnot32(spread_pair_word(spread_halves_e)),
                        spread_pair_word(spread_halves_g),
                    ),
                ),
            }),
            final(region)@ == old(region)@ + ch_neg_evs(idx, spread_halves_e, spread_halves_g),
    {
        let row = get_ch_neg_row(idx);

        region.assign_fixed(S_CH_NEG, row);

        let a_3 = self.extras[0];
        let a_4 = self.extras[1];
        let a_5 = self.message_schedule;

        assign_and_constrain32(region, a_5, row - 1, spread_halves_e.0);
        assign_and_constrain32(region, a_5, row, spread_halves_e.1);
        assign_and_constrain32(region, a_3, row + 1, spread_halves_g.0);
        assign_and_constrain32(region, a_4, row + 1, spread_halves_g.1);

        let (p0_even, p0_odd, p1_even, p1_odd): (
            Option<u16>,
            Option<u16>,
            Option<u16>,
            Option<u16>,
        ) = if spread_halves_e.0.value.is_some() {
            let ghost ew = spread_pair_word(spread_halves_e);
            let ghost gw = spread_pair_word(spread_halves_g);
            let ghost elo = even_bits(spread_halves_e.0.value->0 as nat);
            let ghost ehi = even_bits(spread_halves_e.1.value->0 as nat);
            proof {
                lemma2_to64();
                lemma_spread_pair_word_facts(spread_halves_e);
                lemma_spread_pair_word_facts(spread_halves_g);
                lemma_neg_half(elo);
                lemma_neg_half(ehi);
                lemma_not_word(elo, ehi);
                lemma_two_spread_sum(bnot32(ew), gw);
            }
            let se0 = spread_halves_e.0.value.unwrap();
            let se1 = spread_halves_e.1.value.unwrap();
            let sg0 = spread_halves_g.0.value.unwrap() as u64;
            let sg1 = spread_halves_g.1.value.unwrap() as u64;
            let spread_neg_e_lo: u64 = (MASK_EVEN_32 - se0) as u64;
            let spread_neg_e_hi: u64 = (MASK_EVEN_32 - se1) as u64;
            proof {
                assert(Some(spread_neg_e_lo) == neg_cell(spread_halves_e.0));
                assert(Some(spread_neg_e_hi) == neg_cell(spread_halves_e.1));
            }
            region.assign_advice(a_3, row - 1, Some(spread_neg_e_lo));
            region.assign_advice(a_4, row - 1, Some(spread_neg_e_hi));

            let p: u64 = spread_neg_e_lo + sg0 + 0x1_0000_0000 * (spread_neg_e_hi + sg1);
            proof {
                assert(p as nat == spread(bnot32(ew)) + spread(gw));
            }
            let p_0: u32 = (p % 0x1_0000_0000) as u32;
            let p_1: u32 = (p / 0x1_0000_0000) as u32;
            let (p0_even, p0_odd) = get_even_and_odd_bits_u32(p_0);
            let (p1_even, p1_odd) = get_even_and_odd_bits_u32(p_1);
            proof {
                assert(p_0 as nat == (spread(bnot32(ew)) + spread(gw)) % pow2(32));
                assert(p_1 as nat == (spread(bnot32(ew)) + spread(gw)) / pow2(32));
                assert(p0_odd as nat == band(bnot32(ew), gw) % pow2(16));
                assert(p1_odd as nat == band(bnot32(ew), gw) / pow2(16));
                assert(p0_even as nat == bxor(bnot32(ew), gw) % pow2(16));
                assert(p1_even as nat == bxor(bnot32(ew), gw) / pow2(16));
                lemma_fundamental_div_mod(band(bnot32(ew), gw) as int, pow2(16) as int);
                assert(p0_odd as nat + 0x10000 * (p1_odd as nat) == band(bnot32(ew), gw));
            }
            (Some(p0_even), Some(p0_odd), Some(p1_even), Some(p1_odd))
        } else {
            region.assign_advice(a_3, row - 1, None);
            region.assign_advice(a_4, row - 1, None);
            (None, None, None, None)
        };
        proof {
            lemma2_to64();
            let k = spread_pair_known(spread_halves_e);
            let new = bnot32(spread_pair_word(spread_halves_e));
            let gw = spread_pair_word(spread_halves_g);
            assert(p0_even == out_lo(k, bxor(new, gw)));
            assert(p0_odd == out_lo(k, band(new, gw)));
            assert(p1_even == out_hi(k, bxor(new, gw)));
            assert(p1_odd == out_hi(k, band(new, gw)));
        }
        let outs = self.assign_ch_outputs(region, row, p0_even, p0_odd, p1_even, p1_odd);
        proof {
            reveal(ch_neg_evs);
            assert(region@ =~= old(region)@ + ch_neg_evs(idx, spread_halves_e, spread_halves_g));
        }
        outs
    }

    /// The Maj gate: the odd bits of `spread(A) + spread(B) + spread(C)`
    /// are the per-bit majority.
    pub fn assign_maj(
        &self,
        region: &mut Region,
        idx: i32,
        spread_halves_a: (CellValue32, CellValue32),
        spread_halves_b: (CellValue32, CellValue32),
        spread_halves_c: (CellValue32, CellValue32),
    ) -> (r: (CellValue16, CellValue16))
        requires
            self.wf(),
            0 <= idx < 64,
            spread_pair_wf(spread_halves_a),
            spread_pair_wf(spread_halves_b),
            spread_pair_wf(spread_halves_c),
            spread_pair_known(spread_halves_a) <==> spread_pair_known(spread_halves_b),
            spread_pair_known(spread_halves_a) <==> spread_pair_known(spread_halves_c),
        ensures
            spread_pair_known(spread_halves_a) ==> dense_pair_known(r) && dense_pair_val(r)
                == maj_spec(
                spread_pair_word(spread_halves_a),
                spread_pair_word(spread_halves_b),
                spread_pair_word(spread_halves_c),
            ),
            !spread_pair_known(spread_halves_a) ==> r.0.value is None && r.1.value is None,
            r.0 == (CellValue16 {
                col: A_3,
                row: maj_row_of(idx),
                value: out_lo(
                    spread_pair_known(spread_halves_a),
                    bmaj(
                        spread_pair_word(spread_halves_a),
                        spread_pair_word(spread_halves_b),
                        spread_pair_word(spread_halves_c),
                    ),
                ),
            }),
            r.1 == (CellValue16 {
                col: A_3,
                row: (maj_row_of(idx) + 1) as usize,
                value: out_hi(
                    spread_pair_known(spread_halves_a),
                    bmaj(
                        spread_pair_word(spread_halves_a),
                        spread_pair_word(spread_halves_b),
                        spread_pair_word(spread_halves_c),
                    ),
                ),
            }),
            final(region)@ == old(region)@ + maj_evs(
                idx,
                spread_halves_a,
                spread_halves_b,
                spread_halves_c,
            ),
    {
        let a_4 = self.extras[1];
        let a_5 = self.message_schedule;

        let row = get_maj_row(idx);

        region.assign_fixed(S_MAJ, row);

        assign_and_constrain32(region, a_4, row - 1, spread_halves_a.0);
        assign_and_constrain32(region, a_5, row - 1, spread_halves_a.1);
        assign_and_constrain32(region, a_4, row, spread_halves_b.0);
        assign_and_constrain32(region, a_5, row, spread_halves_b.1);
        assign_and_constrain32(region, a_4, row + 1, spread_halves_c.0);
        assign_and_constrain32(region, a_5, row + 1, spread_halves_c.1);

        let (m0_even, m0_odd, m1_even, m1_odd): (
            Option<u16>,
            Option<u16>,
            Option<u16>,
            Option<u16>,
        ) = if spread_halves_a.0.value.is_some() {
            let ghost aw = spread_pair_word(spread_halves_a);
            let ghost bw = spread_pair_word(spread_halves_b);
            let ghost cw = spread_pair_word(spread_halves_c);
            proof {
                lemma2_to64();
                lemma_spread_pair_word_facts(spread_halves_a);
                lemma_spread_pair_word_facts(spread_halves_b);
                lemma_spread_pair_word_facts(spread_halves_c);
                lemma_three_spread_sum(aw, bw, cw);
            }
            let sa0 = spread_halves_a.0.value.unwrap() as u64;
            let sa1 = spread_halves_a.1.value.unwrap() as u64;
            let sb0 = spread_halves_b.0.value.unwrap() as u64;
            let sb1 = spread_halves_b.1.value.unwrap() as u64;
            let sc0 = spread_halves_c.0.value.unwrap() as u64;
            let sc1 = spread_halves_c.1.value.unwrap() as u64;
            let m: u64 = sa0 + sb0 + sc0 + 0x1_0000_0000 * (sa1 + sb1 + sc1);
            proof {
                assert(m as nat == spread(aw) + spread(bw) + spread(cw));
            }
            let m_0: u32 = (m % 0x1_0000_0000) as u32;
            let m_1: u32 = (m / 0x1_0000_0000) as u32;
            let (m0_even, m0_odd) = get_even_and_odd_bits_u32(m_0);
            let (m1_even, m1_odd) = get_even_and_odd_bits_u32(m_1);
            proof {
                assert(m_0 as nat == (spread(aw) + spread(bw) + spread(cw)) % pow2(32));
                assert(m_1 as nat == (spread(aw) + spread(bw) + spread(cw)) / pow2(32));
                assert(m0_odd as nat == bmaj(aw, bw, cw) % pow2(16));
                assert(m1_odd as nat == bmaj(aw, bw, cw) / pow2(16));
                assert(m0_even as nat == bxor3(aw, bw, cw) % pow2(16));
                assert(m1_even as nat == bxor3(aw, bw, cw) / pow2(16));
                lemma_fundamental_div_mod(bmaj(aw, bw, cw) as int, pow2(16) as int);
                assert(m0_odd as nat + 0x10000 * (m1_odd as nat) == bmaj(aw, bw, cw));
            }
            (Some(m0_even), Some(m0_odd), Some(m1_even), Some(m1_odd))
        } else {
            (None, None, None, None)
        };
        proof {
            lemma2_to64();
            let k = spread_pair_known(spread_halves_a);
            let aw = spread_pair_word(spread_halves_a);
            let bw = spread_pair_word(spread_halves_b);
            let cw = spread_pair_word(spread_halves_c);
            assert(m0_even == out_lo(k, bxor3(aw, bw, cw)));
            assert(m0_odd == out_lo(k, bmaj(aw, bw, cw)));
            assert(m1_even == out_hi(k, bxor3(aw, bw, cw)));
            assert(m1_odd == out_hi(k, bmaj(aw, bw, cw)));
        }
        let outs = self.assign_maj_outputs(region, row, m0_even, m0_odd, m1_even, m1_odd);
        proof {
            reveal(maj_evs);
            assert(region@ =~= old(region)@ + maj_evs(
                idx,
                spread_halves_a,
                spread_halves_b,
                spread_halves_c,
            ));
        }
        outs
    }

    /// H' = H + Ch + Ch-complement + Σ1 + K + W, reduced modulo `2^32`
    /// with the quotient stored in an explicit carry cell.
    #[verifier::rlimit(100)]
    #[verifier::spinoff_prover]
    pub fn assign_h_prime(
        &self,
        region: &mut Region,
        idx: i32,
        h: (CellValue16, CellValue16),
        ch: (CellValue16, CellValue16),
        ch_neg: (CellValue16, CellValue16),
        sigma_1: (CellValue16, CellValue16),
        k: u32,
        w: (CellValue16, CellValue16),
    ) -> (r: (CellValue16, CellValue16))
        requires
            self.wf(),
            0 <= idx < 64,
            pair_consistent(h),
            pair_consistent(ch),
            pair_consistent(ch_neg),
            pair_consistent(sigma_1),
            pair_consistent(w),
            dense_pair_known(h) <==> dense_pair_known(ch),
            dense_pair_known(h) <==> dense_pair_known(ch_neg),
            dense_pair_known(h) <==> dense_pair_known(sigma_1),
            dense_pair_known(h) <==> dense_pair_known(w),
        ensures
            dense_pair_known(h) ==> dense_pair_known(r) && dense_pair_val(r) == (dense_pair_val(h)
                + dense_pair_val(ch) + dense_pair_val(ch_neg) + dense_pair_val(sigma_1)
                + k as nat + dense_pair_val(w)) % pow2(32),
            !dense_pair_known(h) ==> r.0.value is None && r.1.value is None,
            pair_consistent(r),
            r.0 == (CellValue16 {
                col: A_7,
                row: (h_prime_row_of(idx) + 1) as usize,
                value: lo_half(sum_result(dense_pair_known(h), h_prime_total(h, ch, ch_neg, sigma_1, k, w))),
            }),
            r.1 == (CellValue16 {
                col: A_8,
                row: (h_prime_row_of(idx) + 1) as usize,
                value: hi_half(sum_result(dense_pair_known(h), h_prime_total(h, ch, ch_neg, sigma_1, k, w))),
            }),
            dense_pair_known(h) ==> h_prime_total(h, ch, ch_neg, sigma_1, k, w) / pow2(32) < 6,
            final(region)@ == old(region)@ + h_prime_evs(idx, h, ch, ch_neg, sigma_1, k, w),
    {
        let row = get_h_prime_row(idx);
        region.assign_fixed(S_H_PRIME, row);

        let a_4 = self.extras[1];
        let a_5 = self.message_schedule;
        let a_6 = self.extras[2];
        let a_7 = self.extras[3];
        let a_8 = self.extras[4];
        let a_9 = self.extras[5];

        assign_and_constrain16(region, a_7, row - 1, h.0);
        assign_and_constrain16(region, a_7, row, h.1);
        assign_and_constrain16(region, a_4, row, sigma_1.0);
        assign_and_constrain16(region, a_5, row, sigma_1.1);

        let kh = u32_to_halves(k);
        region.assign_advice(a_6, row - 1, Some(kh.0 as u64));
        region.assign_advice(a_6, row, Some(kh.1 as u64));

        assign_and_constrain16(region, a_8, row - 1, w.0);
        assign_and_constrain16(region, a_8, row, w.1);
        assign_and_constrain16(region, a_6, row + 1, ch.1);
        assign_and_constrain16(region, a_5, row - 1, ch_neg.0);
        assign_and_constrain16(region, a_5, row + 1, ch_neg.1);

        let mut operands: Vec<(Option<u16>, Option<u16>)> = Vec::new();
        operands.push((h.0.value, h.1.value));
        operands.push((ch.0.value, ch.1.value));
        operands.push((ch_neg.0.value, ch_neg.1.value));
        operands.push((sigma_1.0.value, sigma_1.1.value));
        operands.push((Some(kh.0), Some(kh.1)));
        operands.push((w.0.value, w.1.value));
        proof {
            lemma2_to64();
            lemma_operands_total6(operands@);
            if dense_pair_known(h) {
                assert(known_operands(operands@)) by {
                    assert(forall|i: int|
                        0 <= i < operands@.len() ==> (#[trigger] operands@[i]).0 is Some
                            && operands@[i].1 is Some) by {
                        assert(operands@[0].0 is Some && operands@[0].1 is Some);
                        assert(operands@[1].0 is Some && operands@[1].1 is Some);
                        assert(operands@[2].0 is Some && operands@[2].1 is Some);
                        assert(operands@[3].0 is Some && operands@[3].1 is Some);
                        assert(operands@[4].0 is Some && operands@[4].1 is Some);
                        assert(operands@[5].0 is Some && operands@[5].1 is Some);
                    }
                }
            } else {
                assert(!(operands@[0].0 is Some && operands@[0].1 is Some));
                assert(!known_operands(operands@));
            }
        }
        let (h_prime, h_prime_carry) = sum_with_carry(operands);
        proof {
            let known = dense_pair_known(h);
            let total = h_prime_total(h, ch, ch_neg, sigma_1, k, w);
            if known {
                assert(operands_total(operands@) == total);
            }
            assert(h_prime == sum_result(known, total));
            assert(h_prime_carry == sum_carry(known, total));
            assert(Some(kh.0 as u64) == Some((k % 0x10000) as u64));
            assert(Some(kh.1 as u64) == Some((k / 0x10000) as u64));
        }
        let r = self.assign_word_halves_dense(region, row + 1, a_7, row + 1, a_8, h_prime);
        region.assign_advice(a_9, row + 1, h_prime_carry);
        proof {
            reveal(h_prime_evs);
            assert(region@ =~= old(region)@ + h_prime_evs(idx, h, ch, ch_neg, sigma_1, k, w));
        }
        r
    }

    /// E_new = H' + D, reduced modulo `2^32` with an explicit carry.
    pub fn assign_e_new(
        &self,
        region: &mut Region,
        idx: i32,
        d: (CellValue16, CellValue16),
        h_prime: (CellValue16, CellValue16),
    ) -> (r: (CellValue16, CellValue16))
        requires
            self.wf(),
            0 <= idx < 64,
            pair_consistent(d),
            pair_consistent(h_prime),
            dense_pair_known(d) <==> dense_pair_known(h_prime),
        ensures
            dense_pair_known(d) ==> dense_pair_known(r) && dense_pair_val(r) == (dense_pair_val(
                h_prime,
            ) + dense_pair_val(d)) % pow2(32),
            !dense_pair_known(d) ==> r.0.value is None && r.1.value is None,
            pair_consistent(r),
            r.0 == (CellValue16 {
                col: A_8,
                row: e_new_row_of(idx),
                value: lo_half(
                    sum_result(dense_pair_known(d), dense_pair_val(h_prime) + dense_pair_val(d)),
                ),
            }),
            r.1 == (CellValue16 {
                col: A_8,
                row: (e_new_row_of(idx) + 1) as usize,
                value: hi_half(
                    sum_result(dense_pair_known(d), dense_pair_val(h_prime) + dense_pair_val(d)),
                ),
            }),
            dense_pair_known(d) ==> (dense_pair_val(h_prime) + dense_pair_val(d)) / pow2(32) < 2,
            final(region)@ == old(region)@ + e_new_evs(idx, d, h_prime),
    {
        let row = get_e_new_row(idx);

        region.assign_fixed(S_E_NEW, row);

        let a_7 = self.extras[3];
        let a_8 = self.extras[4];
        let a_9 = self.extras[5];

        assign_and_constrain16(region, a_7, row, d.0);
        assign_and_constrain16(region, a_7, row + 1, d.1);

        let mut operands: Vec<(Option<u16>, Option<u16>)> = Vec::new();
        operands.push((h_prime.0.value, h_prime.1.value));
        operands.push((d.0.value, d.1.value));
        proof {
            lemma2_to64();
            lemma_operands_total2(operands@);
            if dense_pair_known(d) {
                assert(known_operands(operands@)) by {
                    assert(forall|i: int|
                        0 <= i < operands@.len() ==> (#[trigger] operands@[i]).0 is Some
                            && operands@[i].1 is Some) by {
                        assert(operands@[0].0 is Some && operands@[0].1 is Some);
                        assert(operands@[1].0 is Some && operands@[1].1 is Some);
                    }
                }
            } else {
                assert(!(operands@[1].0 is Some && operands@[1].1 is Some));
                assert(!known_operands(operands@));
            }
        }
        let (e_new, e_new_carry) = sum_with_carry(operands);
        proof {
            let known = dense_pair_known(d);
            let total = dense_pair_val(h_prime) + dense_pair_val(d);
            if known {
                assert(operands_total(operands@) == total);
            }
            assert(e_new == sum_result(known, total));
            assert(e_new_carry == sum_carry(known, total));
        }
        let e_new_dense = self.assign_word_halves_dense(region, row, a_8, row + 1, a_8, e_new);
        region.assign_advice(a_9, row + 1, e_new_carry);
        proof {
            reveal(e_new_evs);
            assert(region@ =~= old(region)@ + e_new_evs(idx, d, h_prime));
        }
        e_new_dense
    }

    /// A_new = H' + Maj + Σ0, reduced modulo `2^32` with an explicit carry.
    pub fn assign_a_new(
        &self,
        region: &mut Region,
        idx: i32,
        maj: (CellValue16, CellValue16),
        sigma_0: (CellValue16, CellValue16),
        h_prime: (CellValue16, CellValue16),
    ) -> (r: (CellValue16, CellValue16))
        requires
            self.wf(),
            0 <= idx < 64,
            pair_consistent(maj),
            pair_consistent(sigma_0),
            pair_consistent(h_prime),
            dense_pair_known(h_prime) <==> dense_pair_known(maj),
            dense_pair_known(h_prime) <==> dense_pair_known(sigma_0),
        ensures
            dense_pair_known(h_prime) ==> dense_pair_known(r) && dense_pair_val(r) == (
            dense_pair_val(h_prime) + dense_pair_val(sigma_0) + dense_pair_val(maj)) % pow2(32),
            !dense_pair_known(h_prime) ==> r.0.value is None && r.1.value is None,
            pair_consistent(r),
            r.0 == (CellValue16 {
                col: A_8,
                row: a_new_row_of(idx),
                value: lo_half(
                    sum_result(
                        dense_pair_known(h_prime),
                        dense_pair_val(h_prime) + dense_pair_val(sigma_0) + dense_pair_val(maj),
                    ),
                ),
            }),
            r.1 == (CellValue16 {
                col: A_8,
                row: (a_new_row_of(idx) + 1) as usize,
                value: hi_half(
                    sum_result(
                        dense_pair_known(h_prime),
                        dense_pair_val(h_prime) + dense_pair_val(sigma_0) + dense_pair_val(maj),
                    ),
                ),
            }),
            dense_pair_known(h_prime) ==> (dense_pair_val(h_prime) + dense_pair_val(sigma_0)
                + dense_pair_val(maj)) / pow2(32) < 3,
            final(region)@ == old(region)@ + a_new_evs(idx, maj, sigma_0, h_prime),
    {
        let row = get_a_new_row(idx);

        region.assign_fixed(S_A_NEW, row);

        let a_3 = self.extras[0];
        let a_6 = self.extras[2];
        let a_7 = self.extras[3];
        let a_8 = self.extras[4];
        let a_9 = self.extras[5];

        assign_and_constrain16(region, a_3, row - 1, maj.1);
        assign_and_constrain16(region, a_6, row, sigma_0.0);
        assign_and_constrain16(region, a_6, row + 1, sigma_0.1);
        assign_and_constrain16(region, a_7, row - 1, h_prime.0);
        assign_and_constrain16(region, a_8, row - 1, h_prime.1);

        let mut operands: Vec<(Option<u16>, Option<u16>)> = Vec::new();
        operands.push((h_prime.0.value, h_prime.1.value));
        operands.push((sigma_0.0.value, sigma_0.1.value));
        operands.push((maj.0.value, maj.1.value));
        proof {
            lemma2_to64();
            lemma_operands_total3(operands@);
            if dense_pair_known(h_prime) {
                assert(known_operands(operands@)) by {
                    assert(forall|i: int|
                        0 <= i < operands@.len() ==> (#[trigger] operands@[i]).0 is Some
                            && operands@[i].1 is Some) by {
                        assert(operands@[0].0 is Some && operands@[0].1 is Some);
                        assert(operands@[1].0 is Some && operands@[1].1 is Some);
                        assert(operands@[2].0 is Some && operands@[2].1 is Some);
                    }
                }
            } else {
                assert(!(operands@[0].0 is Some && operands@[0].1 is Some));
                assert(!known_operands(operands@));
            }
        }
        let (a_new, a_new_carry) = sum_with_carry(operands);
        proof {
            let known = dense_pair_known(h_prime);
            let total = dense_pair_val(h_prime) + dense_pair_val(sigma_0) + dense_pair_val(maj);
            if known {
                assert(operands_total(operands@) == total);
            }
            assert(a_new == sum_result(known, total));
            assert(a_new_carry == sum_carry(known, total));
        }
        let a_new_dense = self.assign_word_halves_dense(region, row, a_8, row + 1, a_8, a_new);
        region.assign_advice(a_9, row, a_new_carry);
        proof {
            reveal(a_new_evs);
            assert(region@ =~= old(region)@ + a_new_evs(idx, maj, sigma_0, h_prime));
        }
        a_new_dense
    }
}

/// The total of two half-word operands, written out.
proof fn lemma_operands_total2(s: Seq<(Option<u16>, Option<u16>)>)
    requires
        s.len() == 2,
    ensures
        operands_total(s) == (s[0].0->0 as nat) + 0x10000 * (s[0].1->0 as nat) + (
        s[1].0->0 as nat) + 0x10000 * (s[1].1->0 as nat),
{
    reveal_with_fuel(operands_total, 4);
    let s1 = s.drop_last();
    let s0 = s1.drop_last();
    assert(s0.len() == 0);
    assert(s.last() == s[1] && s1.last() == s[0]);
}

/// The total of three half-word operands, written out.
proof fn lemma_operands_total3(s: Seq<(Option<u16>, Option<u16>)>)
    requires
        s.len() == 3,
    ensures
        operands_total(s) == (s[0].0->0 as nat) + 0x10000 * (s[0].1->0 as nat) + (
        s[1].0->0 as nat) + 0x10000 * (s[1].1->0 as nat) + (s[2].0->0 as nat) + 0x10000 * (
        s[2].1->0 as nat),
{
    reveal_with_fuel(operands_total, 2);
    let s2 = s.drop_last();
    lemma_operands_total2(s2);
    assert(s.last() == s[2] && s2[0] == s[0] && s2[1] == s[1]);
}

/// The total of six half-word operands, written out.
proof fn lemma_operands_total6(s: Seq<(Option<u16>, Option<u16>)>)
    requires
        s.len() == 6,
    ensures
        operands_total(s) == (s[0].0->0 as nat) + 0x10000 * (s[0].1->0 as nat) + (
        s[1].0->0 as nat) + 0x10000 * (s[1].1->0 as nat) + (s[2].0->0 as nat) + 0x10000 * (
        s[2].1->0 as nat) + (s[3].0->0 as nat) + 0x10000 * (s[3].1->0 as nat) + (
        s[4].0->0 as nat) + 0x10000 * (s[4].1->0 as nat) + (s[5].0->0 as nat) + 0x10000 * (
        s[5].1->0 as nat),
{
    reveal_with_fuel(operands_total, 4);
    let s5 = s.drop_last();
    let s4 = s5.drop_last();
    let s3 = s4.drop_last();
    lemma_operands_total3(s3);
    assert(s.last() == s[5] && s5.last() == s[4] && s4.last() == s[3]);
    assert(s3[0] == s[0] && s3[1] == s[1] && s3[2] == s[2]);
}

/// The A-word piece formulas recombine: dividing out each cumulative offset
/// and reducing by each width partitions the 32 bits.
proof fn lemma_piece_chain_abcd(v: nat)
    requires
        v < 0x1_0000_0000,
    ensures
        v == v % 4 + 4 * ((v / 4) % 0x800) + 0x2000 * ((v / 0x2000) % 8) + 0x10000 * ((v / 0x10000)
            % 8) + 0x80000 * ((v / 0x80000) % 8) + 0x400000 * (v / 0x400000),
        v / 0x400000 < 0x400,
{
    lemma2_to64();
    lemma_fundamental_div_mod(v as int, 4);
    lemma_fundamental_div_mod(v as int, 0x2000);
    lemma_fundamental_div_mod(v as int, 0x10000);
    lemma_fundamental_div_mod(v as int, 0x80000);
    lemma_fundamental_div_mod(v as int, 0x400000);
    lemma_div_chain(v, 4, 0x800, 0x2000);
    lemma_div_chain(v, 0x2000, 8, 0x10000);
    lemma_div_chain(v, 0x10000, 8, 0x80000);
    lemma_div_chain(v, 0x80000, 8, 0x400000);
}

/// The E-word piece formulas recombine likewise.
proof fn lemma_piece_chain_efgh(v: nat)
    requires
        v < 0x1_0000_0000,
    ensures
        v == v % 8 + 8 * ((v / 8) % 8) + 0x40 * ((v / 0x40) % 4) + 0x100 * ((v / 0x100) % 8)
            + 0x800 * ((v / 0x800) % 0x4000) + 0x2000000 * (v / 0x2000000),
        v / 0x2000000 < 0x80,
{
    lemma2_to64();
    lemma_fundamental_div_mod(v as int, 8);
    lemma_fundamental_div_mod(v as int, 0x40);
    lemma_fundamental_div_mod(v as int, 0x100);
    lemma_fundamental_div_mod(v as int, 0x800);
    lemma_fundamental_div_mod(v as int, 0x2000000);
    lemma_div_chain(v, 8, 8, 0x40);
    lemma_div_chain(v, 0x40, 4, 0x100);
    lemma_div_chain(v, 0x100, 8, 0x800);
    lemma_div_chain(v, 0x800, 0x4000, 0x2000000);
}

/// One step of a division chain: `a * m * (v / (a*m)) + a * ((v/a) % m)`
/// recovers `a * (v/a)`.
proof fn lemma_div_chain(v: nat, a: nat, m: nat, am: nat)
    requires
        a >= 1,
        m >= 1,
        am == a * m,
    ensures
        a * (v / a) == a * ((v / a) % m) + am * (v / am),
{
    lemma_fundamental_div_mod((v / a) as int, m as int);
    vstd::arithmetic::div_mod::lemma_div_denominator(v as int, a as int, m as int);
    let q = v / a;
    lemma_mul_distrib_chain(a, q, q % m, q / m, m);
    assert((a * m) * (q / m) == am * (v / am));
}

/// The 32-bit complement of a word given by 16-bit halves is the word of
/// the halves' 16-bit complements, and its spread splits accordingly.
proof fn lemma_not_word(elo: nat, ehi: nat)
    requires
        elo < pow2(16),
        ehi < pow2(16),
    ensures
        bnot32(elo + 0x10000 * ehi) == (pow2(16) - 1 - elo) + 0x10000 * ((pow2(16) - 1
            - ehi) as nat),
        spread(bnot32(elo + 0x10000 * ehi)) == spread((pow2(16) - 1 - elo) as nat)
            + 0x1_0000_0000 * spread((pow2(16) - 1 - ehi) as nat),
{
    lemma2_to64();
    let nlo = (pow2(16) - 1 - elo) as nat;
    let nhi = (pow2(16) - 1 - ehi) as nat;
    assert(pow4(16) == pow2(32));
    lemma_spread_split(16, nlo, nhi);
    lemma_mul_eq(pow2(16), nhi, 0x10000);
    lemma_mul_eq(pow4(16), spread(nhi), 0x1_0000_0000);
}

proof fn lemma_mul_distrib_chain(a: nat, q: nat, x: nat, y: nat, m: nat)
    by (nonlinear_arith)
    requires
        q == x + m * y,
    ensures
        a * q == a * x + (a * m) * y,
{
}

} // verus!
