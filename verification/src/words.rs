//! Round words: the 8 SHA-256 state words as cells.
//!
//! A round word always carries its dense 32-bit value as two 16-bit halves;
//! where a gate consumes it, it also carries the spread forms of the halves
//! and, for the A and E words, the full non-uniform piece decomposition.

use vstd::prelude::*;
use crate::cells::{CellValue16, CellValue32};
use crate::spread::{even_bits, lemma_even_odd, spread};
use crate::table::SpreadVar;

verus! {

/// Both halves of a dense pair are known together, or unknown together.
pub open spec fn pair_consistent(p: (CellValue16, CellValue16)) -> bool {
    p.0.value is Some <==> p.1.value is Some
}

/// Both halves of a dense pair carry known witness values.
pub open spec fn dense_pair_known(p: (CellValue16, CellValue16)) -> bool {
    p.0.value is Some && p.1.value is Some
}

/// The 32-bit word held by a dense (lo, hi) half pair.
pub open spec fn dense_pair_val(p: (CellValue16, CellValue16)) -> nat {
    (p.0.value->0 as nat) + 0x10000 * (p.1.value->0 as nat)
}

/// The optional 32-bit value a dense pair holds.
pub open spec fn pair_val_opt(p: (CellValue16, CellValue16)) -> Option<u32> {
    if dense_pair_known(p) {
        Some(dense_pair_val(p) as u32)
    } else {
        None
    }
}

/// Both halves of a spread pair carry known witness values.
pub open spec fn spread_pair_known(p: (CellValue32, CellValue32)) -> bool {
    p.0.value is Some && p.1.value is Some
}

/// A value in the image of `spread`: its odd bit positions are all zero.
pub open spec fn is_spread(v: nat) -> bool {
    v == spread(even_bits(v))
}

/// The dense 32-bit word whose halves spread to the pair's values.
pub open spec fn spread_pair_word(p: (CellValue32, CellValue32)) -> nat {
    even_bits(p.0.value->0 as nat) + 0x10000 * even_bits(p.1.value->0 as nat)
}

/// The halves of a spread pair are genuine spread values, known together.
pub open spec fn spread_pair_wf(p: (CellValue32, CellValue32)) -> bool {
    &&& (p.0.value is Some <==> p.1.value is Some)
    &&& p.0.value is Some ==> is_spread(p.0.value->0 as nat) && is_spread(p.1.value->0 as nat)
}

/// A dense half pair and a spread half pair hold the same word: known
/// together, with each spread half the spread of its dense half.
pub open spec fn halves_wf(d: (CellValue16, CellValue16), s: (CellValue32, CellValue32)) -> bool {
    &&& (d.0.value is Some <==> d.1.value is Some)
    &&& (d.0.value is Some <==> s.0.value is Some)
    &&& (s.0.value is Some <==> s.1.value is Some)
    &&& d.0.value is Some ==> (s.0.value->0 as nat) == spread(d.0.value->0 as nat) && (
    s.1.value->0 as nat) == spread(d.1.value->0 as nat)
}

/// The even bits of a spread value recover the dense value, and its odd
/// bits are zero.
pub proof fn lemma_even_of_spread(d: nat)
    ensures
        even_bits(spread(d)) == d,
        crate::spread::odd_bits(spread(d)) == 0,
        is_spread(spread(d)),
{
    lemma_even_odd(d, 0);
}

/// Matching dense and spread halves make a well-formed spread pair holding
/// the dense pair's word.
pub proof fn lemma_halves_spread_pair(d: (CellValue16, CellValue16), s: (CellValue32, CellValue32))
    requires
        halves_wf(d, s),
    ensures
        spread_pair_wf(s),
        spread_pair_known(s) <==> dense_pair_known(d),
        dense_pair_known(d) ==> spread_pair_word(s) == dense_pair_val(d),
{
    if d.0.value is Some {
        lemma_even_of_spread(d.0.value->0 as nat);
        lemma_even_of_spread(d.1.value->0 as nat);
    }
}

/// The A-word's piece decomposition: widths 2, 11, 3, 3, 3, 10 from the
/// low bit up.
#[derive(Clone, Copy, Debug)]
pub struct AbcdVar {
    pub idx: i32,
    pub val: Option<u32>,
    pub a: SpreadVar,
    pub b: SpreadVar,
    pub c_lo: SpreadVar,
    pub c_mid: SpreadVar,
    pub c_hi: SpreadVar,
    pub d: SpreadVar,
}

impl AbcdVar {
    pub open spec fn known(self) -> bool {
        self.val is Some
    }

    /// Every piece is a valid spread pair of the right width, and the
    /// weighted recombination of the dense pieces gives back the word.
    pub open spec fn wf(self) -> bool {
        &&& self.a.wf() && self.b.wf() && self.c_lo.wf() && self.c_mid.wf() && self.c_hi.wf()
            && self.d.wf()
        &&& (self.val is Some <==> self.a.known())
        &&& (self.val is Some <==> self.b.known())
        &&& (self.val is Some <==> self.c_lo.known())
        &&& (self.val is Some <==> self.c_mid.known())
        &&& (self.val is Some <==> self.c_hi.known())
        &&& (self.val is Some <==> self.d.known())
        &&& self.known() ==> {
            &&& self.a.dense_val() < 4
            &&& self.b.dense_val() < 0x800
            &&& self.c_lo.dense_val() < 8
            &&& self.c_mid.dense_val() < 8
            &&& self.c_hi.dense_val() < 8
            &&& self.d.dense_val() < 0x400
            &&& self.val->0 as nat == self.a.dense_val() + 4 * self.b.dense_val() + 0x2000
                * self.c_lo.dense_val() + 0x10000 * self.c_mid.dense_val() + 0x80000
                * self.c_hi.dense_val() + 0x400000 * self.d.dense_val()
        }
    }
}

/// The E-word's piece decomposition: widths 3, 3, 2, 3, 14, 7 from the
/// low bit up.
#[derive(Clone, Copy, Debug)]
pub struct EfghVar {
    pub idx: i32,
    pub val: Option<u32>,
    pub a_lo: SpreadVar,
    pub a_hi: SpreadVar,
    pub b_lo: SpreadVar,
    pub b_hi: SpreadVar,
    pub c: SpreadVar,
    pub d: SpreadVar,
}

impl EfghVar {
    pub open spec fn known(self) -> bool {
        self.val is Some
    }

    pub open spec fn wf(self) -> bool {
        &&& self.a_lo.wf() && self.a_hi.wf() && self.b_lo.wf() && self.b_hi.wf() && self.c.wf()
            && self.d.wf()
        &&& (self.val is Some <==> self.a_lo.known())
        &&& (self.val is Some <==> self.a_hi.known())
        &&& (self.val is Some <==> self.b_lo.known())
        &&& (self.val is Some <==> self.b_hi.known())
        &&& (self.val is Some <==> self.c.known())
        &&& (self.val is Some <==> self.d.known())
        &&& self.known() ==> {
            &&& self.a_lo.dense_val() < 8
            &&& self.a_hi.dense_val() < 8
            &&& self.b_lo.dense_val() < 4
            &&& self.b_hi.dense_val() < 8
            &&& self.c.dense_val() < 0x4000
            &&& self.d.dense_val() < 0x80
            &&& self.val->0 as nat == self.a_lo.dense_val() + 8 * self.a_hi.dense_val() + 0x40
                * self.b_lo.dense_val() + 0x100 * self.b_hi.dense_val() + 0x800
                * self.c.dense_val() + 0x2000000 * self.d.dense_val()
        }
    }
}

/// A round word carried only as its dense halves.
#[derive(Clone, Copy, Debug)]
pub struct RoundWordDense {
    pub dense_halves: (CellValue16, CellValue16),
}

impl RoundWordDense {
    pub open spec fn wf(self) -> bool {
        self.dense_halves.0.value is Some <==> self.dense_halves.1.value is Some
    }

    pub open spec fn known(self) -> bool {
        dense_pair_known(self.dense_halves)
    }

    pub open spec fn val(self) -> nat {
        dense_pair_val(self.dense_halves)
    }

    pub fn new(dense_halves: (CellValue16, CellValue16)) -> (r: RoundWordDense)
        ensures
            r == (RoundWordDense { dense_halves }),
    {
        RoundWordDense { dense_halves }
    }
}

/// A round word carried as dense halves plus their spread forms.
#[derive(Clone, Copy, Debug)]
pub struct RoundWordSpread {
    pub dense_halves: (CellValue16, CellValue16),
    pub spread_halves: (CellValue32, CellValue32),
}

impl RoundWordSpread {
    pub open spec fn wf(self) -> bool {
        halves_wf(self.dense_halves, self.spread_halves)
    }

    pub open spec fn known(self) -> bool {
        dense_pair_known(self.dense_halves)
    }

    pub open spec fn val(self) -> nat {
        dense_pair_val(self.dense_halves)
    }

    pub fn new(
        dense_halves: (CellValue16, CellValue16),
        spread_halves: (CellValue32, CellValue32),
    ) -> (r: RoundWordSpread)
        ensures
            r == (RoundWordSpread { dense_halves, spread_halves }),
    {
        RoundWordSpread { dense_halves, spread_halves }
    }
}

/// The A word: pieces, dense halves and spread halves.
#[derive(Clone, Copy, Debug)]
pub struct RoundWordA {
    pub pieces: AbcdVar,
    pub dense_halves: (CellValue16, CellValue16),
    pub spread_halves: (CellValue32, CellValue32),
}

impl RoundWordA {
    pub open spec fn wf(self) -> bool {
        &&& self.pieces.wf()
        &&& halves_wf(self.dense_halves, self.spread_halves)
        &&& (self.pieces.known() <==> dense_pair_known(self.dense_halves))
        &&& self.pieces.known() ==> self.pieces.val->0 as nat == dense_pair_val(self.dense_halves)
    }

    pub open spec fn known(self) -> bool {
        dense_pair_known(self.dense_halves)
    }

    pub open spec fn val(self) -> nat {
        dense_pair_val(self.dense_halves)
    }

    pub fn new(
        pieces: AbcdVar,
        dense_halves: (CellValue16, CellValue16),
        spread_halves: (CellValue32, CellValue32),
    ) -> (r: RoundWordA)
        ensures
            r == (RoundWordA { pieces, dense_halves, spread_halves }),
    {
        RoundWordA { pieces, dense_halves, spread_halves }
    }
}

/// The E word: pieces, dense halves and spread halves.
#[derive(Clone, Copy, Debug)]
pub struct RoundWordE {
    pub pieces: EfghVar,
    pub dense_halves: (CellValue16, CellValue16),
    pub spread_halves: (CellValue32, CellValue32),
}

impl RoundWordE {
    pub open spec fn wf(self) -> bool {
        &&& self.pieces.wf()
        &&& halves_wf(self.dense_halves, self.spread_halves)
        &&& (self.pieces.known() <==> dense_pair_known(self.dense_halves))
        &&& self.pieces.known() ==> self.pieces.val->0 as nat == dense_pair_val(self.dense_halves)
    }

    pub open spec fn known(self) -> bool {
        dense_pair_known(self.dense_halves)
    }

    pub open spec fn val(self) -> nat {
        dense_pair_val(self.dense_halves)
    }

    pub fn new(
        pieces: EfghVar,
        dense_halves: (CellValue16, CellValue16),
        spread_halves: (CellValue32, CellValue32),
    ) -> (r: RoundWordE)
        ensures
            r == (RoundWordE { pieces, dense_halves, spread_halves }),
    {
        RoundWordE { pieces, dense_halves, spread_halves }
    }
}

/// One of the eight state words, tagged by its role in the round.
#[derive(Clone, Copy, Debug)]
pub enum StateWord {
    A(RoundWordA),
    B(RoundWordSpread),
    C(RoundWordSpread),
    D(RoundWordDense),
    E(RoundWordE),
    F(RoundWordSpread),
    G(RoundWordSpread),
    H(RoundWordDense),
}

/// The eight round words at a round boundary.
#[derive(Clone, Copy, Debug)]
pub struct State {
    pub a: Option<StateWord>,
    pub b: Option<StateWord>,
    pub c: Option<StateWord>,
    pub d: Option<StateWord>,
    pub e: Option<StateWord>,
    pub f: Option<StateWord>,
    pub g: Option<StateWord>,
    pub h: Option<StateWord>,
}

impl State {
    /// Every slot holds the word of its own role.
    pub open spec fn shape_wf(self) -> bool {
        &&& self.a matches Some(StateWord::A(_))
        &&& self.b matches Some(StateWord::B(_))
        &&& self.c matches Some(StateWord::C(_))
        &&& self.d matches Some(StateWord::D(_))
        &&& self.e matches Some(StateWord::E(_))
        &&& self.f matches Some(StateWord::F(_))
        &&& self.g matches Some(StateWord::G(_))
        &&& self.h matches Some(StateWord::H(_))
    }

    pub open spec fn a_word(self) -> RoundWordA {
        match self.a {
            Some(StateWord::A(w)) => w,
            _ => vstd::pervasive::arbitrary(),
        }
    }

    pub open spec fn b_word(self) -> RoundWordSpread {
        match self.b {
            Some(StateWord::B(w)) => w,
            _ => vstd::pervasive::arbitrary(),
        }
    }

    pub open spec fn c_word(self) -> RoundWordSpread {
        match self.c {
            Some(StateWord::C(w)) => w,
            _ => vstd::pervasive::arbitrary(),
        }
    }

    pub open spec fn d_word(self) -> RoundWordDense {
        match self.d {
            Some(StateWord::D(w)) => w,
            _ => vstd::pervasive::arbitrary(),
        }
    }

    pub open spec fn e_word(self) -> RoundWordE {
        match self.e {
            Some(StateWord::E(w)) => w,
            _ => vstd::pervasive::arbitrary(),
        }
    }

    pub open spec fn f_word(self) -> RoundWordSpread {
        match self.f {
            Some(StateWord::F(w)) => w,
            _ => vstd::pervasive::arbitrary(),
        }
    }

    pub open spec fn g_word(self) -> RoundWordSpread {
        match self.g {
            Some(StateWord::G(w)) => w,
            _ => vstd::pervasive::arbitrary(),
        }
    }

    pub open spec fn h_word(self) -> RoundWordDense {
        match self.h {
            Some(StateWord::H(w)) => w,
            _ => vstd::pervasive::arbitrary(),
        }
    }

    /// Shape plus per-word well-formedness.
    pub open spec fn wf(self) -> bool {
        &&& self.shape_wf()
        &&& self.a_word().wf()
        &&& self.b_word().wf()
        &&& self.c_word().wf()
        &&& self.d_word().wf()
        &&& self.e_word().wf()
        &&& self.f_word().wf()
        &&& self.g_word().wf()
        &&& self.h_word().wf()
    }

    /// Every word carries a known witness value.
    pub open spec fn known(self) -> bool {
        &&& self.a_word().known()
        &&& self.b_word().known()
        &&& self.c_word().known()
        &&& self.d_word().known()
        &&& self.e_word().known()
        &&& self.f_word().known()
        &&& self.g_word().known()
        &&& self.h_word().known()
    }

    /// The eight dense word values, A first.
    pub open spec fn vals(self) -> Seq<nat> {
        seq![
            self.a_word().val(),
            self.b_word().val(),
            self.c_word().val(),
            self.d_word().val(),
            self.e_word().val(),
            self.f_word().val(),
            self.g_word().val(),
            self.h_word().val(),
        ]
    }
}

/// Takes a state apart into its eight typed round words.
pub fn match_state(state: State) -> (r: (
    RoundWordA,
    RoundWordSpread,
    RoundWordSpread,
    RoundWordDense,
    RoundWordE,
    RoundWordSpread,
    RoundWordSpread,
    RoundWordDense,
))
    requires
        state.shape_wf(),
    ensures
        r.0 == state.a_word(),
        r.1 == state.b_word(),
        r.2 == state.c_word(),
        r.3 == state.d_word(),
        r.4 == state.e_word(),
        r.5 == state.f_word(),
        r.6 == state.g_word(),
        r.7 == state.h_word(),
{
    let a = match state.a {
        Some(StateWord::A(a)) => a,
        _ => vstd::pervasive::unreached(),
    };
    let b = match state.b {
        Some(StateWord::B(b)) => b,
        _ => vstd::pervasive::unreached(),
    };
    let c = match state.c {
        Some(StateWord::C(c)) => c,
        _ => vstd::pervasive::unreached(),
    };
    let d = match state.d {
        Some(StateWord::D(d)) => d,
        _ => vstd::pervasive::unreached(),
    };
    let e = match state.e {
        Some(StateWord::E(e)) => e,
        _ => vstd::pervasive::unreached(),
    };
    let f = match state.f {
        Some(StateWord::F(f)) => f,
        _ => vstd::pervasive::unreached(),
    };
    let g = match state.g {
        Some(StateWord::G(g)) => g,
        _ => vstd::pervasive::unreached(),
    };
    let h = match state.h {
        Some(StateWord::H(h)) => h,
        _ => vstd::pervasive::unreached(),
    };
    (a, b, c, d, e, f, g, h)
}

/// The dense 32-bit value held by a (lo, hi) half pair, if known.
pub fn val_from_dense_halves(dense_halves: (CellValue16, CellValue16)) -> (r: Option<u32>)
    ensures
        r == pair_val_opt(dense_halves),
        dense_pair_known(dense_halves) ==> r == Some(dense_pair_val(dense_halves) as u32),
        !dense_pair_known(dense_halves) ==> r is None,
{
    match (dense_halves.0.value, dense_halves.1.value) {
        (Some(lo), Some(hi)) => Some(lo as u32 + 0x10000 * (hi as u32)),
        _ => None,
    }
}

} // verus!
