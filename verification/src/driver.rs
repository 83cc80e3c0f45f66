//! The round driver: Init at round -1, 64 Main rounds, then the 2-row
//! Digest subregion. Transitions are strictly linear: compression always
//! runs exactly 64 rounds over exactly one 512-bit block.

use vstd::prelude::*;
use vstd::arithmetic::power2::{lemma2_to64, pow2};
use vstd::arithmetic::div_mod::lemma_small_mod;
use crate::compression::{
    a_new_evs, a_new_out_pair, ch_neg_out_pair, ch_out_pair, decompose_a_evs, decompose_a_word,
    decompose_abcd_evs, decompose_e_evs, decompose_e_word, decompose_efgh_evs, e_new_evs,
    e_new_out_pair, h_prime_evs, h_prime_out_pair, hi_half, lo_half, maj_evs, maj_out_pair,
    sigma0_evs, sigma0_out_pair, sigma1_evs, sigma1_out_pair, word_halves_cells,
    word_halves_dense_evs, word_halves_evs, CompressionConfig,
};
use crate::cells::{CellValue16, Event, Region, S_DIGEST, A_3, A_4, A_6, A_7};
use crate::gates::{ch_spec, lemma_ch_split, maj_spec, sigma0_spec, sigma1_spec};
use crate::rows::{
    get_decompose_b_row, get_decompose_c_row, get_decompose_f_row, get_decompose_g_row, get_d_row,
    get_digest_abcd_row, get_digest_efgh_row, get_h_row,
};
use crate::util::{chopped, lemma_chopped_props, recombined, total_width};
use crate::words::{
    lemma_halves_spread_pair, match_state, pair_val_opt, val_from_dense_halves, RoundWordDense,
    RoundWordSpread, State, StateWord,
};

verus! {

/// The column standing in for the external message-schedule region: the
/// two dense halves of round `r`'s schedule word sit at rows `2r`, `2r+1`.
pub const W_COL: usize = 21;

/// SHA-256's 64 round constants.
pub const ROUND_CONSTANTS: [u32; 64] = [
    0x428a2f98, 0x71374491, 0xb5c0fbcf, 0xe9b5dba5, 0x3956c25b, 0x59f111f1, 0x923f82a4,
    0xab1c5ed5, 0xd807aa98, 0x12835b01, 0x243185be, 0x550c7dc3, 0x72be5d74, 0x80deb1fe,
    0x9bdc06a7, 0xc19bf174, 0xe49b69c1, 0xefbe4786, 0x0fc19dc6, 0x240ca1cc, 0x2de92c6f,
    0x4a7484aa, 0x5cb0a9dc, 0x76f988da, 0x983e5152, 0xa831c66d, 0xb00327c8, 0xbf597fc7,
    0xc6e00bf3, 0xd5a79147, 0x06ca6351, 0x14292967, 0x27b70a85, 0x2e1b2138, 0x4d2c6dfc,
    0x53380d13, 0x650a7354, 0x766a0abb, 0x81c2c92e, 0x92722c85, 0xa2bfe8a1, 0xa81a664b,
    0xc24b8b70, 0xc76c51a3, 0xd192e819, 0xd6990624, 0xf40e3585, 0x106aa070, 0x19a4c116,
    0x1e376c08, 0x2748774c, 0x34b0bcb5, 0x391c0cb3, 0x4ed8aa4a, 0x5b9cca4f, 0x682e6ff3,
    0x748f82ee, 0x78a5636f, 0x84c87814, 0x8cc70208, 0x90befffa, 0xa4506ceb, 0xbef9a3f7,
    0xc67178f2,
];

/// A schedule of 32-bit words as mathematical values.
pub open spec fn sched_vals(ws: Seq<u32>) -> Seq<nat> {
    Seq::new(ws.len(), |i: int| ws[i] as nat)
}

/// One SHA-256 round over the eight word values, with round constant `k`
/// and schedule word `w`.
pub open spec fn round_spec(st: Seq<nat>, k: nat, w: nat) -> Seq<nat> {
    let hp = (st[7] + sigma1_spec(st[4]) + ch_spec(st[4], st[5], st[6]) + k + w) % pow2(32);
    seq![
        (hp + maj_spec(st[0], st[1], st[2]) + sigma0_spec(st[0])) % pow2(32),
        st[0],
        st[1],
        st[2],
        (hp + st[3]) % pow2(32),
        st[4],
        st[5],
        st[6],
    ]
}

/// The first `n` rounds, folded.
pub open spec fn rounds_spec(st: Seq<nat>, ws: Seq<nat>, n: nat) -> Seq<nat>
    decreases n,
{
    if n == 0 {
        st
    } else {
        round_spec(
            rounds_spec(st, ws, (n - 1) as nat),
            ROUND_CONSTANTS@[n - 1] as nat,
            ws[n - 1],
        )
    }
}

/// All 64 rounds of one compression.
pub open spec fn compress_spec(st: Seq<nat>, ws: Seq<nat>) -> Seq<nat> {
    rounds_spec(st, ws, 64)
}

/// The word-wise modular sum of the initial and compressed states.
pub open spec fn digest_spec(iv: Seq<nat>, fin: Seq<nat>) -> Seq<nat> {
    Seq::new(8, |i: int| (iv[i] + fin[i]) % pow2(32))
}

/// The schedule word's two dense half cells for round `idx`, in the
/// modeled message-schedule column.
pub open spec fn w_sched_pair(idx: usize, w: u32) -> (CellValue16, CellValue16) {
    (
        CellValue16 { col: W_COL, row: (2 * idx) as usize, value: lo_half(Some(w)) },
        CellValue16 { col: W_COL, row: (2 * idx + 1) as usize, value: hi_half(Some(w)) },
    )
}

/// The H' result cells of round `idx` over state `st` and schedule word
/// `w`.
#[verifier::opaque]
pub open spec fn round_h_prime_pair(idx: usize, st: State, w: u32) -> (CellValue16, CellValue16) {
    let i = idx as i32;
    let e = st.e_word();
    let sigma_1 = sigma1_out_pair(i, e.pieces);
    let ch = ch_out_pair(i, e.spread_halves, st.f_word().spread_halves);
    let ch_neg = ch_neg_out_pair(i, e.spread_halves, st.g_word().spread_halves);
    h_prime_out_pair(
        i,
        st.h_word().dense_halves,
        ch,
        ch_neg,
        sigma_1,
        ROUND_CONSTANTS@[idx as int],
        w_sched_pair(idx, w),
    )
}

/// The A_new result cells of round `idx`.
#[verifier::opaque]
pub open spec fn round_a_new_pair(idx: usize, st: State, w: u32) -> (CellValue16, CellValue16) {
    let i = idx as i32;
    let a = st.a_word();
    let sigma_0 = sigma0_out_pair(i, a.pieces);
    let maj = maj_out_pair(
        i,
        a.spread_halves,
        st.b_word().spread_halves,
        st.c_word().spread_halves,
    );
    a_new_out_pair(i, maj, sigma_0, round_h_prime_pair(idx, st, w))
}

/// The E_new result cells of round `idx`.
#[verifier::opaque]
pub open spec fn round_e_new_pair(idx: usize, st: State, w: u32) -> (CellValue16, CellValue16) {
    e_new_out_pair(idx as i32, st.d_word().dense_halves, round_h_prime_pair(idx, st, w))
}

/// The H' value of a round: the six-operand sum reduced modulo `2^32`.
pub open spec fn hp_val(stv: Seq<nat>, k: nat, w: nat) -> nat {
    (stv[7] + sigma1_spec(stv[4]) + ch_spec(stv[4], stv[5], stv[6]) + k + w) % pow2(32)
}

/// The events of round `idx`'s first gate stage: the schedule word's
/// cells, Σ1, the two Ch half-gates, and the H' sum.
#[verifier::opaque]
pub open spec fn round_t1_evs(idx: usize, st: State, w: u32) -> Seq<Event> {
    let i = idx as i32;
    let e = st.e_word();
    let f = st.f_word();
    let g = st.g_word();
    let h = st.h_word();
    let w_pair = w_sched_pair(idx, w);
    let sigma_1 = sigma1_out_pair(i, e.pieces);
    let ch = ch_out_pair(i, e.spread_halves, f.spread_halves);
    let ch_neg = ch_neg_out_pair(i, e.spread_halves, g.spread_halves);
    let k = ROUND_CONSTANTS@[idx as int];
    word_halves_dense_evs((2 * idx) as usize, W_COL, (2 * idx + 1) as usize, W_COL, Some(w))
        + sigma1_evs(i, e.pieces) + ch_evs_of(i, e, f) + ch_neg_evs_of(i, e, g) + h_prime_evs(
        i,
        h.dense_halves,
        ch,
        ch_neg,
        sigma_1,
        k,
        w_pair,
    )
}

/// The events of round `idx`'s whole gate stage: the first stage, then
/// E_new, Σ0, Maj and A_new.
#[verifier::opaque]
pub open spec fn round_sums_evs(idx: usize, st: State, w: u32) -> Seq<Event> {
    let i = idx as i32;
    let a = st.a_word();
    let sigma_0 = sigma0_out_pair(i, a.pieces);
    let maj = maj_out_pair(
        i,
        a.spread_halves,
        st.b_word().spread_halves,
        st.c_word().spread_halves,
    );
    let hp = round_h_prime_pair(idx, st, w);
    round_t1_evs(idx, st, w) + e_new_evs(i, st.d_word().dense_halves, hp) + sigma0_evs(
        i,
        a.pieces,
    ) + maj_evs_of(i, a, st.b_word(), st.c_word()) + a_new_evs(i, maj, sigma_0, hp)
}

/// The events of one whole Main round: its gate stage, then the
/// decompositions of the round's new A and E words.
#[verifier::opaque]
pub open spec fn round_evs(idx: usize, st: State, w: u32) -> Seq<Event> {
    let i = idx as i32;
    round_sums_evs(idx, st, w) + decompose_a_evs(i, pair_val_opt(round_a_new_pair(idx, st, w)))
        + decompose_e_evs(i, pair_val_opt(round_e_new_pair(idx, st, w)))
}

/// The Ch half-gate events over two round words' spread halves.
pub open spec fn ch_evs_of(
    i: i32,
    e: crate::words::RoundWordE,
    f: RoundWordSpread,
) -> Seq<Event> {
    crate::compression::ch_evs(i, e.spread_halves, f.spread_halves)
}

/// The Ch-complement events over two round words' spread halves.
pub open spec fn ch_neg_evs_of(
    i: i32,
    e: crate::words::RoundWordE,
    g: RoundWordSpread,
) -> Seq<Event> {
    crate::compression::ch_neg_evs(i, e.spread_halves, g.spread_halves)
}

/// The Maj events over three round words' spread halves.
pub open spec fn maj_evs_of(
    i: i32,
    a: crate::words::RoundWordA,
    b: RoundWordSpread,
    c: RoundWordSpread,
) -> Seq<Event> {
    crate::compression::maj_evs(i, a.spread_halves, b.spread_halves, c.spread_halves)
}

/// The state one Main round hands the next: A and E freshly decomposed
/// from the given new word values, every other word inherited.
#[verifier::opaque]
pub open spec fn next_state_of(idx: usize, st: State, a_val: Option<u32>, e_val: Option<u32>) -> State {
    let i = idx as i32;
    State {
        a: Some(StateWord::A(decompose_a_word(i, a_val))),
        b: Some(
            StateWord::B(
                RoundWordSpread {
                    dense_halves: st.a_word().dense_halves,
                    spread_halves: st.a_word().spread_halves,
                },
            ),
        ),
        c: Some(
            StateWord::C(
                RoundWordSpread {
                    dense_halves: st.b_word().dense_halves,
                    spread_halves: st.b_word().spread_halves,
                },
            ),
        ),
        d: Some(StateWord::D(RoundWordDense { dense_halves: st.c_word().dense_halves })),
        e: Some(StateWord::E(decompose_e_word(i, e_val))),
        f: Some(
            StateWord::F(
                RoundWordSpread {
                    dense_halves: st.e_word().dense_halves,
                    spread_halves: st.e_word().spread_halves,
                },
            ),
        ),
        g: Some(
            StateWord::G(
                RoundWordSpread {
                    dense_halves: st.f_word().dense_halves,
                    spread_halves: st.f_word().spread_halves,
                },
            ),
        ),
        h: Some(StateWord::H(RoundWordDense { dense_halves: st.g_word().dense_halves })),
    }
}

/// The state one Main round over `st` with schedule word `w` hands on.
#[verifier::opaque]
pub open spec fn round_state(idx: usize, st: State, w: u32) -> State {
    next_state_of(
        idx,
        st,
        pair_val_opt(round_a_new_pair(idx, st, w)),
        pair_val_opt(round_e_new_pair(idx, st, w)),
    )
}

/// The states reached after the first `n` rounds, cells included.
pub open spec fn compress_states(state: State, ws: Seq<u32>, n: nat) -> State
    decreases n,
{
    if n == 0 {
        state
    } else {
        round_state(
            (n - 1) as usize,
            compress_states(state, ws, (n - 1) as nat),
            ws[n - 1],
        )
    }
}

/// Every event the first `n` rounds append, in order.
pub open spec fn compress_trace(state: State, ws: Seq<u32>, n: nat) -> Seq<Event>
    decreases n,
{
    if n == 0 {
        Seq::empty()
    } else {
        compress_trace(state, ws, (n - 1) as nat) + round_evs(
            (n - 1) as usize,
            compress_states(state, ws, (n - 1) as nat),
            ws[n - 1],
        )
    }
}

/// The state Init hands round 0: the eight IV words decomposed at the
/// Init subregion's fixed rows.
#[verifier::opaque]
pub open spec fn init_state(iv: Seq<u32>) -> State {
    State {
        a: Some(StateWord::A(decompose_a_word(-1i32, Some(iv[0])))),
        b: Some(
            StateWord::B(
                RoundWordSpread {
                    dense_halves: word_halves_cells(10, Some(iv[1])).0,
                    spread_halves: word_halves_cells(10, Some(iv[1])).1,
                },
            ),
        ),
        c: Some(
            StateWord::C(
                RoundWordSpread {
                    dense_halves: word_halves_cells(12, Some(iv[2])).0,
                    spread_halves: word_halves_cells(12, Some(iv[2])).1,
                },
            ),
        ),
        d: Some(StateWord::D(RoundWordDense { dense_halves: word_halves_cells(14, Some(iv[3])).0 })),
        e: Some(StateWord::E(decompose_e_word(-1i32, Some(iv[4])))),
        f: Some(
            StateWord::F(
                RoundWordSpread {
                    dense_halves: word_halves_cells(2, Some(iv[5])).0,
                    spread_halves: word_halves_cells(2, Some(iv[5])).1,
                },
            ),
        ),
        g: Some(
            StateWord::G(
                RoundWordSpread {
                    dense_halves: word_halves_cells(4, Some(iv[6])).0,
                    spread_halves: word_halves_cells(4, Some(iv[6])).1,
                },
            ),
        ),
        h: Some(StateWord::H(RoundWordDense { dense_halves: word_halves_cells(6, Some(iv[7])).0 })),
    }
}

/// The events of Init's E, F, G, H decompositions, in order.
#[verifier::opaque]
pub open spec fn init_efgh_evs(iv: Seq<u32>) -> Seq<Event> {
    decompose_e_evs(-1i32, Some(iv[4])) + word_halves_evs(2, Some(iv[5])) + decompose_efgh_evs(
        2,
        Some(iv[5]),
    ) + word_halves_evs(4, Some(iv[6])) + decompose_efgh_evs(4, Some(iv[6])) + word_halves_evs(
        6,
        Some(iv[7]),
    ) + decompose_efgh_evs(6, Some(iv[7]))
}

/// The events of Init's A, B, C, D decompositions, in order.
#[verifier::opaque]
pub open spec fn init_abcd_evs(iv: Seq<u32>) -> Seq<Event> {
    decompose_a_evs(-1i32, Some(iv[0])) + word_halves_evs(10, Some(iv[1])) + decompose_abcd_evs(
        10,
        Some(iv[1]),
    ) + word_halves_evs(12, Some(iv[2])) + decompose_abcd_evs(12, Some(iv[2]))
        + word_halves_evs(14, Some(iv[3])) + decompose_abcd_evs(14, Some(iv[3]))
}

/// The events of the whole Init subregion: E, F, G, H then A, B, C, D,
/// each word's halves and raw bit decomposition at its fixed rows.
#[verifier::opaque]
pub open spec fn init_evs(iv: Seq<u32>) -> Seq<Event> {
    init_efgh_evs(iv) + init_abcd_evs(iv)
}

/// Digest word `i`: the word-wise modular sum, as a cell value.
pub open spec fn digest_word_of(s1: State, s2: State, i: int) -> Option<u32> {
    Some(((s1.vals()[i] + s2.vals()[i]) % pow2(32)) as u32)
}

/// The events of the Digest subregion: its two selector rows and the
/// eight output words' dense halves.
#[verifier::opaque]
pub open spec fn digest_evs(s1: State, s2: State) -> Seq<Event> {
    seq![
        Event::Fixed { col: S_DIGEST, row: 1536 },
        Event::Fixed { col: S_DIGEST, row: 1538 },
    ] + word_halves_dense_evs(1536, A_3, 1537, A_3, digest_word_of(s1, s2, 0))
        + word_halves_dense_evs(1536, A_4, 1537, A_4, digest_word_of(s1, s2, 1))
        + word_halves_dense_evs(1536, A_6, 1537, A_6, digest_word_of(s1, s2, 2))
        + word_halves_dense_evs(1536, A_7, 1537, A_7, digest_word_of(s1, s2, 3))
        + word_halves_dense_evs(1538, A_3, 1539, A_3, digest_word_of(s1, s2, 4))
        + word_halves_dense_evs(1538, A_4, 1539, A_4, digest_word_of(s1, s2, 5))
        + word_halves_dense_evs(1538, A_6, 1539, A_6, digest_word_of(s1, s2, 6))
        + word_halves_dense_evs(1538, A_7, 1539, A_7, digest_word_of(s1, s2, 7))
}

/// Modular 32-bit addition.
fn add_mod32(x: u32, y: u32) -> (r: u32)
    ensures
        r as nat == (x as nat + y as nat) % pow2(32),
{
    proof {
        lemma2_to64();
    }
    let s: u64 = x as u64 + y as u64;
    (s % 0x1_0000_0000) as u32
}

impl CompressionConfig {
    /// One Init word that is not A or E: its halves and its raw bit
    /// decomposition at `row`, kept as a spread round word.
    #[verifier::rlimit(100)]
    #[verifier::spinoff_prover]
    fn init_word_abcd(&self, region: &mut Region, row: usize, v: u32) -> (r: RoundWordSpread)
        requires
            self.wf(),
            row + 2 < 0x10000,
        ensures
            r == (RoundWordSpread {
                dense_halves: word_halves_cells(row, Some(v)).0,
                spread_halves: word_halves_cells(row, Some(v)).1,
            }),
            r.wf(),
            r.known(),
            r.val() == v,
            final(region)@ == old(region)@ + word_halves_evs(row, Some(v)) + decompose_abcd_evs(
                row,
                Some(v),
            ),
    {
        let (dense, spread_h) = self.assign_word_halves(region, row, Some(v));
        let _pieces = self.decompose_abcd(region, row, Some(v));
        proof {
            assert(region@ =~= old(region)@ + word_halves_evs(row, Some(v)) + decompose_abcd_evs(
                row,
                Some(v),
            ));
        }
        RoundWordSpread::new(dense, spread_h)
    }

    /// As `init_word_abcd`, with the E-word piece widths.
    #[verifier::rlimit(100)]
    #[verifier::spinoff_prover]
    fn init_word_efgh(&self, region: &mut Region, row: usize, v: u32) -> (r: RoundWordSpread)
        requires
            self.wf(),
            row + 2 < 0x10000,
        ensures
            r == (RoundWordSpread {
                dense_halves: word_halves_cells(row, Some(v)).0,
                spread_halves: word_halves_cells(row, Some(v)).1,
            }),
            r.wf(),
            r.known(),
            r.val() == v,
            final(region)@ == old(region)@ + word_halves_evs(row, Some(v)) + decompose_efgh_evs(
                row,
                Some(v),
            ),
    {
        let (dense, spread_h) = self.assign_word_halves(region, row, Some(v));
        let _pieces = self.decompose_efgh(region, row, Some(v));
        proof {
            assert(region@ =~= old(region)@ + word_halves_evs(row, Some(v)) + decompose_efgh_evs(
                row,
                Some(v),
            ));
        }
        RoundWordSpread::new(dense, spread_h)
    }

    /// Init's E, F, G and H words: each raw-bit decomposed at its fixed
    /// rows, E keeping its piece bundle.
    #[verifier::rlimit(100)]
    #[verifier::spinoff_prover]
    fn init_efgh(&self, region: &mut Region, iv: [u32; 8]) -> (r: (
        crate::words::RoundWordE,
        RoundWordSpread,
        RoundWordSpread,
        RoundWordDense,
    ))
        requires
            self.wf(),
        ensures
            r.0 == decompose_e_word(-1i32, Some(iv@[4])),
            r.1 == (RoundWordSpread {
                dense_halves: word_halves_cells(2, Some(iv@[5])).0,
                spread_halves: word_halves_cells(2, Some(iv@[5])).1,
            }),
            r.2 == (RoundWordSpread {
                dense_halves: word_halves_cells(4, Some(iv@[6])).0,
                spread_halves: word_halves_cells(4, Some(iv@[6])).1,
            }),
            r.3 == (RoundWordDense { dense_halves: word_halves_cells(6, Some(iv@[7])).0 }),
            r.0.wf() && r.0.known() && r.0.val() == iv@[4],
            r.1.wf() && r.1.known() && r.1.val() == iv@[5],
            r.2.wf() && r.2.known() && r.2.val() == iv@[6],
            r.3.wf() && r.3.known() && r.3.val() == iv@[7],
            final(region)@ == old(region)@ + init_efgh_evs(iv@),
    {
        let e = self.decompose_e(region, -1, Some(iv[4]));
        let f = self.init_word_efgh(region, get_decompose_f_row(-1), iv[5]);
        let g = self.init_word_efgh(region, get_decompose_g_row(-1), iv[6]);
        let hw = self.init_word_efgh(region, get_h_row(-1), iv[7]);
        let h = RoundWordDense::new(hw.dense_halves);
        proof {
            reveal(init_efgh_evs);
            assert(region@ =~= old(region)@ + init_efgh_evs(iv@));
        }
        (e, f, g, h)
    }

    /// Init's A, B, C and D words, likewise; A keeps its piece bundle.
    #[verifier::rlimit(100)]
    #[verifier::spinoff_prover]
    fn init_abcd(&self, region: &mut Region, iv: [u32; 8]) -> (r: (
        crate::words::RoundWordA,
        RoundWordSpread,
        RoundWordSpread,
        RoundWordDense,
    ))
        requires
            self.wf(),
        ensures
            r.0 == decompose_a_word(-1i32, Some(iv@[0])),
            r.1 == (RoundWordSpread {
                dense_halves: word_halves_cells(10, Some(iv@[1])).0,
                spread_halves: word_halves_cells(10, Some(iv@[1])).1,
            }),
            r.2 == (RoundWordSpread {
                dense_halves: word_halves_cells(12, Some(iv@[2])).0,
                spread_halves: word_halves_cells(12, Some(iv@[2])).1,
            }),
            r.3 == (RoundWordDense { dense_halves: word_halves_cells(14, Some(iv@[3])).0 }),
            r.0.wf() && r.0.known() && r.0.val() == iv@[0],
            r.1.wf() && r.1.known() && r.1.val() == iv@[1],
            r.2.wf() && r.2.known() && r.2.val() == iv@[2],
            r.3.wf() && r.3.known() && r.3.val() == iv@[3],
            final(region)@ == old(region)@ + init_abcd_evs(iv@),
    {
        let a = self.decompose_a(region, -1, Some(iv[0]));
        let b = self.init_word_abcd(region, get_decompose_b_row(-1), iv[1]);
        let c = self.init_word_abcd(region, get_decompose_c_row(-1), iv[2]);
        let dw = self.init_word_abcd(region, get_d_row(-1), iv[3]);
        let d = RoundWordDense::new(dw.dense_halves);
        proof {
            reveal(init_abcd_evs);
            assert(region@ =~= old(region)@ + init_abcd_evs(iv@));
        }
        (a, b, c, d)
    }

    /// Decomposes the eight IV words into round-word bundles: the Init
    /// subregion's raw bit decomposition of a state no prior round built.
    #[verifier::rlimit(100)]
    #[verifier::spinoff_prover]
    pub fn initialize(&self, region: &mut Region, iv: [u32; 8]) -> (st: State)
        requires
            self.wf(),
        ensures
            st == init_state(iv@),
            final(region)@ == old(region)@ + init_evs(iv@),
            st.wf(),
            st.known(),
            st.vals() == seq![
                iv@[0] as nat,
                iv@[1] as nat,
                iv@[2] as nat,
                iv@[3] as nat,
                iv@[4] as nat,
                iv@[5] as nat,
                iv@[6] as nat,
                iv@[7] as nat,
            ],
    {
        let (e, f, g, h) = self.init_efgh(region, iv);
        let (a, b, c, d) = self.init_abcd(region, iv);

        let st = State {
            a: Some(StateWord::A(a)),
            b: Some(StateWord::B(b)),
            c: Some(StateWord::C(c)),
            d: Some(StateWord::D(d)),
            e: Some(StateWord::E(e)),
            f: Some(StateWord::F(f)),
            g: Some(StateWord::G(g)),
            h: Some(StateWord::H(h)),
        };
        proof {
            reveal(init_state);
            reveal(init_evs);
            assert(st == init_state(iv@));
            assert(region@ =~= old(region)@ + init_evs(iv@));
            assert(st.vals() =~= seq![
                iv@[0] as nat,
                iv@[1] as nat,
                iv@[2] as nat,
                iv@[3] as nat,
                iv@[4] as nat,
                iv@[5] as nat,
                iv@[6] as nat,
                iv@[7] as nat,
            ]);
        }
        st
    }

    /// The first gate stage of one Main round: the schedule word's cells,
    /// Σ1, the two Ch half-gates, and the H' sum.
    #[verifier::rlimit(100)]
    #[verifier::spinoff_prover]
    fn round_t1(&self, region: &mut Region, idx: usize, st: State, w: u32) -> (r: (
        CellValue16,
        CellValue16,
    ))
        requires
            self.wf(),
            st.wf(),
            st.known(),
            idx < 64,
        ensures
            r == round_h_prime_pair(idx, st, w),
            crate::words::dense_pair_known(r),
            crate::words::pair_consistent(r),
            crate::words::dense_pair_val(r) == hp_val(
                st.vals(),
                ROUND_CONSTANTS@[idx as int] as nat,
                w as nat,
            ),
            final(region)@ == old(region)@ + round_t1_evs(idx, st, w),
    {
        let i = idx as i32;
        let (_a, _b, _c, _d, e, f, g, h) = match_state(st);
        let ghost stv = st.vals();
        proof {
            lemma2_to64();
            lemma_halves_spread_pair(e.dense_halves, e.spread_halves);
            lemma_halves_spread_pair(f.dense_halves, f.spread_halves);
            lemma_halves_spread_pair(g.dense_halves, g.spread_halves);
            lemma_ch_split(stv[4], stv[5], stv[6]);
        }
        let w_halves = self.assign_word_halves_dense(
            region,
            2 * idx,
            W_COL,
            2 * idx + 1,
            W_COL,
            Some(w),
        );
        let sigma_1 = self.assign_upper_sigma_1(region, i, e.pieces);
        let ch = self.assign_ch(region, i, e.spread_halves, f.spread_halves);
        let ch_neg = self.assign_ch_neg(region, i, e.spread_halves, g.spread_halves);
        let k = ROUND_CONSTANTS[idx];
        let h_prime = self.assign_h_prime(
            region,
            i,
            h.dense_halves,
            ch,
            ch_neg,
            sigma_1,
            k,
            w_halves,
        );
        proof {
            reveal(round_h_prime_pair);
            reveal(round_t1_evs);
            assert(w_halves == w_sched_pair(idx, w));
            assert(sigma_1 == sigma1_out_pair(i, e.pieces));
            assert(ch == ch_out_pair(i, e.spread_halves, f.spread_halves));
            assert(ch_neg == ch_neg_out_pair(i, e.spread_halves, g.spread_halves));
            assert(h_prime == round_h_prime_pair(idx, st, w));
            assert(crate::words::dense_pair_val(h_prime) == hp_val(stv, k as nat, w as nat));
            assert(region@ =~= old(region)@ + round_t1_evs(idx, st, w));
        }
        h_prime
    }

    /// The rest of one Main round's gate stage: the first stage's H',
    /// then E_new, Σ0, Maj and A_new, giving the new A and E word cells.
    #[verifier::rlimit(100)]
    #[verifier::spinoff_prover]
    fn round_sums(&self, region: &mut Region, idx: usize, st: State, w: u32) -> (r: (
        (CellValue16, CellValue16),
        (CellValue16, CellValue16),
    ))
        requires
            self.wf(),
            st.wf(),
            st.known(),
            idx < 64,
        ensures
            r.0 == round_a_new_pair(idx, st, w),
            r.1 == round_e_new_pair(idx, st, w),
            crate::words::dense_pair_known(r.0),
            crate::words::dense_pair_known(r.1),
            crate::words::dense_pair_val(r.0) == round_spec(
                st.vals(),
                ROUND_CONSTANTS@[idx as int] as nat,
                w as nat,
            )[0],
            crate::words::dense_pair_val(r.1) == round_spec(
                st.vals(),
                ROUND_CONSTANTS@[idx as int] as nat,
                w as nat,
            )[4],
            round_spec(st.vals(), ROUND_CONSTANTS@[idx as int] as nat, w as nat) == seq![
                crate::words::dense_pair_val(r.0),
                st.vals()[0],
                st.vals()[1],
                st.vals()[2],
                crate::words::dense_pair_val(r.1),
                st.vals()[4],
                st.vals()[5],
                st.vals()[6],
            ],
            final(region)@ == old(region)@ + round_sums_evs(idx, st, w),
    {
        let i = idx as i32;
        let (a, b, c, d, _e, _f, _g, _h) = match_state(st);
        let ghost stv = st.vals();
        proof {
            lemma2_to64();
            lemma_halves_spread_pair(a.dense_halves, a.spread_halves);
            lemma_halves_spread_pair(b.dense_halves, b.spread_halves);
            lemma_halves_spread_pair(c.dense_halves, c.spread_halves);
        }
        let h_prime = self.round_t1(region, idx, st, w);
        let e_new = self.assign_e_new(region, i, d.dense_halves, h_prime);
        let sigma_0 = self.assign_upper_sigma_0(region, i, a.pieces);
        let maj = self.assign_maj(region, i, a.spread_halves, b.spread_halves, c.spread_halves);
        let a_new = self.assign_a_new(region, i, maj, sigma_0, h_prime);
        proof {
            reveal(round_a_new_pair);
            reveal(round_e_new_pair);
            reveal(round_sums_evs);
            let ghost k = ROUND_CONSTANTS@[idx as int] as nat;
            assert(sigma_0 == sigma0_out_pair(i, a.pieces));
            assert(maj == maj_out_pair(i, a.spread_halves, b.spread_halves, c.spread_halves));
            assert(e_new == e_new_out_pair(i, d.dense_halves, h_prime));
            assert(a_new == a_new_out_pair(i, maj, sigma_0, h_prime));
            assert(a_new == round_a_new_pair(idx, st, w));
            assert(e_new == round_e_new_pair(idx, st, w));
            assert(crate::words::dense_pair_val(e_new) == round_spec(stv, k, w as nat)[4]);
            assert(crate::words::dense_pair_val(a_new) == round_spec(stv, k, w as nat)[0]);
            assert(round_spec(stv, k, w as nat) =~= seq![
                crate::words::dense_pair_val(a_new),
                stv[0],
                stv[1],
                stv[2],
                crate::words::dense_pair_val(e_new),
                stv[4],
                stv[5],
                stv[6],
            ]);
            assert(region@ =~= old(region)@ + round_sums_evs(idx, st, w));
        }
        (a_new, e_new)
    }

    /// Decomposes the round's new A and E words at the round's fixed rows.
    #[verifier::rlimit(100)]
    #[verifier::spinoff_prover]
    fn round_decompose(
        &self,
        region: &mut Region,
        idx: usize,
        a_val: Option<u32>,
        e_val: Option<u32>,
    ) -> (r: (crate::words::RoundWordA, crate::words::RoundWordE))
        requires
            self.wf(),
            idx < 64,
        ensures
            r.0 == decompose_a_word(idx as i32, a_val),
            r.1 == decompose_e_word(idx as i32, e_val),
            r.0.wf(),
            r.1.wf(),
            a_val is Some <==> r.0.known(),
            a_val is Some ==> r.0.val() == a_val->0 as nat,
            e_val is Some <==> r.1.known(),
            e_val is Some ==> r.1.val() == e_val->0 as nat,
            final(region)@ == old(region)@ + decompose_a_evs(idx as i32, a_val)
                + decompose_e_evs(idx as i32, e_val),
    {
        let i = idx as i32;
        let new_a = self.decompose_a(region, i, a_val);
        let new_e = self.decompose_e(region, i, e_val);
        proof {
            assert(region@ =~= old(region)@ + decompose_a_evs(i, a_val) + decompose_e_evs(
                i,
                e_val,
            ));
        }
        (new_a, new_e)
    }

    /// The hand-over stage of one Main round: decomposes the new A and E
    /// words at the round's rows and rebuilds the state for the next round.
    #[verifier::rlimit(100)]
    #[verifier::spinoff_prover]
    fn round_finish(
        &self,
        region: &mut Region,
        idx: usize,
        st: State,
        a_new: (CellValue16, CellValue16),
        e_new: (CellValue16, CellValue16),
        kv: Ghost<nat>,
        wv: Ghost<nat>,
    ) -> (r: State)
        requires
            self.wf(),
            st.wf(),
            st.known(),
            idx < 64,
            crate::words::dense_pair_known(a_new),
            crate::words::dense_pair_known(e_new),
            round_spec(st.vals(), kv@, wv@) == seq![
                crate::words::dense_pair_val(a_new),
                st.vals()[0],
                st.vals()[1],
                st.vals()[2],
                crate::words::dense_pair_val(e_new),
                st.vals()[4],
                st.vals()[5],
                st.vals()[6],
            ],
        ensures
            r == next_state_of(idx, st, pair_val_opt(a_new), pair_val_opt(e_new)),
            r.wf(),
            r.known(),
            r.vals() == round_spec(st.vals(), kv@, wv@),
            final(region)@ == old(region)@ + decompose_a_evs(idx as i32, pair_val_opt(a_new))
                + decompose_e_evs(idx as i32, pair_val_opt(e_new)),
    {
        let (a, b, c, _d, e, f, g, _h) = match_state(st);
        let a_val = val_from_dense_halves(a_new);
        let e_val = val_from_dense_halves(e_new);
        let (new_a, new_e) = self.round_decompose(region, idx, a_val, e_val);
        let next = State {
            a: Some(StateWord::A(new_a)),
            b: Some(StateWord::B(RoundWordSpread::new(a.dense_halves, a.spread_halves))),
            c: Some(StateWord::C(RoundWordSpread::new(b.dense_halves, b.spread_halves))),
            d: Some(StateWord::D(RoundWordDense::new(c.dense_halves))),
            e: Some(StateWord::E(new_e)),
            f: Some(StateWord::F(RoundWordSpread::new(e.dense_halves, e.spread_halves))),
            g: Some(StateWord::G(RoundWordSpread::new(f.dense_halves, f.spread_halves))),
            h: Some(StateWord::H(RoundWordDense::new(g.dense_halves))),
        };
        proof {
            reveal(next_state_of);
            assert(next == next_state_of(idx, st, pair_val_opt(a_new), pair_val_opt(e_new)));
            let stv = st.vals();
            assert(next.vals() =~= seq![
                crate::words::dense_pair_val(a_new),
                stv[0],
                stv[1],
                stv[2],
                crate::words::dense_pair_val(e_new),
                stv[4],
                stv[5],
                stv[6],
            ]);
        }
        next
    }

    /// One Main round: consumes the round's state, wires the gates, and
    /// produces the next round's state.
    #[verifier::rlimit(100)]
    #[verifier::spinoff_prover]
    fn round(&self, region: &mut Region, idx: usize, st: State, w: u32) -> (r: State)
        requires
            self.wf(),
            st.wf(),
            st.known(),
            idx < 64,
        ensures
            r.wf(),
            r.known(),
            r.vals() == round_spec(st.vals(), ROUND_CONSTANTS@[idx as int] as nat, w as nat),
            r == round_state(idx, st, w),
            final(region)@ == old(region)@ + round_evs(idx, st, w),
    {
        let (a_new, e_new) = self.round_sums(region, idx, st, w);
        let next = self.round_finish(
            region,
            idx,
            st,
            a_new,
            e_new,
            Ghost(ROUND_CONSTANTS@[idx as int] as nat),
            Ghost(w as nat),
        );
        proof {
            reveal(round_state);
            reveal(round_evs);
            assert(next == round_state(idx, st, w));
            assert(region@ =~= old(region)@ + round_evs(idx, st, w));
        }
        next
    }

    /// Runs all 64 rounds over one message schedule, consuming each state
    /// and producing the next; A and E are freshly decomposed each round,
    /// every other word is inherited from the round before.
    #[verifier::rlimit(100)]
    #[verifier::spinoff_prover]
    pub fn compress(&self, region: &mut Region, state: State, schedule: [u32; 64]) -> (r: State)
        requires
            self.wf(),
            state.wf(),
            state.known(),
        ensures
            r.wf(),
            r.known(),
            r.vals() == compress_spec(state.vals(), sched_vals(schedule@)),
            r == compress_states(state, schedule@, 64),
            final(region)@ == old(region)@ + compress_trace(state, schedule@, 64),
    {
        let mut st = state;
        let mut idx: usize = 0;
        proof {
            assert(region@ =~= old(region)@ + compress_trace(state, schedule@, 0));
        }
        while idx < 64
            invariant
                self.wf(),
                st.wf(),
                st.known(),
                idx <= 64,
                st.vals() == rounds_spec(state.vals(), sched_vals(schedule@), idx as nat),
                st == compress_states(state, schedule@, idx as nat),
                region@ == old(region)@ + compress_trace(state, schedule@, idx as nat),
            decreases 64 - idx,
        {
            let ghost st_before = st;
            let ghost trace_before = region@;
            st = self.round(region, idx, st, schedule[idx]);
            proof {
                assert(sched_vals(schedule@)[idx as int] == schedule@[idx as int] as nat);
                assert(compress_states(state, schedule@, (idx + 1) as nat) == round_state(
                    idx,
                    st_before,
                    schedule@[idx as int],
                ));
                assert(region@ =~= old(region)@ + compress_trace(
                    state,
                    schedule@,
                    (idx + 1) as nat,
                ));
            }
            idx = idx + 1;
        }
        st
    }

    /// The eight dense word values of a fully known state.
    #[verifier::rlimit(100)]
    #[verifier::spinoff_prover]
    fn read_state_words(state: State) -> (w: [u32; 8])
        requires
            state.shape_wf(),
            state.known(),
        ensures
            w@[0] as nat == state.vals()[0],
            w@[1] as nat == state.vals()[1],
            w@[2] as nat == state.vals()[2],
            w@[3] as nat == state.vals()[3],
            w@[4] as nat == state.vals()[4],
            w@[5] as nat == state.vals()[5],
            w@[6] as nat == state.vals()[6],
            w@[7] as nat == state.vals()[7],
    {
        let (a, b, c, d, e, f, g, h) = match_state(state);
        let wa = val_from_dense_halves(a.dense_halves).unwrap();
        let wb = val_from_dense_halves(b.dense_halves).unwrap();
        let wc = val_from_dense_halves(c.dense_halves).unwrap();
        let wd = val_from_dense_halves(d.dense_halves).unwrap();
        let we = val_from_dense_halves(e.dense_halves).unwrap();
        let wf = val_from_dense_halves(f.dense_halves).unwrap();
        let wg = val_from_dense_halves(g.dense_halves).unwrap();
        let wh = val_from_dense_halves(h.dense_halves).unwrap();
        proof {
            assert(wa as nat == state.vals()[0]);
            assert(wb as nat == state.vals()[1]);
            assert(wc as nat == state.vals()[2]);
            assert(wd as nat == state.vals()[3]);
            assert(we as nat == state.vals()[4]);
            assert(wf as nat == state.vals()[5]);
            assert(wg as nat == state.vals()[6]);
            assert(wh as nat == state.vals()[7]);
        }
        let w: [u32; 8] = [wa, wb, wc, wd, we, wf, wg, wh];
        proof {
            assert(w@[0] == wa && w@[1] == wb && w@[2] == wc && w@[3] == wd && w@[4] == we
                && w@[5] == wf && w@[6] == wg && w@[7] == wh);
        }
        w
    }

    /// The Digest subregion: the word-wise modular sum of the IV state and
    /// the compressed state, producing the eight output words.
    #[verifier::rlimit(100)]
    #[verifier::spinoff_prover]
    pub fn finalize_digest(
        &self,
        region: &mut Region,
        iv_state: State,
        compressed_state: State,
    ) -> (digest: [u32; 8])
        requires
            self.wf(),
            iv_state.shape_wf(),
            iv_state.known(),
            compressed_state.shape_wf(),
            compressed_state.known(),
        ensures
            forall|i: int|
                0 <= i < 8 ==> #[trigger] (digest@[i] as nat) == (iv_state.vals()[i]
                    + compressed_state.vals()[i]) % pow2(32),
            digest@.len() == 8,
            final(region)@ == old(region)@ + digest_evs(iv_state, compressed_state),
    {
        let ws1 = Self::read_state_words(iv_state);
        let ws2 = Self::read_state_words(compressed_state);

        let abcd_row = get_digest_abcd_row();
        let efgh_row = get_digest_efgh_row();
        region.assign_fixed(S_DIGEST, abcd_row);
        region.assign_fixed(S_DIGEST, efgh_row);

        let a_3 = self.extras[0];
        let a_4 = self.extras[1];
        let a_6 = self.extras[2];
        let a_7 = self.extras[3];

        let d0 = add_mod32(ws1[0], ws2[0]);
        let d1 = add_mod32(ws1[1], ws2[1]);
        let d2 = add_mod32(ws1[2], ws2[2]);
        let d3 = add_mod32(ws1[3], ws2[3]);
        let d4 = add_mod32(ws1[4], ws2[4]);
        let d5 = add_mod32(ws1[5], ws2[5]);
        let d6 = add_mod32(ws1[6], ws2[6]);
        let d7 = add_mod32(ws1[7], ws2[7]);

        let _c0 = self.assign_word_halves_dense(region, abcd_row, a_3, abcd_row + 1, a_3, Some(d0));
        let _c1 = self.assign_word_halves_dense(region, abcd_row, a_4, abcd_row + 1, a_4, Some(d1));
        let _c2 = self.assign_word_halves_dense(region, abcd_row, a_6, abcd_row + 1, a_6, Some(d2));
        let _c3 = self.assign_word_halves_dense(region, abcd_row, a_7, abcd_row + 1, a_7, Some(d3));
        let _c4 = self.assign_word_halves_dense(region, efgh_row, a_3, efgh_row + 1, a_3, Some(d4));
        let _c5 = self.assign_word_halves_dense(region, efgh_row, a_4, efgh_row + 1, a_4, Some(d5));
        let _c6 = self.assign_word_halves_dense(region, efgh_row, a_6, efgh_row + 1, a_6, Some(d6));
        let _c7 = self.assign_word_halves_dense(region, efgh_row, a_7, efgh_row + 1, a_7, Some(d7));

        let digest: [u32; 8] = [d0, d1, d2, d3, d4, d5, d6, d7];
        proof {
            let v1 = iv_state.vals();
            let v2 = compressed_state.vals();
            assert(digest@[0] == d0 && digest@[1] == d1 && digest@[2] == d2 && digest@[3] == d3
                && digest@[4] == d4 && digest@[5] == d5 && digest@[6] == d6 && digest@[7] == d7);
            assert(d0 as nat == (v1[0] + v2[0]) % pow2(32));
            assert(d1 as nat == (v1[1] + v2[1]) % pow2(32));
            assert(d2 as nat == (v1[2] + v2[2]) % pow2(32));
            assert(d3 as nat == (v1[3] + v2[3]) % pow2(32));
            assert(d4 as nat == (v1[4] + v2[4]) % pow2(32));
            assert(d5 as nat == (v1[5] + v2[5]) % pow2(32));
            assert(d6 as nat == (v1[6] + v2[6]) % pow2(32));
            assert(d7 as nat == (v1[7] + v2[7]) % pow2(32));
            reveal(digest_evs);
            assert(Some(d0) == digest_word_of(iv_state, compressed_state, 0));
            assert(Some(d1) == digest_word_of(iv_state, compressed_state, 1));
            assert(Some(d2) == digest_word_of(iv_state, compressed_state, 2));
            assert(Some(d3) == digest_word_of(iv_state, compressed_state, 3));
            assert(Some(d4) == digest_word_of(iv_state, compressed_state, 4));
            assert(Some(d5) == digest_word_of(iv_state, compressed_state, 5));
            assert(Some(d6) == digest_word_of(iv_state, compressed_state, 6));
            assert(Some(d7) == digest_word_of(iv_state, compressed_state, 7));
            assert(region@ =~= old(region)@ + digest_evs(iv_state, compressed_state));
        }
        digest
    }
}

/// The fixed A-word piece widths, low piece first.
pub open spec fn abcd_widths() -> Seq<u32> {
    seq![2u32, 11, 3, 3, 3, 10]
}

/// The fixed E-word piece widths, low piece first.
pub open spec fn efgh_widths() -> Seq<u32> {
    seq![3u32, 3, 2, 3, 14, 7]
}

/// Decomposing a 32-bit word into either fixed piece-width list and
/// weighted-recombining the pieces returns the word.
pub proof fn lemma_decompose_recombine(w: nat)
    requires
        w < pow2(32),
    ensures
        recombined(abcd_widths(), chopped(w, abcd_widths())) == w,
        recombined(efgh_widths(), chopped(w, efgh_widths())) == w,
{
    reveal_with_fuel(total_width, 8);
    assert(forall|i: int| 0 <= i < abcd_widths().len() ==> #[trigger] abcd_widths()[i] <= 31)
        by {
        assert(abcd_widths()[0] == 2 && abcd_widths()[1] == 11 && abcd_widths()[2] == 3
            && abcd_widths()[3] == 3 && abcd_widths()[4] == 3 && abcd_widths()[5] == 10);
    }
    assert(forall|i: int| 0 <= i < efgh_widths().len() ==> #[trigger] efgh_widths()[i] <= 31)
        by {
        assert(efgh_widths()[0] == 3 && efgh_widths()[1] == 3 && efgh_widths()[2] == 2
            && efgh_widths()[3] == 3 && efgh_widths()[4] == 14 && efgh_widths()[5] == 7);
    }
    lemma_chopped_props(w, abcd_widths());
    lemma_chopped_props(w, efgh_widths());
    lemma_total_width_six(abcd_widths());
    lemma_total_width_six(efgh_widths());
    lemma_small_mod(w, pow2(32));
}

/// The covered width of a six-entry width list, written out.
proof fn lemma_total_width_six(ws: Seq<u32>)
    requires
        ws.len() == 6,
    ensures
        total_width(ws) == ws[0] + ws[1] + ws[2] + ws[3] + ws[4] + ws[5],
{
    reveal_with_fuel(total_width, 8);
    let w1 = ws.drop_first();
    let w2 = w1.drop_first();
    let w3 = w2.drop_first();
    let w4 = w3.drop_first();
    let w5 = w4.drop_first();
    let w6 = w5.drop_first();
    assert(w6.len() == 0);
    assert(w1[0] == ws[1] && w2[0] == ws[2] && w3[0] == ws[3] && w4[0] == ws[4]
        && w5[0] == ws[5]);
}

/// Compressing identical state and schedule values twice yields identical
/// results: the compression and digest maps are functions of their inputs
/// alone, so every cell the construction pins down is identical as well.
pub proof fn lemma_compress_deterministic(
    st1: Seq<nat>,
    ws1: Seq<nat>,
    st2: Seq<nat>,
    ws2: Seq<nat>,
)
    requires
        st1 == st2,
        ws1 == ws2,
    ensures
        compress_spec(st1, ws1) == compress_spec(st2, ws2),
        digest_spec(st1, compress_spec(st1, ws1)) == digest_spec(st2, compress_spec(st2, ws2)),
{
}

/// Cell-for-cell determinism: two compressions from identical states and
/// schedules append the identical event trace to the table and hand on
/// identical states, cell positions and witness values alike; with
/// `initialize` and `finalize_digest` pinned to `init_evs` and
/// `digest_evs`, the whole construction is one fixed table of its inputs.
pub proof fn lemma_compress_cells_deterministic(
    st1: State,
    ws1: Seq<u32>,
    st2: State,
    ws2: Seq<u32>,
)
    requires
        st1 == st2,
        ws1 == ws2,
    ensures
        compress_trace(st1, ws1, 64) == compress_trace(st2, ws2, 64),
        compress_states(st1, ws1, 64) == compress_states(st2, ws2, 64),
{
}

} // verus!
