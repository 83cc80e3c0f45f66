//! Fixed row layout of the compression table.
//!
//! Rows partition into one Init subregion (the `-1` round, which decomposes
//! the initialization vector), 64 Main subregions of `SUBREGION_MAIN_WORD`
//! rows each, and a 2-row Digest subregion. Every offset below is a pure
//! function of the round index alone; no offset ever depends on witness data.

use vstd::prelude::*;

verus! {

// Rows needed for each gate
pub const SIGMA_0_ROWS: usize = 4;
pub const SIGMA_1_ROWS: usize = 4;
pub const CH_ROWS: usize = 8;
pub const MAJ_ROWS: usize = 4;
pub const DECOMPOSE_ABCD: usize = 2;
pub const DECOMPOSE_EFGH: usize = 2;

// Rows needed for the main subregion
pub const SUBREGION_MAIN_LEN: usize = 64;
pub const SUBREGION_MAIN_WORD: usize =
    DECOMPOSE_ABCD + SIGMA_0_ROWS + DECOMPOSE_EFGH + SIGMA_1_ROWS + CH_ROWS + MAJ_ROWS;
pub const SUBREGION_MAIN_ROWS: usize = SUBREGION_MAIN_LEN * SUBREGION_MAIN_WORD;

/// Returns the starting row number of a compression round.
pub fn get_round_row(round_idx: i32) -> (r: usize)
    requires
        -1 <= round_idx < 64,
    ensures
        r == if round_idx == -1 { 0int } else { 24 * round_idx },
{
    if round_idx == -1 {
        // Init subregion
        0
    } else {
        // Main subregion
        (round_idx as usize) * SUBREGION_MAIN_WORD
    }
}

pub fn get_decompose_e_row(round_idx: i32) -> (r: usize)
    requires
        -1 <= round_idx < 64,
    ensures
        r == if round_idx == -1 { 0int } else { 24 * round_idx },
{
    get_round_row(round_idx)
}

pub fn get_decompose_f_row(round_idx: i32) -> (r: usize)
    requires
        round_idx == -1,
    ensures
        r == 2,
{
    get_decompose_e_row(round_idx) + DECOMPOSE_EFGH
}

pub fn get_decompose_g_row(round_idx: i32) -> (r: usize)
    requires
        round_idx == -1,
    ensures
        r == 4,
{
    get_decompose_f_row(round_idx) + DECOMPOSE_EFGH
}

pub fn get_upper_sigma_1_row(round_idx: i32) -> (r: usize)
    requires
        0 <= round_idx < 64,
    ensures
        r == 24 * round_idx + 3,
{
    get_decompose_e_row(round_idx) + DECOMPOSE_EFGH + 1
}

pub fn get_ch_row(round_idx: i32) -> (r: usize)
    requires
        0 <= round_idx < 64,
    ensures
        r == 24 * round_idx + 7,
{
    get_decompose_e_row(round_idx) + DECOMPOSE_EFGH + SIGMA_1_ROWS + 1
}

pub fn get_ch_neg_row(round_idx: i32) -> (r: usize)
    requires
        0 <= round_idx < 64,
    ensures
        r == 24 * round_idx + 11,
{
    get_ch_row(round_idx) + CH_ROWS / 2
}

pub fn get_decompose_a_row(round_idx: i32) -> (r: usize)
    requires
        -1 <= round_idx < 64,
    ensures
        r == if round_idx == -1 { 8int } else { 24 * round_idx + 14 },
{
    if round_idx == -1 {
        get_h_row(round_idx) + DECOMPOSE_EFGH
    } else {
        get_ch_neg_row(round_idx) - 1 + CH_ROWS / 2
    }
}

pub fn get_upper_sigma_0_row(round_idx: i32) -> (r: usize)
    requires
        0 <= round_idx < 64,
    ensures
        r == 24 * round_idx + 17,
{
    get_decompose_a_row(round_idx) + DECOMPOSE_ABCD + 1
}

pub fn get_decompose_b_row(round_idx: i32) -> (r: usize)
    requires
        round_idx == -1,
    ensures
        r == 10,
{
    get_decompose_a_row(round_idx) + DECOMPOSE_ABCD
}

pub fn get_decompose_c_row(round_idx: i32) -> (r: usize)
    requires
        round_idx == -1,
    ensures
        r == 12,
{
    get_decompose_b_row(round_idx) + DECOMPOSE_ABCD
}

pub fn get_maj_row(round_idx: i32) -> (r: usize)
    requires
        0 <= round_idx < 64,
    ensures
        r == 24 * round_idx + 21,
{
    get_upper_sigma_0_row(round_idx) + SIGMA_0_ROWS
}

// Get state word rows
pub fn get_h_row(round_idx: i32) -> (r: usize)
    requires
        -1 <= round_idx < 64,
    ensures
        r == if round_idx == -1 { 6int } else { 24 * round_idx + 6 },
{
    if round_idx == -1 {
        get_decompose_g_row(round_idx) + DECOMPOSE_EFGH
    } else {
        get_ch_row(round_idx) - 1
    }
}

pub fn get_h_prime_row(round_idx: i32) -> (r: usize)
    requires
        0 <= round_idx < 64,
    ensures
        r == 24 * round_idx + 7,
{
    get_ch_row(round_idx)
}

pub fn get_d_row(round_idx: i32) -> (r: usize)
    requires
        -1 <= round_idx < 64,
    ensures
        r == if round_idx == -1 { 14int } else { 24 * round_idx + 9 },
{
    if round_idx == -1 {
        get_decompose_c_row(round_idx) + DECOMPOSE_ABCD
    } else {
        get_ch_row(round_idx) + 2
    }
}

pub fn get_e_new_row(round_idx: i32) -> (r: usize)
    requires
        0 <= round_idx < 64,
    ensures
        r == 24 * round_idx + 9,
{
    get_d_row(round_idx)
}

pub fn get_a_new_row(round_idx: i32) -> (r: usize)
    requires
        0 <= round_idx < 64,
    ensures
        r == 24 * round_idx + 21,
{
    get_maj_row(round_idx)
}

pub fn get_digest_abcd_row() -> (r: usize)
    ensures
        r == 1536,
{
    SUBREGION_MAIN_ROWS
}

pub fn get_digest_efgh_row() -> (r: usize)
    ensures
        r == 1538,
{
    get_digest_abcd_row() + 2
}

} // verus!
