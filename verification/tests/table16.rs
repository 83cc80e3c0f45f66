use sha256_table16::cells::Region;
use sha256_table16::compression::CompressionConfig;
use sha256_table16::driver::ROUND_CONSTANTS;
use sha256_table16::rows::{
    get_a_new_row, get_ch_neg_row, get_ch_row, get_d_row, get_decompose_a_row,
    get_decompose_b_row, get_decompose_c_row, get_decompose_e_row, get_decompose_f_row,
    get_decompose_g_row, get_digest_abcd_row, get_digest_efgh_row, get_e_new_row, get_h_prime_row,
    get_h_row, get_maj_row, get_round_row, get_upper_sigma_0_row, get_upper_sigma_1_row,
    SUBREGION_MAIN_ROWS, SUBREGION_MAIN_WORD,
};
use sha256_table16::table::build_spread_table;
use sha256_table16::util::{
    chop_u32, get_even_and_odd_bits_u32, interleave_u16_with_zeros, sum_with_carry, MASK_EVEN_32,
};
use sha256_table16::words::val_from_dense_halves;
use sha256_table16::cells::{CellValue16, Event};

#[test]
fn it_works() {
    assert_eq!(2 + 2, 4);
}

// Reference spread: bit i of the dense input contributes 4^i.
fn spread_ref(x: u16) -> u32 {
    let mut r: u32 = 0;
    for i in 0..16 {
        if (x >> i) & 1 == 1 {
            r |= 1 << (2 * i);
        }
    }
    r
}

#[test]
fn spread_matches_bit_doubling_sum() {
    for x in [0u16, 1, 2, 3, 0x1234, 0xABCD, 0x8000, 0xFFFF] {
        assert_eq!(interleave_u16_with_zeros(x), spread_ref(x));
    }
    assert_eq!(interleave_u16_with_zeros(0xFFFF), MASK_EVEN_32);
    assert_eq!(interleave_u16_with_zeros(0), 0);
}

#[test]
fn even_and_odd_bits_invert_spread() {
    for x in [0u16, 5, 0x1234, 0xFFFF] {
        let s = interleave_u16_with_zeros(x);
        let (even, odd) = get_even_and_odd_bits_u32(s);
        assert_eq!(even, x);
        assert_eq!(odd, 0);
    }
    let (even, odd) = get_even_and_odd_bits_u32(0xFFFF_FFFF);
    assert_eq!(even, 0xFFFF);
    assert_eq!(odd, 0xFFFF);
}

fn recombine(pieces: &[u32], widths: &[u32]) -> u32 {
    let mut acc: u64 = 0;
    let mut off: u32 = 0;
    for (p, w) in pieces.iter().zip(widths.iter()) {
        acc += (*p as u64) << off;
        off += w;
    }
    acc as u32
}

#[test]
fn decompose_and_recombine_round_trips() {
    let abcd = vec![2u32, 11, 3, 3, 3, 10];
    let efgh = vec![3u32, 3, 2, 3, 14, 7];
    for w in [0u32, 1, 0x6a09e667, 0x510e527f, 0xFFFF_FFFF, 0x1234_5678] {
        let pa = chop_u32(w, &abcd);
        assert_eq!(recombine(&pa, &abcd), w);
        let pe = chop_u32(w, &efgh);
        assert_eq!(recombine(&pe, &efgh), w);
    }
}

#[test]
fn swapped_widths_never_crash_but_break_recombination() {
    // Feeding the A-word decomposition the E-word's width set must not
    // crash: chopping is structurally total. The mismatch surfaces only
    // as a recombination that the other width set's weights reject.
    let abcd = vec![2u32, 11, 3, 3, 3, 10];
    let efgh = vec![3u32, 3, 2, 3, 14, 7];
    let w: u32 = 0x1234_5678;
    let tampered = chop_u32(w, &efgh);
    assert_eq!(tampered.len(), 6);
    assert_eq!(recombine(&tampered, &efgh), w);
    assert_ne!(recombine(&tampered, &abcd), w);
}

#[test]
fn sum_with_carry_tracks_quotient() {
    let r = sum_with_carry(vec![
        (Some(0xFFFFu16), Some(0xFFFFu16)),
        (Some(1u16), Some(0u16)),
    ]);
    assert_eq!(r.0, Some(0u32));
    assert_eq!(r.1, Some(1u64));

    let r = sum_with_carry(vec![(Some(3u16), Some(0u16)), (Some(4u16), Some(2u16))]);
    assert_eq!(r.0, Some(7 + (2 << 16)));
    assert_eq!(r.1, Some(0));

    // Six operands, as H' uses them.
    let ops = vec![
        (Some(0xFFFFu16), Some(0xFFFFu16)),
        (Some(0xFFFFu16), Some(0xFFFFu16)),
        (Some(0xFFFFu16), Some(0xFFFFu16)),
        (Some(0xFFFFu16), Some(0xFFFFu16)),
        (Some(0xFFFFu16), Some(0xFFFFu16)),
        (Some(0xFFFFu16), Some(0xFFFFu16)),
    ];
    let total: u64 = 6 * 0xFFFF_FFFFu64;
    let r = sum_with_carry(ops);
    assert_eq!(r.0, Some((total % (1 << 32)) as u32));
    assert_eq!(r.1, Some(total >> 32));

    // One unknown operand makes both outputs unknown.
    let r = sum_with_carry(vec![(Some(1u16), Some(1u16)), (None, Some(2u16))]);
    assert_eq!(r.0, None);
    assert_eq!(r.1, None);
}

#[test]
fn row_layout_is_fixed() {
    assert_eq!(SUBREGION_MAIN_WORD, 24);
    assert_eq!(SUBREGION_MAIN_ROWS, 1536);
    assert_eq!(get_round_row(-1), 0);
    assert_eq!(get_round_row(0), 0);
    assert_eq!(get_round_row(7), 168);
    assert_eq!(get_decompose_e_row(3), 72);
    assert_eq!(get_decompose_f_row(-1), 2);
    assert_eq!(get_decompose_g_row(-1), 4);
    assert_eq!(get_h_row(-1), 6);
    assert_eq!(get_decompose_a_row(-1), 8);
    assert_eq!(get_decompose_b_row(-1), 10);
    assert_eq!(get_decompose_c_row(-1), 12);
    assert_eq!(get_d_row(-1), 14);
    assert_eq!(get_upper_sigma_1_row(0), 3);
    assert_eq!(get_ch_row(0), 7);
    assert_eq!(get_ch_neg_row(0), 11);
    assert_eq!(get_decompose_a_row(0), 14);
    assert_eq!(get_upper_sigma_0_row(0), 17);
    assert_eq!(get_maj_row(0), 21);
    assert_eq!(get_h_prime_row(2), 55);
    assert_eq!(get_d_row(2), 57);
    assert_eq!(get_e_new_row(2), 57);
    assert_eq!(get_a_new_row(63), 24 * 63 + 21);
    assert_eq!(get_digest_abcd_row(), 1536);
    assert_eq!(get_digest_efgh_row(), 1538);
}

#[test]
fn spread_table_entries() {
    let t = build_spread_table();
    assert_eq!(t.len(), 0x10000);
    assert_eq!(t[0], (0, 0, 0));
    assert_eq!(t[1], (0, 1, 1));
    assert_eq!(t[0x7F], (0, 0x7F, spread_ref(0x7F)));
    assert_eq!(t[0x80], (1, 0x80, 0x4000));
    assert_eq!(t[0x400], (2, 0x400, spread_ref(0x400)));
    assert_eq!(t[0x800], (3, 0x800, spread_ref(0x800)));
    assert_eq!(t[0x2000], (4, 0x2000, spread_ref(0x2000)));
    assert_eq!(t[0x4000], (5, 0x4000, spread_ref(0x4000)));
    assert_eq!(t[0xFFFF], (5, 0xFFFF, 0x5555_5555));
}

#[test]
fn gates_compute_the_boolean_functions() {
    let config = CompressionConfig::new();
    let mut region = Region::new();

    let a: u32 = 0x6a09_e667;
    let b: u32 = 0xbb67_ae85;
    let c: u32 = 0x3c6e_f372;
    let e: u32 = 0x510e_527f;
    let f: u32 = 0x9b05_688c;
    let g: u32 = 0x1f83_d9ab;

    let wa = config.decompose_a(&mut region, -1, Some(a));
    let wb = config.decompose_a(&mut region, -1, Some(b));
    let wc = config.decompose_a(&mut region, -1, Some(c));
    let we = config.decompose_e(&mut region, -1, Some(e));
    let wf = config.decompose_e(&mut region, -1, Some(f));
    let wg = config.decompose_e(&mut region, -1, Some(g));

    let sigma0 = config.assign_upper_sigma_0(&mut region, 0, wa.pieces);
    let expected_sigma0 = a.rotate_right(2) ^ a.rotate_right(13) ^ a.rotate_right(22);
    assert_eq!(val_from_dense_halves(sigma0), Some(expected_sigma0));

    let sigma1 = config.assign_upper_sigma_1(&mut region, 0, we.pieces);
    let expected_sigma1 = e.rotate_right(6) ^ e.rotate_right(11) ^ e.rotate_right(25);
    assert_eq!(val_from_dense_halves(sigma1), Some(expected_sigma1));

    let ch = config.assign_ch(&mut region, 0, we.spread_halves, wf.spread_halves);
    assert_eq!(val_from_dense_halves(ch), Some(e & f));

    let ch_neg = config.assign_ch_neg(&mut region, 0, we.spread_halves, wg.spread_halves);
    assert_eq!(val_from_dense_halves(ch_neg), Some(!e & g));

    // The two halves sum to SHA-256's Ch, since their supports are disjoint.
    let full_ch = (e & f).wrapping_add(!e & g);
    assert_eq!(full_ch, (e & f) ^ (!e & g));

    let maj = config.assign_maj(
        &mut region,
        0,
        wa.spread_halves,
        wb.spread_halves,
        wc.spread_halves,
    );
    let expected_maj = (a & b) ^ (a & c) ^ (b & c);
    assert_eq!(val_from_dense_halves(maj), Some(expected_maj));
}

#[test]
fn unknown_witness_mode_propagates() {
    let config = CompressionConfig::new();
    let mut region = Region::new();

    let wa = config.decompose_a(&mut region, -1, None);
    let we = config.decompose_e(&mut region, -1, None);
    assert_eq!(val_from_dense_halves(wa.dense_halves), None);
    assert_eq!(val_from_dense_halves(we.dense_halves), None);

    let sigma0 = config.assign_upper_sigma_0(&mut region, 0, wa.pieces);
    assert_eq!(val_from_dense_halves(sigma0), None);

    let ch = config.assign_ch(&mut region, 0, we.spread_halves, we.spread_halves);
    assert_eq!(val_from_dense_halves(ch), None);
}

const IV: [u32; 8] = [
    0x6a09e667, 0xbb67ae85, 0x3c6ef372, 0xa54ff53a, 0x510e527f, 0x9b05688c, 0x1f83d9ab,
    0x5be0cd19,
];

// The expanded message schedule of one padded block.
fn message_schedule(block: [u32; 16]) -> [u32; 64] {
    let mut w = [0u32; 64];
    w[..16].copy_from_slice(&block);
    for i in 16..64 {
        let s0 = w[i - 15].rotate_right(7) ^ w[i - 15].rotate_right(18) ^ (w[i - 15] >> 3);
        let s1 = w[i - 2].rotate_right(17) ^ w[i - 2].rotate_right(19) ^ (w[i - 2] >> 10);
        w[i] = w[i - 16]
            .wrapping_add(s0)
            .wrapping_add(w[i - 7])
            .wrapping_add(s1);
    }
    w
}

#[test]
fn compresses_abc_to_the_known_digest() {
    let mut block = [0u32; 16];
    block[0] = 0x61626380;
    block[15] = 24;
    let schedule = message_schedule(block);

    let config = CompressionConfig::new();
    let mut region = Region::new();
    let init = config.initialize(&mut region, IV);
    let compressed = config.compress(&mut region, init, schedule);
    let digest = config.finalize_digest(&mut region, init, compressed);

    assert_eq!(
        digest,
        [
            0xBA7816BF, 0x8F01CFEA, 0x414140DE, 0x5DAE2223, 0xB00361A3, 0x96177A9C, 0xB410FF61,
            0xF20015AD,
        ]
    );
}

#[test]
fn identical_inputs_build_identical_tables() {
    let mut block = [0u32; 16];
    block[0] = 0x61626380;
    block[15] = 24;
    let schedule = message_schedule(block);
    let config = CompressionConfig::new();

    let mut region1 = Region::new();
    let init1 = config.initialize(&mut region1, IV);
    let out1 = config.compress(&mut region1, init1, schedule);
    let digest1 = config.finalize_digest(&mut region1, init1, out1);

    let mut region2 = Region::new();
    let init2 = config.initialize(&mut region2, IV);
    let out2 = config.compress(&mut region2, init2, schedule);
    let digest2 = config.finalize_digest(&mut region2, init2, out2);

    assert_eq!(digest1, digest2);
    assert_eq!(region1.events.len(), region2.events.len());
    let (a1, .., h1) = sha256_table16::words::match_state(out1);
    let (a2, .., h2) = sha256_table16::words::match_state(out2);
    assert_eq!(
        val_from_dense_halves(a1.dense_halves),
        val_from_dense_halves(a2.dense_halves)
    );
    assert_eq!(
        val_from_dense_halves(h1.dense_halves),
        val_from_dense_halves(h2.dense_halves)
    );
}

#[test]
fn carry_cells_are_recorded_in_the_table() {
    let config = CompressionConfig::new();
    let mut region = Region::new();
    let hp = (
        CellValue16::new(0, 0, Some(0xFFFFu16)),
        CellValue16::new(0, 1, Some(0xFFFFu16)),
    );
    let s0 = (
        CellValue16::new(1, 0, Some(0xFFFFu16)),
        CellValue16::new(1, 1, Some(0xFFFFu16)),
    );
    let mj = (
        CellValue16::new(2, 0, Some(2u16)),
        CellValue16::new(2, 1, Some(0u16)),
    );
    // S = 2 * 0xFFFFFFFF + 2 = 0x2_0000_0000: result 0, carry 2.
    let r = config.assign_a_new(&mut region, 0, mj, s0, hp);
    assert_eq!(val_from_dense_halves(r), Some(0));
    // The last recorded event is the explicit carry cell at (A_9, row 21).
    match region.events.last().unwrap() {
        Event::Advice { col, row, value } => {
            assert_eq!(*col, 9);
            assert_eq!(*row, 21);
            assert_eq!(*value, Some(2u64));
        },
        _ => panic!("A_new ends with its carry cell"),
    }
}

#[test]
fn round_constants_are_the_protocol_constants() {
    assert_eq!(ROUND_CONSTANTS[0], 0x428a2f98);
    assert_eq!(ROUND_CONSTANTS[63], 0xc67178f2);
    assert_eq!(ROUND_CONSTANTS.len(), 64);
}
