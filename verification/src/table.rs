//! The spread lookup table and the cells assigned through it.
//!
//! The table holds one row per 16-bit dense value: its range tag, the dense
//! value, and its spread form. Sub-word pieces share the table through the
//! tag column, which upper-bounds a row's dense width so that narrower
//! pieces can be range-checked against the same table.

use vstd::prelude::*;
use crate::cells::{A_0, A_1, A_2, CellValue16, CellValue32, Event, Region};
use crate::spread::spread;
use crate::util::interleave_u16_with_zeros;

verus! {

/// The range tag of a dense value: the index of the smallest supported
/// piece width that still holds it. Widths 7, 10, 11, 13 and 14 are the
/// protocol's piece widths above 3 bits; everything else uses the full
/// 16-bit rows.
pub open spec fn tag_of(d: nat) -> nat {
    if d < 0x80 {
        0
    } else if d < 0x400 {
        1
    } else if d < 0x800 {
        2
    } else if d < 0x2000 {
        3
    } else if d < 0x4000 {
        4
    } else {
        5
    }
}

/// The spread word a dense value (or an unknown) assigns: its range tag,
/// the value itself, and its spread form.
pub open spec fn sw_of(v: Option<u16>) -> Option<SpreadWord> {
    match v {
        Some(d) => Some(
            SpreadWord {
                tag: tag_of(d as nat) as u16,
                dense: d,
                spread: spread(d as nat) as u32,
            },
        ),
        None => None,
    }
}

/// A dense 16-bit word with its tag and spread form, before assignment.
#[derive(Clone, Copy, Debug)]
pub struct SpreadWord {
    pub tag: u16,
    pub dense: u16,
    pub spread: u32,
}

impl SpreadWord {
    /// The stored spread and tag match the dense value.
    pub open spec fn wf(self) -> bool {
        &&& self.spread as nat == spread(self.dense as nat)
        &&& self.tag as nat == tag_of(self.dense as nat)
    }

    pub fn new(dense: u16) -> (w: SpreadWord)
        ensures
            w.wf(),
            w.dense == dense,
            Some(w) == sw_of(Some(dense)),
    {
        let tag: u16 = if dense < 0x80 {
            0
        } else if dense < 0x400 {
            1
        } else if dense < 0x800 {
            2
        } else if dense < 0x2000 {
            3
        } else if dense < 0x4000 {
            4
        } else {
            5
        };
        SpreadWord { tag, dense, spread: interleave_u16_with_zeros(dense) }
    }

    pub fn opt_new(dense: Option<u16>) -> (w: Option<SpreadWord>)
        ensures
            w == sw_of(dense),
            match dense {
                Some(d) => w is Some && w->0.wf() && w->0.dense == d,
                None => w is None,
            },
    {
        match dense {
            Some(d) => Some(SpreadWord::new(d)),
            None => None,
        }
    }
}

/// Builds the read-only (tag, dense, spread) table shared by every
/// compression invocation: one row for each dense value of the table's
/// fixed 16-bit width.
pub fn build_spread_table() -> (t: Vec<(u16, u16, u32)>)
    ensures
        t@.len() == 0x10000,
        forall|d: int|
            0 <= d < 0x10000 ==> #[trigger] t@[d] == (
                tag_of(d as nat) as u16,
                d as u16,
                spread(d as nat) as u32,
            ),
{
    let mut t: Vec<(u16, u16, u32)> = Vec::new();
    let mut d: u32 = 0;
    while d < 0x10000
        invariant
            d <= 0x10000,
            t@.len() == d,
            forall|j: int|
                0 <= j < d ==> #[trigger] t@[j] == (
                    tag_of(j as nat) as u16,
                    j as u16,
                    spread(j as nat) as u32,
                ),
        decreases 0x10000 - d,
    {
        let w = SpreadWord::new(d as u16);
        t.push((w.tag, w.dense, w.spread));
        d = d + 1;
    }
    t
}

/// A (dense, spread) cell pair, backed either by a table lookup or by a
/// plain assignment whose correctness a consuming gate enforces.
#[derive(Clone, Copy, Debug)]
pub struct SpreadVar {
    pub tag: u16,
    pub dense: CellValue16,
    pub spread: CellValue32,
}

impl SpreadVar {
    /// Whether the pair carries a known witness value.
    pub open spec fn known(self) -> bool {
        self.dense.value is Some
    }

    /// The dense witness value.
    pub open spec fn dense_val(self) -> nat {
        self.dense.value->0 as nat
    }

    /// The spread witness value.
    pub open spec fn spread_val(self) -> nat {
        self.spread.value->0 as nat
    }

    /// The spread cell's value is the spread of the dense cell's value,
    /// and both sides of the pair are known together.
    pub open spec fn wf(self) -> bool {
        &&& self.dense.value is Some <==> self.spread.value is Some
        &&& self.known() ==> self.spread_val() == spread(self.dense_val())
    }

    /// The pair a lookup-backed assignment at `row` returns.
    pub open spec fn lookup_var(row: usize, word: Option<SpreadWord>) -> SpreadVar {
        match word {
            Some(w) => SpreadVar {
                tag: w.tag,
                dense: CellValue16 { col: A_1, row, value: Some(w.dense) },
                spread: CellValue32 { col: A_2, row, value: Some(w.spread) },
            },
            None => SpreadVar {
                tag: 0,
                dense: CellValue16 { col: A_1, row, value: None },
                spread: CellValue32 { col: A_2, row, value: None },
            },
        }
    }

    /// The pair a copy-backed assignment returns.
    pub open spec fn plain_var(
        dense_col: usize,
        dense_row: usize,
        spread_col: usize,
        spread_row: usize,
        word: Option<SpreadWord>,
    ) -> SpreadVar {
        match word {
            Some(w) => SpreadVar {
                tag: w.tag,
                dense: CellValue16 { col: dense_col, row: dense_row, value: Some(w.dense) },
                spread: CellValue32 { col: spread_col, row: spread_row, value: Some(w.spread) },
            },
            None => SpreadVar {
                tag: 0,
                dense: CellValue16 { col: dense_col, row: dense_row, value: None },
                spread: CellValue32 { col: spread_col, row: spread_row, value: None },
            },
        }
    }

    /// The events of a lookup-backed assignment at `row`.
    pub open spec fn lookup_evs(row: usize, word: Option<SpreadWord>) -> Seq<Event> {
        match word {
            Some(w) => seq![
                Event::Advice { col: A_0, row, value: Some(w.tag as u64) },
                Event::Advice { col: A_1, row, value: Some(w.dense as u64) },
                Event::Advice { col: A_2, row, value: Some(w.spread as u64) },
                Event::Lookup { row },
            ],
            None => seq![
                Event::Advice { col: A_0, row, value: None },
                Event::Advice { col: A_1, row, value: None },
                Event::Advice { col: A_2, row, value: None },
                Event::Lookup { row },
            ],
        }
    }

    /// Assigns the pair into the lookup columns at `row` and asserts table
    /// membership for that row.
    pub fn with_lookup(region: &mut Region, row: usize, word: Option<SpreadWord>) -> (r: SpreadVar)
        requires
            word is Some ==> word->0.wf(),
        ensures
            r == Self::lookup_var(row, word),
            r.wf(),
            r.dense.col == A_1 && r.dense.row == row,
            r.spread.col == A_2 && r.spread.row == row,
            match word {
                Some(w) => r.dense.value == Some(w.dense) && r.spread.value == Some(w.spread)
                    && r.tag == w.tag,
                None => r.dense.value is None && r.spread.value is None,
            },
            final(region)@ == old(region)@ + Self::lookup_evs(row, word),
    {
        match word {
            Some(w) => {
                region.assign_advice(A_0, row, Some(w.tag as u64));
                region.assign_advice(A_1, row, Some(w.dense as u64));
                region.assign_advice(A_2, row, Some(w.spread as u64));
                region.add_lookup(row);
                proof {
                    assert(region@ =~= old(region)@ + Self::lookup_evs(row, word));
                }
                SpreadVar {
                    tag: w.tag,
                    dense: CellValue16 { col: A_1, row, value: Some(w.dense) },
                    spread: CellValue32 { col: A_2, row, value: Some(w.spread) },
                }
            },
            None => {
                region.assign_advice(A_0, row, None);
                region.assign_advice(A_1, row, None);
                region.assign_advice(A_2, row, None);
                region.add_lookup(row);
                proof {
                    assert(region@ =~= old(region)@ + Self::lookup_evs(row, word));
                }
                SpreadVar {
                    tag: 0,
                    dense: CellValue16 { col: A_1, row, value: None },
                    spread: CellValue32 { col: A_2, row, value: None },
                }
            },
        }
    }

    /// The events of a copy-backed assignment: the pair's two cells at
    /// their own positions, with no lookup row spent.
    pub open spec fn plain_evs(
        dense_col: usize,
        dense_row: usize,
        spread_col: usize,
        spread_row: usize,
        word: Option<SpreadWord>,
    ) -> Seq<Event> {
        match word {
            Some(w) => seq![
                Event::Advice { col: dense_col, row: dense_row, value: Some(w.dense as u64) },
                Event::Advice { col: spread_col, row: spread_row, value: Some(w.spread as u64) },
            ],
            None => seq![
                Event::Advice { col: dense_col, row: dense_row, value: None },
                Event::Advice { col: spread_col, row: spread_row, value: None },
            ],
        }
    }

    /// Assigns the pair without a lookup; a consuming gate's constraint
    /// covers its spread correctness indirectly.
    pub fn without_lookup(
        region: &mut Region,
        dense_col: usize,
        dense_row: usize,
        spread_col: usize,
        spread_row: usize,
        word: Option<SpreadWord>,
    ) -> (r: SpreadVar)
        requires
            word is Some ==> word->0.wf(),
        ensures
            r == Self::plain_var(dense_col, dense_row, spread_col, spread_row, word),
            r.wf(),
            r.dense.col == dense_col && r.dense.row == dense_row,
            r.spread.col == spread_col && r.spread.row == spread_row,
            match word {
                Some(w) => r.dense.value == Some(w.dense) && r.spread.value == Some(w.spread)
                    && r.tag == w.tag,
                None => r.dense.value is None && r.spread.value is None,
            },
            final(region)@ == old(region)@ + Self::plain_evs(
                dense_col,
                dense_row,
                spread_col,
                spread_row,
                word,
            ),
    {
        match word {
            Some(w) => {
                region.assign_advice(dense_col, dense_row, Some(w.dense as u64));
                region.assign_advice(spread_col, spread_row, Some(w.spread as u64));
                proof {
                    assert(region@ =~= old(region)@ + Self::plain_evs(
                        dense_col,
                        dense_row,
                        spread_col,
                        spread_row,
                        word,
                    ));
                }
                SpreadVar {
                    tag: w.tag,
                    dense: CellValue16 { col: dense_col, row: dense_row, value: Some(w.dense) },
                    spread: CellValue32 { col: spread_col, row: spread_row, value: Some(w.spread) },
                }
            },
            None => {
                region.assign_advice(dense_col, dense_row, None);
                region.assign_advice(spread_col, spread_row, None);
                proof {
                    assert(region@ =~= old(region)@ + Self::plain_evs(
                        dense_col,
                        dense_row,
                        spread_col,
                        spread_row,
                        word,
                    ));
                }
                SpreadVar {
                    tag: 0,
                    dense: CellValue16 { col: dense_col, row: dense_row, value: None },
                    spread: CellValue32 { col: spread_col, row: spread_row, value: None },
                }
            },
        }
    }
}

} // verus!
