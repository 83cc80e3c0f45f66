//! The cell table handed to the constraint-system backend.
//!
//! The backend substrate (column and row allocation, the copy-constraint
//! checker, the lookup-argument verifier, proof generation) is an external
//! collaborator. This module records exactly what one compression
//! construction hands it, in order: advice cell assignments, fixed selector
//! activations, copy constraints, and lookup-row assertions.

use vstd::prelude::*;

verus! {

// Advice columns. `A_0`..`A_2` carry the spread lookup's (tag, dense,
// spread) triples; `A_5` is the message-schedule column; the rest are the
// "extra" columns the gates copy their operands into.
pub const A_0: usize = 0;
pub const A_1: usize = 1;
pub const A_2: usize = 2;
pub const A_3: usize = 3;
pub const A_4: usize = 4;
pub const A_5: usize = 5;
pub const A_6: usize = 6;
pub const A_7: usize = 7;
pub const A_8: usize = 8;
pub const A_9: usize = 9;

// Fixed selector columns, one per gate.
pub const S_DECOMPOSE_ABCD: usize = 10;
pub const S_DECOMPOSE_EFGH: usize = 11;
pub const S_UPPER_SIGMA_0: usize = 12;
pub const S_UPPER_SIGMA_1: usize = 13;
pub const S_CH: usize = 14;
pub const S_CH_NEG: usize = 15;
pub const S_MAJ: usize = 16;
pub const S_H_PRIME: usize = 17;
pub const S_E_NEW: usize = 18;
pub const S_A_NEW: usize = 19;
pub const S_DIGEST: usize = 20;

/// A cell position: a cell's identity is its (column, row) pair.
#[derive(Clone, Copy, PartialEq, Eq, Structural, Debug)]
pub struct CellPos {
    pub col: usize,
    pub row: usize,
}

/// One interaction with the backend substrate.
#[derive(Clone, Copy, Debug)]
pub enum Event {
    /// A witness value written into an advice cell; `None` builds the
    /// structural-only table without a witness.
    Advice { col: usize, row: usize, value: Option<u64> },
    /// A fixed selector switched on at a row.
    Fixed { col: usize, row: usize },
    /// A copy constraint asserting two cells equal.
    Copy { a: CellPos, b: CellPos },
    /// An assertion that row's (tag, dense, spread) triple is in the table.
    Lookup { row: usize },
}

/// The exclusively-owned region of the table one construction writes.
pub struct Region {
    pub events: Vec<Event>,
}

impl View for Region {
    type V = Seq<Event>;

    open spec fn view(&self) -> Seq<Event> {
        self.events@
    }
}

impl Region {
    pub fn new() -> (r: Region)
        ensures
            r@ == Seq::<Event>::empty(),
    {
        Region { events: Vec::new() }
    }

    pub fn assign_advice(&mut self, col: usize, row: usize, value: Option<u64>)
        ensures
            final(self)@ == old(self)@.push(Event::Advice { col, row, value }),
    {
        self.events.push(Event::Advice { col, row, value });
    }

    pub fn assign_fixed(&mut self, col: usize, row: usize)
        ensures
            final(self)@ == old(self)@.push(Event::Fixed { col, row }),
    {
        self.events.push(Event::Fixed { col, row });
    }

    pub fn constrain_equal(&mut self, a: CellPos, b: CellPos)
        ensures
            final(self)@ == old(self)@.push(Event::Copy { a, b }),
    {
        self.events.push(Event::Copy { a, b });
    }

    pub fn add_lookup(&mut self, row: usize)
        ensures
            final(self)@ == old(self)@.push(Event::Lookup { row }),
    {
        self.events.push(Event::Lookup { row });
    }
}

/// A 16-bit dense cell handle: its position and, in witness mode, its value.
#[derive(Clone, Copy, Debug)]
pub struct CellValue16 {
    pub col: usize,
    pub row: usize,
    pub value: Option<u16>,
}

/// A 32-bit spread cell handle.
#[derive(Clone, Copy, Debug)]
pub struct CellValue32 {
    pub col: usize,
    pub row: usize,
    pub value: Option<u32>,
}

impl CellValue16 {
    pub fn new(col: usize, row: usize, value: Option<u16>) -> (r: CellValue16)
        ensures
            r == (CellValue16 { col, row, value }),
    {
        CellValue16 { col, row, value }
    }

    /// The cell's position in the table.
    pub open spec fn pos(self) -> CellPos {
        CellPos { col: self.col, row: self.row }
    }
}

impl CellValue32 {
    pub fn new(col: usize, row: usize, value: Option<u32>) -> (r: CellValue32)
        ensures
            r == (CellValue32 { col, row, value }),
    {
        CellValue32 { col, row, value }
    }

    pub open spec fn pos(self) -> CellPos {
        CellPos { col: self.col, row: self.row }
    }
}

/// Widens an optional 16-bit witness value to a cell value.
pub open spec fn opt16(v: Option<u16>) -> Option<u64> {
    match v {
        Some(x) => Some(x as u64),
        None => None,
    }
}

/// Widens an optional 32-bit witness value to a cell value.
pub open spec fn opt32(v: Option<u32>) -> Option<u64> {
    match v {
        Some(x) => Some(x as u64),
        None => None,
    }
}

/// Widens an optional 16-bit value, executably.
pub fn opt16_to64(v: Option<u16>) -> (r: Option<u64>)
    ensures
        r == opt16(v),
{
    match v {
        Some(x) => Some(x as u64),
        None => None,
    }
}

/// Widens an optional 32-bit value, executably.
pub fn opt32_to64(v: Option<u32>) -> (r: Option<u64>)
    ensures
        r == opt32(v),
{
    match v {
        Some(x) => Some(x as u64),
        None => None,
    }
}

/// The two events of assigning a value at (col, row) and constraining the
/// new cell equal to the cell it came from.
pub open spec fn constrain16_evs(col: usize, row: usize, cell: CellValue16) -> Seq<Event> {
    seq![
        Event::Advice { col, row, value: opt16(cell.value) },
        Event::Copy { a: CellPos { col, row }, b: cell.pos() },
    ]
}

/// As `constrain16_evs`, for a 32-bit spread cell.
pub open spec fn constrain32_evs(col: usize, row: usize, cell: CellValue32) -> Seq<Event> {
    seq![
        Event::Advice { col, row, value: opt32(cell.value) },
        Event::Copy { a: CellPos { col, row }, b: cell.pos() },
    ]
}

/// Re-assigns a dense cell's value at a gate-operand position and asserts
/// the copy constraint back to the cell it came from.
pub fn assign_and_constrain16(region: &mut Region, col: usize, row: usize, cell: CellValue16)
    ensures
        final(region)@ == old(region)@ + constrain16_evs(col, row, cell),
{
    let v = opt16_to64(cell.value);
    region.assign_advice(col, row, v);
    region.constrain_equal(CellPos { col, row }, CellPos { col: cell.col, row: cell.row });
    proof {
        assert(region@ =~= old(region)@ + constrain16_evs(col, row, cell));
    }
}

/// As `assign_and_constrain16`, for a 32-bit spread cell.
pub fn assign_and_constrain32(region: &mut Region, col: usize, row: usize, cell: CellValue32)
    ensures
        final(region)@ == old(region)@ + constrain32_evs(col, row, cell),
{
    let v = opt32_to64(cell.value);
    region.assign_advice(col, row, v);
    region.constrain_equal(CellPos { col, row }, CellPos { col: cell.col, row: cell.row });
    proof {
        assert(region@ =~= old(region)@ + constrain32_evs(col, row, cell));
    }
}

} // verus!
