//! The geohash precision table and its lookup.
//!
//! Each geohash precision level (1 through 12) corresponds to an approximate
//! ground footprint of one cell at that level. The table stores, per level,
//! the cell's width and height thresholds. All thresholds are whole numbers
//! of millimetres, so the scan compares exactly.

use vstd::prelude::*;

verus! {

/// Number of geohash precision levels, and of entries in the table.
pub const PRECISION_LEVELS: usize = 12;

/// Width threshold, in millimetres, of table entry `i` (level `i + 1`).
/// Entries run from coarse to fine and are strictly decreasing.
pub open spec fn spec_width_threshold_mm(i: int) -> u64 {
    if i == 0 {
        5_009_400_000
    } else if i == 1 {
        1_252_300_000
    } else if i == 2 {
        156_500_000
    } else if i == 3 {
        39_100_000
    } else if i == 4 {
        4_900_000
    } else if i == 5 {
        1_200_000
    } else if i == 6 {
        152_900
    } else if i == 7 {
        38_200
    } else if i == 8 {
        4_800
    } else if i == 9 {
        1_200
    } else if i == 10 {
        140
    } else {
        37
    }
}

/// Height threshold, in millimetres, of table entry `i` (level `i + 1`).
/// Entries run from coarse to fine and are strictly decreasing.
pub open spec fn spec_height_threshold_mm(i: int) -> u64 {
    if i == 0 {
        4_992_000_600
    } else if i == 1 {
        624_100_000
    } else if i == 2 {
        156_000_000
    } else if i == 3 {
        19_500_000
    } else if i == 4 {
        4_900_000
    } else if i == 5 {
        609_400
    } else if i == 6 {
        152_400
    } else if i == 7 {
        19_000
    } else if i == 8 {
        4_800
    } else if i == 9 {
        595
    } else if i == 10 {
        149
    } else {
        19
    }
}

/// The `(width, height)` thresholds of table entry `i`, in millimetres.
pub fn entry_thresholds_mm(i: usize) -> (t: (u64, u64))
    requires
        i < PRECISION_LEVELS,
    ensures
        t.0 == spec_width_threshold_mm(i as int),
        t.1 == spec_height_threshold_mm(i as int),
{
    match i {
        0 => (5_009_400_000, 4_992_000_600),
        1 => (1_252_300_000, 624_100_000),
        2 => (156_500_000, 156_000_000),
        3 => (39_100_000, 19_500_000),
        4 => (4_900_000, 4_900_000),
        5 => (1_200_000, 609_400),
        6 => (152_900, 152_400),
        7 => (38_200, 19_000),
        8 => (4_800, 4_800),
        9 => (1_200, 595),
        10 => (140, 149),
        _ => (37, 19),
    }
}

/// The level the scan yields when started at entry `i`: the first entry at
/// or after `i` whose width or height threshold is strictly exceeded names
/// the level (entry index plus one); if none is, the finest level, 12.
pub open spec fn spec_lookup_from(width_mm: int, height_mm: int, i: int) -> int
    decreases PRECISION_LEVELS - i,
{
    if i < 0 || i >= PRECISION_LEVELS {
        12
    } else if width_mm > spec_width_threshold_mm(i) || height_mm > spec_height_threshold_mm(i) {
        i + 1
    } else {
        spec_lookup_from(width_mm, height_mm, i + 1)
    }
}

/// The precision level for a requested cell: the coarsest level whose cell
/// footprint the requested width or height strictly exceeds, or 12 when the
/// requested cell is finer than every entry.
pub open spec fn spec_lookup(width_mm: int, height_mm: int) -> int {
    spec_lookup_from(width_mm, height_mm, 0)
}

/// A scan started at entry `i` yields a level between `i + 1` and 12.
pub proof fn lemma_lookup_from_range(width_mm: int, height_mm: int, i: int)
    requires
        0 <= i <= PRECISION_LEVELS,
    ensures
        spec_lookup_from(width_mm, height_mm, i) <= 12,
        i < PRECISION_LEVELS ==> i + 1 <= spec_lookup_from(width_mm, height_mm, i),
        i == PRECISION_LEVELS ==> spec_lookup_from(width_mm, height_mm, i) == 12,
    decreases PRECISION_LEVELS - i,
{
    if i < PRECISION_LEVELS && !(width_mm > spec_width_threshold_mm(i) || height_mm
        > spec_height_threshold_mm(i)) {
        lemma_lookup_from_range(width_mm, height_mm, i + 1);
    }
}

proof fn lemma_lookup_from_monotonic_in_width(w1: int, w2: int, height_mm: int, i: int)
    requires
        w1 <= w2,
        0 <= i <= PRECISION_LEVELS,
    ensures
        spec_lookup_from(w2, height_mm, i) <= spec_lookup_from(w1, height_mm, i),
    decreases PRECISION_LEVELS - i,
{
    if i < PRECISION_LEVELS {
        if w2 > spec_width_threshold_mm(i) || height_mm > spec_height_threshold_mm(i) {
            lemma_lookup_from_range(w1, height_mm, i);
        } else {
            lemma_lookup_from_monotonic_in_width(w1, w2, height_mm, i + 1);
        }
    }
}

/// For a fixed height, widening the requested cell never raises the level:
/// a wider cell exceeds a threshold no later in the coarse-to-fine scan, so
/// it resolves to an equally coarse or coarser precision.
pub proof fn lemma_lookup_monotonic_in_width(w1: int, w2: int, height_mm: int)
    requires
        w1 <= w2,
    ensures
        spec_lookup(w2, height_mm) <= spec_lookup(w1, height_mm),
{
    lemma_lookup_from_monotonic_in_width(w1, w2, height_mm, 0);
}

/// Scan the table coarse to fine and return the precision level, 1 to 12,
/// for a requested cell of the given width and height.
pub fn lookup_mm(width_mm: u64, height_mm: u64) -> (level: u32)
    ensures
        level == spec_lookup(width_mm as int, height_mm as int),
        1 <= level <= 12,
{
    let mut i: usize = 0;
    while i < PRECISION_LEVELS
        invariant
            i <= PRECISION_LEVELS,
            spec_lookup(width_mm as int, height_mm as int) == spec_lookup_from(
                width_mm as int,
                height_mm as int,
                i as int,
            ),
        decreases PRECISION_LEVELS - i,
    {
        let t = entry_thresholds_mm(i);
        if width_mm > t.0 || height_mm > t.1 {
            return (i as u32) + 1;
        }
        i += 1;
    }
    12
}

} // verus!
