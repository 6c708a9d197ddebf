//! Precision resolution for a bounding box.
//!
//! The resolver takes the measured extents of a bounding box, in whole
//! millimetres, together with the requested number of grid cells, derives the
//! per-axis cell size, and scans the precision table for the coarsest level
//! whose cell that size exceeds. The requested cell count must be even;
//! an odd count is rejected with [`PrecisionError::InvalidArgument`].

use vstd::prelude::*;
use crate::table::{
    PRECISION_LEVELS,
    entry_thresholds_mm,
    spec_height_threshold_mm,
    spec_width_threshold_mm,
};

verus! {

/// Why a precision request was rejected.
#[derive(Clone, Copy, Debug, PartialEq, Eq, Structural)]
pub enum PrecisionError {
    /// The requested cell count is odd; the grid is split in halves, so the
    /// count must be a multiple of 2.
    InvalidArgument,
}

impl PrecisionError {
    /// A short description of the error.
    pub fn message(&self) -> (text: &'static str)
        ensures
            text@ == "geoHash divisions must be multiple of 2"@,
    {
        "geoHash divisions must be multiple of 2"
    }
}

/// Half of `n`, rounded toward zero, as a machine integer division rounds.
pub open spec fn spec_half_trunc(n: int) -> int {
    if n >= 0 {
        n / 2
    } else {
        -((-n) / 2)
    }
}

/// The per-axis subdivision count along the x axis: half the requested cell
/// count.
pub open spec fn spec_x_quotient(squares: int) -> int {
    spec_half_trunc(squares)
}

/// The per-axis subdivision count along the y axis: half the x-axis count
/// again, so a quarter of the requested cell count.
pub open spec fn spec_y_quotient(squares: int) -> int {
    spec_half_trunc(spec_half_trunc(squares))
}

/// Whether a cell of size `dist_mm / quotient` strictly exceeds
/// `threshold_mm`, reading the quotient as an exact rational. A zero
/// quotient makes the cell unbounded, so it exceeds every threshold unless
/// the distance is zero too, in which case the cell size is indeterminate
/// and exceeds none; a negative quotient makes the cell nonpositive, which
/// exceeds no positive threshold.
pub open spec fn spec_cell_exceeds(dist_mm: int, quotient: int, threshold_mm: int) -> bool {
    if quotient < 0 {
        false
    } else if quotient == 0 {
        dist_mm > 0
    } else {
        dist_mm > threshold_mm * quotient
    }
}

/// The level the resolver's scan yields when started at entry `i`: the
/// first entry at or after `i` whose width threshold the x cell exceeds or
/// whose height threshold the y cell exceeds names the level (entry index
/// plus one); if none is, the finest level, 12.
pub open spec fn spec_resolve_from(
    x_dist_mm: int,
    y_dist_mm: int,
    x_quotient: int,
    y_quotient: int,
    i: int,
) -> int
    decreases PRECISION_LEVELS - i,
{
    if i < 0 || i >= PRECISION_LEVELS {
        12
    } else if spec_cell_exceeds(x_dist_mm, x_quotient, spec_width_threshold_mm(i) as int)
        || spec_cell_exceeds(y_dist_mm, y_quotient, spec_height_threshold_mm(i) as int) {
        i + 1
    } else {
        spec_resolve_from(x_dist_mm, y_dist_mm, x_quotient, y_quotient, i + 1)
    }
}

/// The precision level for a bounding box whose measured extents are
/// `x_dist_mm` and `y_dist_mm` and whose requested cell count is `squares`.
pub open spec fn spec_resolve(x_dist_mm: int, y_dist_mm: int, squares: int) -> int {
    spec_resolve_from(
        x_dist_mm,
        y_dist_mm,
        spec_x_quotient(squares),
        spec_y_quotient(squares),
        0,
    )
}

/// Whether a cell of size `dist_mm / quotient` strictly exceeds
/// `threshold_mm`, for a quotient given as a sign and a magnitude.
fn cell_exceeds(dist_mm: u64, quot_neg: bool, quot_mag: u32, threshold_mm: u64) -> (exceeds: bool)
    ensures
        exceeds == spec_cell_exceeds(
            dist_mm as int,
            (if quot_neg {
                -(quot_mag as int)
            } else {
                quot_mag as int
            }),
            threshold_mm as int,
        ),
{
    if quot_neg && quot_mag > 0 {
        false
    } else if quot_mag == 0 {
        dist_mm > 0
    } else {
        proof {
            assert((threshold_mm as int) * (quot_mag as int) < 0x100000000000000000000000000000000)
                by (nonlinear_arith)
                requires
                    threshold_mm <= 0xffffffffffffffffu64,
                    quot_mag <= 0xffffffffu32,
            ;
        }
        (dist_mm as u128) > (threshold_mm as u128) * (quot_mag as u128)
    }
}

/// Resolve the geohash precision level, 1 to 12, for a bounding box whose
/// measured width and height are `x_dist_mm` and `y_dist_mm` millimetres,
/// tiled into `squares` grid cells. The count is halved for the x axis and
/// quartered for the y axis, each axis's cell size is its extent divided by
/// its share of the count, and the precision table names the coarsest level
/// either cell size exceeds. An odd `squares` is rejected; any even count,
/// zero and negative counts included, resolves to a level.
pub fn resolve_precision(x_dist_mm: u64, y_dist_mm: u64, squares: i32) -> (result: Result<
    u32,
    PrecisionError,
>)
    ensures
        result is Ok <==> squares as int % 2 == 0,
        match result {
            Ok(level) => level == spec_resolve(x_dist_mm as int, y_dist_mm as int, squares as int)
                && 1 <= level <= 12,
            Err(e) => e == PrecisionError::InvalidArgument,
        },
{
    let quot_neg: bool = squares < 0;
    let mag: u32 = if squares >= 0 {
        squares as u32
    } else {
        (-(squares as i64)) as u32
    };
    proof {
        assert(mag as int == if squares >= 0 {
            squares as int
        } else {
            -(squares as int)
        });
        vstd::arithmetic::div_mod::lemma_mod_multiples_vanish(-(mag as int), mag as int, 2);
    }
    if mag % 2 != 0 {
        return Err(PrecisionError::InvalidArgument);
    }
    let xq_mag: u32 = mag / 2;
    let yq_mag: u32 = xq_mag / 2;
    let ghost x_quotient: int = spec_x_quotient(squares as int);
    let ghost y_quotient: int = spec_y_quotient(squares as int);
    assert(x_quotient == if quot_neg {
        -(xq_mag as int)
    } else {
        xq_mag as int
    });
    assert(y_quotient == if quot_neg {
        -(yq_mag as int)
    } else {
        yq_mag as int
    });

    let mut i: usize = 0;
    while i < PRECISION_LEVELS
        invariant
            i <= PRECISION_LEVELS,
            squares as int % 2 == 0,
            x_quotient == if quot_neg {
                -(xq_mag as int)
            } else {
                xq_mag as int
            },
            y_quotient == if quot_neg {
                -(yq_mag as int)
            } else {
                yq_mag as int
            },
            spec_resolve(x_dist_mm as int, y_dist_mm as int, squares as int) == spec_resolve_from(
                x_dist_mm as int,
                y_dist_mm as int,
                x_quotient,
                y_quotient,
                i as int,
            ),
        decreases PRECISION_LEVELS - i,
    {
        let t = entry_thresholds_mm(i);
        let x_hit = cell_exceeds(x_dist_mm, quot_neg, xq_mag, t.0);
        let y_hit = cell_exceeds(y_dist_mm, quot_neg, yq_mag, t.1);
        if x_hit || y_hit {
            return Ok((i as u32) + 1);
        }
        i += 1;
    }
    Ok(12)
}

} // verus!
