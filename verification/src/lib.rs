//! Geohash grid sizing on a spherical Earth model.
//!
//! The crate selects a geohash precision level (1 through 12) for tiling a
//! geographic bounding box into a target number of grid cells. Distances are
//! handled as whole millimetres, so every threshold comparison and every
//! table scan is exact integer arithmetic. Turning a pair of coordinates into
//! a distance needs floating-point trigonometry, which a host program does;
//! it hands the measured extents to [`resolver::resolve_precision`] as
//! millimetre values.

pub mod resolver;
pub mod table;
pub mod units;
