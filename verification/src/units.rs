//! Distance units and their textual selectors.

use vstd::prelude::*;

verus! {

/// The unit in which a great-circle distance is reported.
///
/// A free-form selector string chooses the unit: `"K"` or `"KM"` means
/// kilometers, `"MN"` or `"N"` means nautical miles, and anything else
/// (the empty string included) falls back to statute miles. Matching is
/// case-insensitive.
#[derive(Clone, Copy, Debug, PartialEq, Eq, Structural)]
pub enum DistanceUnit {
    Kilometers,
    NauticalMiles,
    Miles,
}

/// `c` is the letter K, in either case.
pub open spec fn is_letter_k(c: char) -> bool {
    c == 'K' || c == 'k'
}

/// `c` is the letter M, in either case.
pub open spec fn is_letter_m(c: char) -> bool {
    c == 'M' || c == 'm'
}

/// `c` is the letter N, in either case.
pub open spec fn is_letter_n(c: char) -> bool {
    c == 'N' || c == 'n'
}

/// The unit a selector string denotes: `"K"`/`"KM"` are kilometers,
/// `"MN"`/`"N"` are nautical miles, everything else is miles, with
/// letters matched in either case.
pub open spec fn spec_unit_of(s: Seq<char>) -> DistanceUnit {
    if (s.len() == 1 && is_letter_k(s[0])) || (s.len() == 2 && is_letter_k(s[0]) && is_letter_m(
        s[1],
    )) {
        DistanceUnit::Kilometers
    } else if (s.len() == 1 && is_letter_n(s[0])) || (s.len() == 2 && is_letter_m(s[0])
        && is_letter_n(s[1])) {
        DistanceUnit::NauticalMiles
    } else {
        DistanceUnit::Miles
    }
}

/// The rate converting a distance in statute miles to `unit`, in millionths:
/// one statute mile is 1.609344 kilometers and 0.8684 nautical miles.
pub open spec fn spec_factor_from_miles_micro(unit: DistanceUnit) -> u64 {
    match unit {
        DistanceUnit::Kilometers => 1_609_344,
        DistanceUnit::NauticalMiles => 868_400,
        DistanceUnit::Miles => 1_000_000,
    }
}

impl DistanceUnit {
    /// The rate converting a distance in statute miles to this unit, in
    /// millionths of a unit per mile. A host divides it by one million in
    /// its own floating-point arithmetic to recover the exact rate.
    pub fn factor_from_miles_micro(&self) -> (factor: u64)
        ensures
            factor == spec_factor_from_miles_micro(*self),
    {
        match self {
            DistanceUnit::Kilometers => 1_609_344,
            DistanceUnit::NauticalMiles => 868_400,
            DistanceUnit::Miles => 1_000_000,
        }
    }

    /// Resolve a selector string to its unit, case-insensitively;
    /// unrecognized selectors fall back to miles.
    pub fn from_code(code: &str) -> (unit: DistanceUnit)
        ensures
            unit == spec_unit_of(code@),
    {
        let len = code.unicode_len();
        if len == 1 {
            let c0 = code.get_char(0);
            if c0 == 'K' || c0 == 'k' {
                DistanceUnit::Kilometers
            } else if c0 == 'N' || c0 == 'n' {
                DistanceUnit::NauticalMiles
            } else {
                DistanceUnit::Miles
            }
        } else if len == 2 {
            let c0 = code.get_char(0);
            let c1 = code.get_char(1);
            if (c0 == 'K' || c0 == 'k') && (c1 == 'M' || c1 == 'm') {
                DistanceUnit::Kilometers
            } else if (c0 == 'M' || c0 == 'm') && (c1 == 'N' || c1 == 'n') {
                DistanceUnit::NauticalMiles
            } else {
                DistanceUnit::Miles
            }
        } else {
            DistanceUnit::Miles
        }
    }
}

} // verus!
