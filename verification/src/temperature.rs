//! The three temperature scales and the formula that leads from one to another.

use vstd::prelude::*;

verus! {

/// A temperature scale.
#[derive(Debug, Clone, Copy, PartialEq, Eq, Structural)]
pub enum TemperatureUnit {
    Celsius,
    Fahrenheit,
    Kelvin,
}

impl TemperatureUnit {
    /// What this scale reads at the freezing point of water (0 °C), in
    /// hundredths of a degree.
    pub open spec fn zero_point(self) -> u32 {
        match self {
            TemperatureUnit::Celsius => 0,
            TemperatureUnit::Fahrenheit => 3200,
            TemperatureUnit::Kelvin => 27315,
        }
    }

    /// The size of one degree of this scale, in ninths of a Celsius degree.
    pub open spec fn degree_ninths(self) -> u32 {
        match self {
            TemperatureUnit::Celsius => 9,
            TemperatureUnit::Fahrenheit => 5,
            TemperatureUnit::Kelvin => 9,
        }
    }
}

/// A change of degree size: multiply by `times`, then divide by `over`.
#[derive(Debug, Clone, Copy, PartialEq, Eq)]
pub struct Ratio {
    pub times: u32,
    pub over: u32,
}

/// The arithmetic of one conversion, as up to three stages that are carried
/// out in this order: take `subtract` off the value, rescale the difference by
/// `scale`, put `add` on. A stage that is `None` is left out altogether, so a
/// formula without stages hands the value back untouched.
///
/// Both offsets are in hundredths of a degree.
#[derive(Debug, Clone, Copy, PartialEq, Eq)]
pub struct Formula {
    pub subtract: Option<u32>,
    pub scale: Option<Ratio>,
    pub add: Option<u32>,
}

impl Formula {
    /// The formula without stages.
    pub open spec fn unchanged() -> Formula {
        Formula { subtract: None, scale: None, add: None }
    }

    /// No stage divides by zero.
    pub open spec fn well_formed(self) -> bool {
        self.scale matches Some(ratio) ==> ratio.over > 0
    }
}

/// An offset stage for `hundredths`, left out where there is nothing to move.
pub open spec fn offset_stage(hundredths: u32) -> Option<u32> {
    if hundredths == 0 {
        None
    } else {
        Some(hundredths)
    }
}

/// A rescaling stage between two degree sizes, left out where they agree.
pub open spec fn scale_stage(from_ninths: u32, to_ninths: u32) -> Option<Ratio> {
    if from_ninths == to_ninths {
        None
    } else {
        Some(Ratio { times: from_ninths, over: to_ninths })
    }
}

/// The formula that leads from `source` to `target`: none between a scale and
/// itself; otherwise measure the distance from the source's zero point, turn
/// it into degrees of the target, and count from the target's zero point.
pub open spec fn formula_between(source: TemperatureUnit, target: TemperatureUnit) -> Formula {
    if source == target {
        Formula::unchanged()
    } else {
        Formula {
            subtract: offset_stage(source.zero_point()),
            scale: scale_stage(source.degree_ninths(), target.degree_ninths()),
            add: offset_stage(target.zero_point()),
        }
    }
}

/// Picks the formula that converts a value on `source` into one on `target`.
pub fn conversion_formula(source: TemperatureUnit, target: TemperatureUnit) -> (formula: Formula)
    ensures
        formula == formula_between(source, target),
        formula.well_formed(),
        source == target ==> formula == Formula::unchanged(),
{
    match (source, target) {
        (TemperatureUnit::Celsius, TemperatureUnit::Fahrenheit) => Formula {
            subtract: None,
            scale: Some(Ratio { times: 9, over: 5 }),
            add: Some(3200),
        },
        (TemperatureUnit::Celsius, TemperatureUnit::Kelvin) => Formula {
            subtract: None,
            scale: None,
            add: Some(27315),
        },
        (TemperatureUnit::Fahrenheit, TemperatureUnit::Celsius) => Formula {
            subtract: Some(3200),
            scale: Some(Ratio { times: 5, over: 9 }),
            add: None,
        },
        (TemperatureUnit::Fahrenheit, TemperatureUnit::Kelvin) => Formula {
            subtract: Some(3200),
            scale: Some(Ratio { times: 5, over: 9 }),
            add: Some(27315),
        },
        (TemperatureUnit::Kelvin, TemperatureUnit::Celsius) => Formula {
            subtract: Some(27315),
            scale: None,
            add: None,
        },
        (TemperatureUnit::Kelvin, TemperatureUnit::Fahrenheit) => Formula {
            subtract: Some(27315),
            scale: Some(Ratio { times: 9, over: 5 }),
            add: Some(3200),
        },
        _ => Formula { subtract: None, scale: None, add: None },
    }
}

} // verus!
