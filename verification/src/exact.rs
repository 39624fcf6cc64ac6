//! What a formula means over exact numbers, and the laws that the formulas
//! between the three scales obey there.
//!
//! Machine arithmetic rounds, so a caller who evaluates a formula on machine
//! numbers gets these laws only up to that rounding. Everything in this module
//! is specification and proof.

use vstd::prelude::*;
use crate::temperature::{formula_between, Formula, TemperatureUnit};

verus! {

/// An exact temperature reading of `numerator / denominator` degrees.
pub struct Reading {
    pub numerator: int,
    pub denominator: int,
}

impl Reading {
    /// The denominator is positive.
    pub open spec fn well_formed(self) -> bool {
        self.denominator > 0
    }

    /// Both fractions stand for the same number.
    pub open spec fn same(self, other: Reading) -> bool {
        self.numerator * other.denominator == other.numerator * self.denominator
    }

    /// This reading less `hundredths / 100` degrees.
    pub open spec fn minus_hundredths(self, hundredths: int) -> Reading {
        Reading {
            numerator: 100 * self.numerator - hundredths * self.denominator,
            denominator: 100 * self.denominator,
        }
    }

    /// This reading plus `hundredths / 100` degrees.
    pub open spec fn plus_hundredths(self, hundredths: int) -> Reading {
        Reading {
            numerator: 100 * self.numerator + hundredths * self.denominator,
            denominator: 100 * self.denominator,
        }
    }

    /// This reading multiplied by `times` and divided by `over`.
    pub open spec fn rescaled(self, times: int, over: int) -> Reading {
        Reading { numerator: times * self.numerator, denominator: over * self.denominator }
    }
}

impl Formula {
    /// The exact result of carrying out the stages of this formula on `value`.
    pub open spec fn apply(self, value: Reading) -> Reading {
        let moved = match self.subtract {
            Some(hundredths) => value.minus_hundredths(hundredths as int),
            None => value,
        };
        let scaled = match self.scale {
            Some(ratio) => moved.rescaled(ratio.times as int, ratio.over as int),
            None => moved,
        };
        match self.add {
            Some(hundredths) => scaled.plus_hundredths(hundredths as int),
            None => scaled,
        }
    }
}

/// The exact conversion of `value` from `source` to `target`.
pub open spec fn convert_exact(
    value: Reading,
    source: TemperatureUnit,
    target: TemperatureUnit,
) -> Reading {
    formula_between(source, target).apply(value)
}

/// A formula that does not divide by zero takes well-formed readings to
/// well-formed readings.
pub proof fn lemma_apply_well_formed(formula: Formula, value: Reading)
    requires
        formula.well_formed(),
        value.well_formed(),
    ensures
        formula.apply(value).well_formed(),
{
    if let Some(ratio) = formula.scale {
        let over = ratio.over as int;
        assert(forall|denominator: int| denominator > 0 ==> #[trigger] (over * denominator) > 0)
            by (nonlinear_arith)
            requires
                over > 0,
        ;
    }
}

/// Converting a well-formed reading gives a well-formed reading.
pub proof fn lemma_convert_well_formed(
    value: Reading,
    source: TemperatureUnit,
    target: TemperatureUnit,
)
    requires
        value.well_formed(),
    ensures
        convert_exact(value, source, target).well_formed(),
{
    lemma_apply_well_formed(formula_between(source, target), value);
}

/// Converting from a scale to itself leaves every reading as it is.
pub proof fn lemma_same_scale_is_identity(value: Reading, unit: TemperatureUnit)
    ensures
        convert_exact(value, unit, unit) == value,
{
}

/// Converting from `first` to `second` and on to `third` gives the same number
/// as converting from `first` to `third` at once.
pub proof fn lemma_conversions_compose(
    value: Reading,
    first: TemperatureUnit,
    second: TemperatureUnit,
    third: TemperatureUnit,
)
    ensures
        convert_exact(convert_exact(value, first, second), second, third).same(
            convert_exact(value, first, third),
        ),
{
    let by_steps = convert_exact(convert_exact(value, first, second), second, third);
    let at_once = convert_exact(value, first, third);
    assert(by_steps.numerator * at_once.denominator == at_once.numerator * by_steps.denominator)
        by (nonlinear_arith)
        requires
            by_steps == convert_exact(convert_exact(value, first, second), second, third),
            at_once == convert_exact(value, first, third),
    ;
}

/// Converting to another scale and back gives the number one started with.
pub proof fn lemma_round_trip(value: Reading, source: TemperatureUnit, target: TemperatureUnit)
    ensures
        convert_exact(convert_exact(value, source, target), target, source).same(value),
{
    lemma_conversions_compose(value, source, target, source);
    lemma_same_scale_is_identity(value, source);
}

} // verus!
