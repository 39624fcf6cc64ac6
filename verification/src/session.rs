//! The decisions of an interactive conversion session: what a line of input
//! means at each prompt, and what the session waits for next.
//!
//! Reading and printing are the caller's business. The caller shows the prompt
//! that belongs to the current [`Stage`], reads a line, removes surrounding
//! white space, and hands the line to [`step`].

use vstd::prelude::*;
use crate::temperature::TemperatureUnit;

verus! {

/// What the session is waiting for.
#[derive(Debug, Clone, Copy, PartialEq, Eq)]
pub enum Stage {
    /// A choice from the menu of scales.
    Choosing,
    /// A temperature on the chosen scale.
    Entering(TemperatureUnit),
    /// The decision whether to go on.
    Continuing,
    /// Nothing: the session is over.
    Finished,
}

/// What the caller has to do about the line it has just handed in.
#[derive(Debug, Clone, Copy, PartialEq, Eq)]
pub enum Action {
    /// Nothing has to be said.
    Proceed,
    /// Say that the line is no entry of the menu.
    RejectChoice,
    /// Convert the value from `source` to `first` and to `second`, and report
    /// both results.
    Report { source: TemperatureUnit, first: TemperatureUnit, second: TemperatureUnit },
    /// Say that the line is no temperature on this scale.
    RejectValue(TemperatureUnit),
    /// Say goodbye.
    Leave,
}

/// One move of the session: what to do now, and what to wait for afterwards.
#[derive(Debug, Clone, Copy, PartialEq, Eq)]
pub struct Transition {
    pub action: Action,
    pub next: Stage,
}

/// The scale that a line chooses from the menu, if it chooses one: the line
/// is a single digit, the number of a menu entry.
pub open spec fn chosen_unit(line: Seq<char>) -> Option<TemperatureUnit> {
    if line.len() != 1 {
        None
    } else if line[0] == '1' {
        Some(TemperatureUnit::Celsius)
    } else if line[0] == '2' {
        Some(TemperatureUnit::Fahrenheit)
    } else if line[0] == '3' {
        Some(TemperatureUnit::Kelvin)
    } else {
        None
    }
}

/// The digit under which the menu offers a scale.
pub open spec fn menu_digit(unit: TemperatureUnit) -> char {
    match unit {
        TemperatureUnit::Celsius => '1',
        TemperatureUnit::Fahrenheit => '2',
        TemperatureUnit::Kelvin => '3',
    }
}

/// `letter` is `lower` or `upper`.
pub open spec fn is_either(letter: char, lower: char, upper: char) -> bool {
    letter == lower || letter == upper
}

/// The line is the word "exit", each letter in either case.
pub open spec fn asks_to_exit(line: Seq<char>) -> bool {
    &&& line.len() == 4
    &&& is_either(line[0], 'e', 'E')
    &&& is_either(line[1], 'x', 'X')
    &&& is_either(line[2], 'i', 'I')
    &&& is_either(line[3], 't', 'T')
}

/// The move that a line brings about at a stage. `numeric` says whether the
/// line reads as a number; it matters only while a temperature is awaited.
pub open spec fn transition_for(stage: Stage, line: Seq<char>, numeric: bool) -> Transition {
    match stage {
        Stage::Choosing => match chosen_unit(line) {
            Some(unit) => Transition { action: Action::Proceed, next: Stage::Entering(unit) },
            None => Transition { action: Action::RejectChoice, next: Stage::Choosing },
        },
        Stage::Entering(source) => Transition {
            action: if numeric {
                Action::Report {
                    source,
                    first: other_units_of(source).0,
                    second: other_units_of(source).1,
                }
            } else {
                Action::RejectValue(source)
            },
            next: Stage::Continuing,
        },
        Stage::Continuing => if asks_to_exit(line) {
            Transition { action: Action::Leave, next: Stage::Finished }
        } else {
            Transition { action: Action::Proceed, next: Stage::Choosing }
        },
        Stage::Finished => Transition { action: Action::Proceed, next: Stage::Finished },
    }
}

/// The two scales other than `unit`, in the order of the menu.
pub open spec fn other_units_of(unit: TemperatureUnit) -> (TemperatureUnit, TemperatureUnit) {
    match unit {
        TemperatureUnit::Celsius => (TemperatureUnit::Fahrenheit, TemperatureUnit::Kelvin),
        TemperatureUnit::Fahrenheit => (TemperatureUnit::Celsius, TemperatureUnit::Kelvin),
        TemperatureUnit::Kelvin => (TemperatureUnit::Celsius, TemperatureUnit::Fahrenheit),
    }
}

/// Reads a line as a choice from the menu: "1" is Celsius, "2" Fahrenheit,
/// "3" Kelvin, and every other line chooses nothing.
pub fn unit_for_choice(line: &str) -> (unit: Option<TemperatureUnit>)
    ensures
        unit == chosen_unit(line@),
        unit matches Some(chosen) ==> line@ == seq![menu_digit(chosen)],
{
    if line.unicode_len() != 1 {
        return None;
    }
    let digit = line.get_char(0);
    assert(line@ =~= seq![digit]);
    if digit == '1' {
        Some(TemperatureUnit::Celsius)
    } else if digit == '2' {
        Some(TemperatureUnit::Fahrenheit)
    } else if digit == '3' {
        Some(TemperatureUnit::Kelvin)
    } else {
        None
    }
}

/// The two scales that a value on `unit` is converted to, in the order in
/// which they are reported.
pub fn other_units(unit: TemperatureUnit) -> (others: (TemperatureUnit, TemperatureUnit))
    ensures
        others == other_units_of(unit),
        others.0 != unit,
        others.1 != unit,
        menu_digit(others.0) < menu_digit(others.1),
{
    match unit {
        TemperatureUnit::Celsius => (TemperatureUnit::Fahrenheit, TemperatureUnit::Kelvin),
        TemperatureUnit::Fahrenheit => (TemperatureUnit::Celsius, TemperatureUnit::Kelvin),
        TemperatureUnit::Kelvin => (TemperatureUnit::Celsius, TemperatureUnit::Fahrenheit),
    }
}

/// Tells whether a line asks to end the session: the word "exit", whatever
/// the case of its letters.
pub fn is_exit_request(line: &str) -> (leaving: bool)
    ensures
        leaving == asks_to_exit(line@),
{
    if line.unicode_len() != 4 {
        return false;
    }
    let first = line.get_char(0);
    let second = line.get_char(1);
    let third = line.get_char(2);
    let fourth = line.get_char(3);
    (first == 'e' || first == 'E') && (second == 'x' || second == 'X') && (third == 'i' || third
        == 'I') && (fourth == 't' || fourth == 'T')
}

/// Decides what a line of input brings about at `stage`.
///
/// `numeric` says whether the line reads as a number, which the caller finds
/// out; it is looked at only while a temperature is awaited. A session ends
/// only when asked to at the prompt that offers it, and a finished session
/// stays finished.
pub fn step(stage: Stage, line: &str, numeric: bool) -> (transition: Transition)
    ensures
        transition == transition_for(stage, line@, numeric),
        transition.next is Finished <==> stage is Finished || (stage is Continuing && asks_to_exit(
            line@,
        )),
        transition.action is Report ==> stage is Entering && numeric,
{
    match stage {
        Stage::Choosing => match unit_for_choice(line) {
            Some(unit) => Transition { action: Action::Proceed, next: Stage::Entering(unit) },
            None => Transition { action: Action::RejectChoice, next: Stage::Choosing },
        },
        Stage::Entering(source) => {
            if numeric {
                let others = other_units(source);
                Transition {
                    action: Action::Report { source, first: others.0, second: others.1 },
                    next: Stage::Continuing,
                }
            } else {
                Transition { action: Action::RejectValue(source), next: Stage::Continuing }
            }
        },
        Stage::Continuing => {
            if is_exit_request(line) {
                Transition { action: Action::Leave, next: Stage::Finished }
            } else {
                Transition { action: Action::Proceed, next: Stage::Choosing }
            }
        },
        Stage::Finished => Transition { action: Action::Proceed, next: Stage::Finished },
    }
}

} // verus!
