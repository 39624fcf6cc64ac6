use temperature_converter::session::{
    is_exit_request, other_units, step, unit_for_choice, Action, Stage, Transition,
};
use temperature_converter::temperature::{conversion_formula, Formula, TemperatureUnit};

/// Carries out the stages of a formula in double precision.
fn carry_out(formula: Formula, value: f64) -> f64 {
    let mut result = value;
    if let Some(hundredths) = formula.subtract {
        result = result - f64::from(hundredths) / 100.0;
    }
    if let Some(ratio) = formula.scale {
        result = result * f64::from(ratio.times) / f64::from(ratio.over);
    }
    if let Some(hundredths) = formula.add {
        result = result + f64::from(hundredths) / 100.0;
    }
    result
}

#[test]
fn menu_numbers_choose_the_three_scales() {
    assert_eq!(unit_for_choice("1"), Some(TemperatureUnit::Celsius));
    assert_eq!(unit_for_choice("2"), Some(TemperatureUnit::Fahrenheit));
    assert_eq!(unit_for_choice("3"), Some(TemperatureUnit::Kelvin));
}

#[test]
fn other_lines_choose_nothing() {
    for line in ["", "0", "4", "9", "11", "1 ", " 1", "one", "Celsius", "١", "1.0", "exit"] {
        assert_eq!(unit_for_choice(line), None);
    }
}

#[test]
fn other_units_come_in_menu_order() {
    assert_eq!(
        other_units(TemperatureUnit::Celsius),
        (TemperatureUnit::Fahrenheit, TemperatureUnit::Kelvin)
    );
    assert_eq!(
        other_units(TemperatureUnit::Fahrenheit),
        (TemperatureUnit::Celsius, TemperatureUnit::Kelvin)
    );
    assert_eq!(
        other_units(TemperatureUnit::Kelvin),
        (TemperatureUnit::Celsius, TemperatureUnit::Fahrenheit)
    );
}

#[test]
fn exit_is_recognised_in_any_case() {
    for line in ["exit", "EXIT", "Exit", "eXiT", "exiT"] {
        assert!(is_exit_request(line));
        assert_eq!(line.to_lowercase(), "exit");
    }
}

#[test]
fn other_lines_do_not_ask_to_exit() {
    for line in ["", "exi", "exits", " exit", "exit ", "quit", "e x i t", "EX\u{130}T", "ex\u{131}t"]
    {
        assert!(!is_exit_request(line));
        assert_ne!(line.to_lowercase(), "exit");
    }
}

#[test]
fn a_valid_choice_leads_to_the_value_prompt() {
    assert_eq!(
        step(Stage::Choosing, "2", false),
        Transition { action: Action::Proceed, next: Stage::Entering(TemperatureUnit::Fahrenheit) }
    );
    assert_eq!(
        step(Stage::Choosing, "3", true),
        Transition { action: Action::Proceed, next: Stage::Entering(TemperatureUnit::Kelvin) }
    );
}

#[test]
fn an_invalid_choice_is_rejected_and_the_menu_comes_again() {
    let transition = step(Stage::Choosing, "9", true);
    assert_eq!(transition.action, Action::RejectChoice);
    assert_eq!(transition.next, Stage::Choosing);
    assert_ne!(transition.next, Stage::Finished);
}

#[test]
fn exit_at_the_menu_is_only_an_invalid_choice() {
    assert_eq!(
        step(Stage::Choosing, "exit", false),
        Transition { action: Action::RejectChoice, next: Stage::Choosing }
    );
}

#[test]
fn text_that_is_no_number_is_rejected_and_the_session_goes_on() {
    let line = "twenty";
    let numeric = line.parse::<f64>().is_ok();
    assert!(!numeric);
    for unit in
        [TemperatureUnit::Celsius, TemperatureUnit::Fahrenheit, TemperatureUnit::Kelvin]
    {
        let transition = step(Stage::Entering(unit), line, numeric);
        assert_eq!(transition.action, Action::RejectValue(unit));
        assert_eq!(transition.next, Stage::Continuing);
    }
}

#[test]
fn a_number_is_reported_on_the_two_other_scales() {
    assert_eq!(
        step(Stage::Entering(TemperatureUnit::Fahrenheit), "98.6", true),
        Transition {
            action: Action::Report {
                source: TemperatureUnit::Fahrenheit,
                first: TemperatureUnit::Celsius,
                second: TemperatureUnit::Kelvin,
            },
            next: Stage::Continuing,
        }
    );
    assert_eq!(
        step(Stage::Entering(TemperatureUnit::Kelvin), "0", true).action,
        Action::Report {
            source: TemperatureUnit::Kelvin,
            first: TemperatureUnit::Celsius,
            second: TemperatureUnit::Fahrenheit,
        }
    );
}

#[test]
fn exit_ends_the_session_and_anything_else_starts_over() {
    assert_eq!(
        step(Stage::Continuing, "Exit", false),
        Transition { action: Action::Leave, next: Stage::Finished }
    );
    for line in ["", "y", "1", "no"] {
        assert_eq!(
            step(Stage::Continuing, line, false),
            Transition { action: Action::Proceed, next: Stage::Choosing }
        );
    }
}

#[test]
fn a_finished_session_stays_finished() {
    for line in ["", "1", "20", "exit"] {
        assert_eq!(
            step(Stage::Finished, line, true),
            Transition { action: Action::Proceed, next: Stage::Finished }
        );
    }
}

#[test]
fn choosing_celsius_and_entering_twenty_reports_both_other_scales() {
    let chosen = step(Stage::Choosing, "1", "1".parse::<f64>().is_ok());
    assert_eq!(chosen.action, Action::Proceed);
    assert_eq!(chosen.next, Stage::Entering(TemperatureUnit::Celsius));

    let line = "20";
    let parsed = line.parse::<f64>();
    let entered = step(chosen.next, line, parsed.is_ok());
    assert_eq!(entered.next, Stage::Continuing);
    match entered.action {
        Action::Report { source, first, second } => {
            let value = parsed.unwrap();
            assert_eq!(source, TemperatureUnit::Celsius);
            assert_eq!(first, TemperatureUnit::Fahrenheit);
            assert_eq!(second, TemperatureUnit::Kelvin);
            let fahrenheit = carry_out(conversion_formula(source, first), value);
            let kelvin = carry_out(conversion_formula(source, second), value);
            assert_eq!(format!("{:.2}", value), "20.00");
            assert_eq!(format!("{:.2}", fahrenheit), "68.00");
            assert_eq!(format!("{:.2}", kelvin), "293.15");
        }
        other => panic!("unexpected action {:?}", other),
    }
}
