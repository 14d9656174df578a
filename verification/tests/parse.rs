use tempconv::unit::{long_form, parse_unit, TemperatureUnit};

#[test]
fn parses_the_six_accepted_tokens() {
    assert_eq!(parse_unit("Fahrenheit").unwrap(), TemperatureUnit::Fahrenheit);
    assert_eq!(parse_unit("Celsius").unwrap(), TemperatureUnit::Celsius);
    assert_eq!(parse_unit("Kelvin").unwrap(), TemperatureUnit::Kelvin);
    assert_eq!(parse_unit("F").unwrap(), TemperatureUnit::F);
    assert_eq!(parse_unit("C").unwrap(), TemperatureUnit::C);
    assert_eq!(parse_unit("K").unwrap(), TemperatureUnit::K);
}

#[test]
fn parsing_is_case_insensitive() {
    assert_eq!(parse_unit("fahrenheit").unwrap(), TemperatureUnit::Fahrenheit);
    assert_eq!(parse_unit("FAHRENHEIT").unwrap(), TemperatureUnit::Fahrenheit);
    assert_eq!(parse_unit("FaHrEnHeIt").unwrap(), TemperatureUnit::Fahrenheit);
    assert_eq!(parse_unit("celsius").unwrap(), TemperatureUnit::Celsius);
    assert_eq!(parse_unit("CELSIUS").unwrap(), TemperatureUnit::Celsius);
    assert_eq!(parse_unit("kelvin").unwrap(), TemperatureUnit::Kelvin);
    assert_eq!(parse_unit("KeLvIn").unwrap(), TemperatureUnit::Kelvin);
    assert_eq!(parse_unit("f").unwrap(), TemperatureUnit::F);
    assert_eq!(parse_unit("c").unwrap(), TemperatureUnit::C);
    assert_eq!(parse_unit("k").unwrap(), TemperatureUnit::K);
}

#[test]
fn rejects_a_token_outside_the_accepted_set() {
    let err = parse_unit("Rankine").unwrap_err();
    assert_eq!(err.token, "Rankine");
    let msg = err.message();
    assert!(msg.contains("Rankine"));
    assert_eq!(
        msg,
        "invalid unit 'Rankine': expected one of Fahrenheit, Celsius, Kelvin, F, C, K"
    );
}

#[test]
fn rejects_the_empty_token() {
    let err = parse_unit("").unwrap_err();
    assert_eq!(err.token, "");
}

#[test]
fn rejects_a_token_with_trailing_text() {
    assert!(parse_unit("Kelvins").is_err());
    assert!(parse_unit(" k").is_err());
}

#[test]
fn long_form_maps_aliases_and_fixes_long_forms() {
    assert_eq!(long_form(&TemperatureUnit::F), TemperatureUnit::Fahrenheit);
    assert_eq!(long_form(&TemperatureUnit::C), TemperatureUnit::Celsius);
    assert_eq!(long_form(&TemperatureUnit::K), TemperatureUnit::Kelvin);
    assert_eq!(long_form(&TemperatureUnit::Fahrenheit), TemperatureUnit::Fahrenheit);
    assert_eq!(long_form(&TemperatureUnit::Celsius), TemperatureUnit::Celsius);
    assert_eq!(long_form(&TemperatureUnit::Kelvin), TemperatureUnit::Kelvin);
}
