use black_scholes::{check_parameters, InvalidParameter, OptionType};

#[test]
fn accepts_all_positive_parameters() {
    assert_eq!(check_parameters(true, true, true, true), Ok(()));
}

#[test]
fn rejects_non_positive_spot() {
    assert_eq!(check_parameters(false, true, true, true), Err(InvalidParameter::Spot));
}

#[test]
fn rejects_non_positive_strike() {
    assert_eq!(check_parameters(true, false, true, true), Err(InvalidParameter::Strike));
}

#[test]
fn rejects_non_positive_expiry() {
    assert_eq!(check_parameters(true, true, false, true), Err(InvalidParameter::Expiry));
}

#[test]
fn rejects_non_positive_volatility() {
    assert_eq!(check_parameters(true, true, true, false), Err(InvalidParameter::Volatility));
}

#[test]
fn reports_first_failing_constraint_only() {
    assert_eq!(check_parameters(false, false, false, false), Err(InvalidParameter::Spot));
    assert_eq!(check_parameters(true, false, false, false), Err(InvalidParameter::Strike));
    assert_eq!(check_parameters(true, true, false, false), Err(InvalidParameter::Expiry));
}

#[test]
fn parameter_messages_name_the_field() {
    assert_eq!(InvalidParameter::Spot.message(), "Spot price must be positive");
    assert_eq!(InvalidParameter::Strike.message(), "Strike price must be positive");
    assert_eq!(InvalidParameter::Expiry.message(), "Time to expiry must be positive");
    assert_eq!(InvalidParameter::Volatility.message(), "Volatility must be positive");
}

#[test]
fn option_kinds_are_distinct() {
    assert_ne!(OptionType::Call, OptionType::Put);
    let k = OptionType::Put;
    let copy = k;
    assert_eq!(k, copy);
}
