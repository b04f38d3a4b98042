use fleet_battle::parse::ParseError;
use fleet_battle::units::FleetForce;
use fleet_battle::units::Formation;

#[test]
fn parse_force_accepts_numerals_in_range() {
    assert_eq!(FleetForce::parse("0").unwrap().inner(), 0);
    assert_eq!(FleetForce::parse("42").unwrap().inner(), 42);
    assert_eq!(FleetForce::parse("100").unwrap().inner(), 100);
    assert_eq!(FleetForce::parse("007").unwrap().inner(), 7);
}

#[test]
fn parse_force_rejects_out_of_range() {
    assert_eq!(FleetForce::parse("101").unwrap_err(), ParseError::OutOfRange);
    assert_eq!(FleetForce::parse("1000").unwrap_err(), ParseError::OutOfRange);
    assert_eq!(
        FleetForce::parse("99999999999999999999").unwrap_err(),
        ParseError::OutOfRange
    );
}

#[test]
fn parse_force_rejects_non_numeric() {
    assert_eq!(FleetForce::parse("").unwrap_err(), ParseError::NotNumeric);
    assert_eq!(FleetForce::parse("abc").unwrap_err(), ParseError::NotNumeric);
    assert_eq!(FleetForce::parse("10x").unwrap_err(), ParseError::NotNumeric);
    assert_eq!(FleetForce::parse("-1").unwrap_err(), ParseError::NotNumeric);
    assert_eq!(FleetForce::parse("+3").unwrap_err(), ParseError::NotNumeric);
    assert_eq!(FleetForce::parse(" 5").unwrap_err(), ParseError::NotNumeric);
}

#[test]
fn parse_formation_bounds() {
    assert_eq!(Formation::parse("0").unwrap().0, 0);
    assert_eq!(Formation::parse("7").unwrap().0, 7);
    assert_eq!(Formation::parse("8").unwrap_err(), ParseError::OutOfRange);
    assert_eq!(Formation::parse("x").unwrap_err(), ParseError::NotNumeric);
}
