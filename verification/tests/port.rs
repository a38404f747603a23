use baker_link_env::port::PortSpec;
use baker_link_env::supervisor::StartError;

#[test]
fn parse_accepts_plain_numbers() {
    assert_eq!(PortSpec::parse("0"), Ok(0));
    assert_eq!(PortSpec::parse("1"), Ok(1));
    assert_eq!(PortSpec::parse("50001"), Ok(50001));
    assert_eq!(PortSpec::parse("65535"), Ok(65535));
}

#[test]
fn parse_accepts_leading_zeros_and_sign() {
    assert_eq!(PortSpec::parse("007"), Ok(7));
    assert_eq!(PortSpec::parse("+123"), Ok(123));
    assert_eq!(PortSpec::parse("+0"), Ok(0));
}

#[test]
fn parse_rejects_out_of_range_numbers() {
    assert_eq!(PortSpec::parse("65536"), Err(StartError::InvalidPort));
    assert_eq!(PortSpec::parse("99999999999999999999"), Err(StartError::InvalidPort));
}

#[test]
fn parse_rejects_text_that_is_no_number() {
    assert_eq!(PortSpec::parse(""), Err(StartError::InvalidPort));
    assert_eq!(PortSpec::parse("+"), Err(StartError::InvalidPort));
    assert_eq!(PortSpec::parse("-1"), Err(StartError::InvalidPort));
    assert_eq!(PortSpec::parse("50a01"), Err(StartError::InvalidPort));
    assert_eq!(PortSpec::parse(" 50001"), Err(StartError::InvalidPort));
    assert_eq!(PortSpec::parse("50001 "), Err(StartError::InvalidPort));
    assert_eq!(PortSpec::parse("5.0"), Err(StartError::InvalidPort));
    assert_eq!(PortSpec::parse("port"), Err(StartError::InvalidPort));
}

#[test]
fn ports_round_trip_through_text() {
    for port in [0u16, 1, 9, 10, 50001, 65535] {
        let text = PortSpec::to_text(port);
        assert_eq!(PortSpec::parse(&text), Ok(port));
    }
    assert_eq!(PortSpec::to_text(50001), "50001");
    assert_eq!(PortSpec::to_text(0), "0");
}
