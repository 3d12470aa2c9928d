use coinswap::address::Address;
use coinswap::amount::Amount;
use coinswap::wallet::{Destination, SendAmount};
use std::str::FromStr;

#[test]
fn test_send_amount_parsing() {
    assert_eq!(SendAmount::from_str("max").unwrap(), SendAmount::Max);
    assert_eq!(
        SendAmount::from_str("1000").unwrap(),
        SendAmount::Amount(Amount::from_sat(1000))
    );
    assert_ne!(
        SendAmount::from_str("1000").unwrap(),
        SendAmount::from_str("100").unwrap()
    );
    assert!(SendAmount::from_str("not a number").is_err());
}

#[test]
fn test_destination_parsing() {
    assert_eq!(
        Destination::from_str("wallet").unwrap(),
        Destination::Wallet
    );
    let address1 = "32iVBEu4dxkUQk9dJbZUiBiQdmypcEyJRf";
    assert!(matches!(
        Destination::from_str(address1),
        Ok(Destination::Address(_))
    ));

    let address1 = Destination::Address(
        Address::from_str("32iVBEu4dxkUQk9dJbZUiBiQdmypcEyJRf").unwrap(),
    );

    let address2 = Destination::Address(
        Address::from_str("132F25rTsvBdp9JzLLBHP5mvGY66i1xdiM").unwrap(),
    );
    assert_ne!(address1, address2);
    assert!(Destination::from_str("invalid address").is_err());
}

#[test]
fn send_amount_reads_max_or_decimal_satoshis() {
    assert_eq!(SendAmount::from_str("0").unwrap(), SendAmount::Amount(Amount::from_sat(0)));
    assert_eq!(SendAmount::from_str("+21").unwrap(), SendAmount::Amount(Amount::from_sat(21)));
    assert_eq!(
        SendAmount::from_str("18446744073709551615").unwrap(),
        SendAmount::Amount(Amount::from_sat(u64::MAX))
    );
    for refused in ["", "Max", "MAX", "max ", " max", "18446744073709551616", "-5", "1e3", "12 "] {
        assert!(SendAmount::from_str(refused).is_err(), "{:?}", refused);
    }
}

#[test]
fn send_amount_and_destination_parse_as_strings_do() {
    let amount: SendAmount = "max".parse().unwrap();
    assert_eq!(amount, SendAmount::Max);
    let amount: SendAmount = "77".parse().unwrap();
    assert_eq!(amount, SendAmount::Amount(Amount::from_sat(77)));
    assert!("seventy".parse::<SendAmount>().is_err());
    let destination: Destination = "wallet".parse().unwrap();
    assert_eq!(destination, Destination::Wallet);
    let destination: Destination = "32iVBEu4dxkUQk9dJbZUiBiQdmypcEyJRf".parse().unwrap();
    assert_eq!(
        destination,
        Destination::Address(Address::from_str("32iVBEu4dxkUQk9dJbZUiBiQdmypcEyJRf").unwrap())
    );
    assert!("Wallet".parse::<Destination>().is_err());
}

#[test]
fn destination_keeps_the_address_as_written() {
    let text = "tb1qw508d6qejxtdg4y5r3zarvary0c5xw7kxpjzsx";
    match Destination::from_str(text).unwrap() {
        Destination::Address(address) => assert_eq!(address.as_str(), text),
        Destination::Wallet => panic!("an address was given"),
    }
    for refused in ["", "wallet ", "WALLET", "tb1qw508d6qejxtdg4y5r3zarvary0c5xw7kxpjzsy"] {
        assert!(Destination::from_str(refused).is_err(), "{:?}", refused);
    }
}
