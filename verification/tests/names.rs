use ttp_core::{CommunicationType, DataTypes};

#[test]
fn every_data_type_parses_back_from_its_name() {
    for t in DataTypes::iter() {
        assert_eq!(DataTypes::parse(t.to_string()), t);
    }
}

#[test]
fn every_communication_type_parses_back_from_its_uppercase_name() {
    for t in CommunicationType::iter() {
        assert_eq!(CommunicationType::parse(t.to_string().to_uppercase()), t);
    }
}

#[test]
fn parse_lowercases_beyond_ascii() {
    // KELVIN SIGN lowercases to an ASCII 'k'.
    assert_eq!(DataTypes::parse("LIN\u{212A}".to_string()), DataTypes::link);
    assert_eq!(DataTypes::parse("l_i_n_k".to_string()), DataTypes::link);
    assert_eq!(DataTypes::parse("".to_string()), DataTypes::error_type);
}

#[test]
fn names_are_the_declared_identifiers() {
    assert_eq!(DataTypes::private_key_hash.to_string(), "private_key_hash");
    assert_eq!(CommunicationType::error_invalid_private_key.to_string(), "error_invalid_private_key");
    assert_eq!(DataTypes::from_number(5).to_string(), "link");
}
