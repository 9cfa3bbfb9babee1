use wol::mac::parse_mac;

const EXPECTED: [u8; 6] = [0xAA, 0xBB, 0xCC, 0xDD, 0xEE, 0xFF];

#[test]
fn three_notations_give_the_same_address() {
    assert_eq!(parse_mac("AA:BB:CC:DD:EE:FF"), Ok(EXPECTED));
    assert_eq!(parse_mac("aa-bb-cc-dd-ee-ff"), Ok(EXPECTED));
    assert_eq!(parse_mac("AABBCCDDEEFF"), Ok(EXPECTED));
}

#[test]
fn bytes_keep_their_order() {
    assert_eq!(parse_mac("01:23:45:67:89:ab"), Ok([0x01, 0x23, 0x45, 0x67, 0x89, 0xAB]));
    assert_eq!(parse_mac("0123456789ab"), Ok([0x01, 0x23, 0x45, 0x67, 0x89, 0xAB]));
}

#[test]
fn mixed_separators_are_accepted() {
    assert_eq!(parse_mac("AA:BB-CC:DD-EE:FF"), Ok(EXPECTED));
}

#[test]
fn mixed_case_is_accepted() {
    assert_eq!(parse_mac("aA:Bb:cC:Dd:eE:Ff"), Ok(EXPECTED));
    assert_eq!(parse_mac("aAbBcCdDeEfF"), Ok(EXPECTED));
}

#[test]
fn one_digit_fields_are_accepted() {
    assert_eq!(parse_mac("1:2:3:4:5:6"), Ok([1, 2, 3, 4, 5, 6]));
    assert_eq!(parse_mac("0:a:0B:f:00:10"), Ok([0, 10, 11, 15, 0, 16]));
}

#[test]
fn extreme_bytes() {
    assert_eq!(parse_mac("00:00:00:00:00:00"), Ok([0; 6]));
    assert_eq!(parse_mac("ff:ff:ff:ff:ff:ff"), Ok([255; 6]));
    assert_eq!(parse_mac("000000000000"), Ok([0; 6]));
    assert_eq!(parse_mac("FFFFFFFFFFFF"), Ok([255; 6]));
}

#[test]
fn wrong_field_count_fails() {
    assert_eq!(parse_mac("AA:BB:CC"), Err(()));
    assert_eq!(parse_mac("AA:BB:CC:DD:EE"), Err(()));
    assert_eq!(parse_mac("AA:BB:CC:DD:EE:FF:00"), Err(()));
    assert_eq!(parse_mac(":"), Err(()));
    assert_eq!(parse_mac("-"), Err(()));
}

#[test]
fn non_hex_field_fails() {
    assert_eq!(parse_mac("GG:BB:CC:DD:EE:FF"), Err(()));
    assert_eq!(parse_mac("AA:BB:CC:DD:EE:Fg"), Err(()));
    assert_eq!(parse_mac("AA:BB:CC:DD:EE: F"), Err(()));
}

#[test]
fn bare_text_of_wrong_length_fails() {
    assert_eq!(parse_mac("AABBCC"), Err(()));
    assert_eq!(parse_mac("AABBCCDDEEF"), Err(()));
    assert_eq!(parse_mac("AABBCCDDEEFF0"), Err(()));
    assert_eq!(parse_mac(""), Err(()));
}

#[test]
fn bare_text_with_a_non_hex_character_fails() {
    assert_eq!(parse_mac("AABBCCDDEEFG"), Err(()));
    assert_eq!(parse_mac("+A+B+C+D+E+F"), Err(()));
    assert_eq!(parse_mac("AABBCCDDEE F"), Err(()));
}

#[test]
fn empty_field_fails() {
    assert_eq!(parse_mac("AA::CC:DD:EE:FF"), Err(()));
    assert_eq!(parse_mac(":BB:CC:DD:EE:FF"), Err(()));
    assert_eq!(parse_mac("AA:BB:CC:DD:EE:"), Err(()));
    assert_eq!(parse_mac(":::::"), Err(()));
}

#[test]
fn field_of_more_than_two_digits_fails() {
    assert_eq!(parse_mac("0AA:BB:CC:DD:EE:FF"), Err(()));
    assert_eq!(parse_mac("AA:BB:CC:DD:EE:100"), Err(()));
}

#[test]
fn signed_field_fails() {
    assert_eq!(parse_mac("+A:BB:CC:DD:EE:FF"), Err(()));
}

#[test]
fn non_ascii_text_fails() {
    assert_eq!(parse_mac("ÀA:BB:CC:DD:EE:FF"), Err(()));
    assert_eq!(parse_mac("éééééé"), Err(()));
    assert_eq!(parse_mac("AABBCCDDEEFé"), Err(()));
    assert_eq!(parse_mac("aé0000000000"), Err(()));
}

#[test]
fn argument_words_are_no_addresses() {
    assert_eq!(parse_mac("bad-mac"), Err(()));
    assert_eq!(parse_mac("192.168.1.0/24"), Err(()));
}
