use sweepwatch::address::parse_address;
use sweepwatch::errors::LoadError;

const USDT_BYTES: [u8; 20] = [
    0xda, 0xc1, 0x7f, 0x95, 0x8d, 0x2e, 0xe5, 0x23, 0xa2, 0x20, 0x62, 0x06, 0x99, 0x45, 0x97,
    0xc1, 0x3d, 0x83, 0x1e, 0xc7,
];

#[test]
fn parses_with_lowercase_marker() {
    let a = parse_address(b"0xdAC17F958D2ee523a2206206994597C13D831ec7").unwrap();
    assert_eq!(a.as_bytes().as_slice(), &USDT_BYTES);
}

#[test]
fn parses_with_uppercase_marker_and_bare() {
    let a = parse_address(b"0XdAC17F958D2ee523a2206206994597C13D831ec7").unwrap();
    assert_eq!(a.as_bytes().as_slice(), &USDT_BYTES);
    let b = parse_address(b"dAC17F958D2ee523a2206206994597C13D831ec7").unwrap();
    assert_eq!(b.as_bytes().as_slice(), &USDT_BYTES);
    assert_eq!(a, b);
}

#[test]
fn parses_all_digit_cases() {
    let a = parse_address(b"0x0123456789abcdefABCDEF0123456789abcdefAB").unwrap();
    assert_eq!(
        a.as_bytes().as_slice(),
        &[
            0x01, 0x23, 0x45, 0x67, 0x89, 0xab, 0xcd, 0xef, 0xab, 0xcd, 0xef, 0x01, 0x23, 0x45,
            0x67, 0x89, 0xab, 0xcd, 0xef, 0xab,
        ]
    );
}

#[test]
fn rejects_wrong_length() {
    assert_eq!(parse_address(b""), Err(LoadError::AddressLength));
    assert_eq!(parse_address(b"0x"), Err(LoadError::AddressLength));
    assert_eq!(parse_address(b"0x1234"), Err(LoadError::AddressLength));
    // Forty characters in all, but the marker leaves only thirty-eight digits.
    assert_eq!(
        parse_address(b"0xdAC17F958D2ee523a2206206994597C13D83"),
        Err(LoadError::AddressLength)
    );
    // One digit too many.
    assert_eq!(
        parse_address(b"0xdAC17F958D2ee523a2206206994597C13D831ec70"),
        Err(LoadError::AddressLength)
    );
}

#[test]
fn rejects_bad_characters() {
    assert_eq!(
        parse_address(b"0xgAC17F958D2ee523a2206206994597C13D831ec7"),
        Err(LoadError::AddressCharacter)
    );
    assert_eq!(
        parse_address(b"dAC17F958D2ee523a2206206994597C13D831ec "),
        Err(LoadError::AddressCharacter)
    );
    // A second marker inside the digits is not hex.
    assert_eq!(
        parse_address(b"0x0xC17F958D2ee523a2206206994597C13D831ec7"),
        Err(LoadError::AddressCharacter)
    );
}

#[test]
fn length_fault_wins_over_character_fault() {
    // Both too short and full of non-hex text: the length is checked first.
    assert_eq!(parse_address(b"not-an-address"), Err(LoadError::AddressLength));
}

#[test]
fn duplicate_copies_the_bytes() {
    let a = parse_address(b"0xdAC17F958D2ee523a2206206994597C13D831ec7").unwrap();
    let d = a.duplicate();
    assert_eq!(d.as_bytes(), a.as_bytes());
    assert_eq!(d, a);
}
