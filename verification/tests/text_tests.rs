use actuarial_system::text::{format_fixed, parse_fixed};
use actuarial_system::RATE_ONE;

#[test]
fn test_format_canonical() {
    assert_eq!(format_fixed(900_000_000), b"0.0900000000".to_vec());
    assert_eq!(format_fixed(12_500_000_000), b"1.2500000000".to_vec());
    assert_eq!(format_fixed(0), b"0.0000000000".to_vec());
    assert_eq!(format_fixed(RATE_ONE), b"1.0000000000".to_vec());
    assert_eq!(format_fixed(377_358_491), b"0.0377358491".to_vec());
}

#[test]
fn test_round_trip_values() {
    let values: [u64; 9] = [
        0,
        1,
        9,
        10,
        900_000_000,
        RATE_ONE,
        10_083_333_333,
        100_000_000_000_000,
        u64::MAX,
    ];
    for v in values {
        let text = format_fixed(v);
        assert_eq!(parse_fixed(&text), Some(v));
    }
}

#[test]
fn test_reemitting_is_byte_identical() {
    // Loading a canonical value and emitting it again reproduces the text.
    let text = b"1.2999999999".to_vec();
    let v = parse_fixed(&text).expect("canonical text must parse");
    assert_eq!(format_fixed(v), text);
}

#[test]
fn test_parse_rejects_malformed() {
    assert_eq!(parse_fixed(&b"abc".to_vec()), None);
    assert_eq!(parse_fixed(&b"1.25".to_vec()), None);  // too few fraction digits
    assert_eq!(parse_fixed(&b".2500000000".to_vec()), None);  // no integer part
    assert_eq!(parse_fixed(&b"1x2500000000".to_vec()), None);  // no point
    assert_eq!(parse_fixed(&b"1.25000000x0".to_vec()), None);  // bad digit
}
