use rns_tun::fingerprint::{Fingerprint, FingerprintParseError};

#[test]
fn parse_simple_pair() {
    let f = Fingerprint::from_hex("aabb").unwrap();
    assert_eq!(f.len(), 2);
    let g = Fingerprint::from_bytes(vec![0xaa, 0xbb]);
    assert!(f.matches(&g));
}

#[test]
fn parse_mixed_case() {
    let f = Fingerprint::from_hex("DeadBEEF01").unwrap();
    let g = Fingerprint::from_bytes(vec![0xde, 0xad, 0xbe, 0xef, 0x01]);
    assert!(f.matches(&g));
    assert!(g.matches(&f));
}

#[test]
fn parse_twenty_byte_fingerprint() {
    let s = "aabb".repeat(10);
    let f = Fingerprint::from_hex(&s).unwrap();
    assert_eq!(f.len(), 20);
    let mut expected = Vec::new();
    for _ in 0..10 {
        expected.push(0xaa);
        expected.push(0xbb);
    }
    assert!(f.matches(&Fingerprint::from_bytes(expected)));
}

#[test]
fn parse_empty_rejected() {
    assert_eq!(
        Fingerprint::from_hex("").unwrap_err(),
        FingerprintParseError::Empty
    );
}

#[test]
fn parse_odd_length_rejected() {
    assert_eq!(
        Fingerprint::from_hex("abc").unwrap_err(),
        FingerprintParseError::OddLength
    );
}

#[test]
fn parse_invalid_digit_rejected() {
    assert_eq!(
        Fingerprint::from_hex("12g4").unwrap_err(),
        FingerprintParseError::InvalidDigit
    );
    assert_eq!(
        Fingerprint::from_hex("zz").unwrap_err(),
        FingerprintParseError::InvalidDigit
    );
}

#[test]
fn equality_is_exact() {
    let a = Fingerprint::from_hex("0102").unwrap();
    let b = Fingerprint::from_hex("0102").unwrap();
    let c = Fingerprint::from_hex("0103").unwrap();
    let d = Fingerprint::from_hex("010203").unwrap();
    assert!(a.matches(&b));
    assert!(!a.matches(&c));
    assert!(!a.matches(&d));
}

#[test]
fn duplicate_preserves_bytes() {
    let a = Fingerprint::from_hex("cafe").unwrap();
    let b = a.duplicate();
    assert!(a.matches(&b));
}
