use secure_eraser::policy::WipePattern;

#[test]
fn parse_zeros() {
    assert_eq!(WipePattern::from_str("zeros"), Ok(WipePattern::Zeros));
}

#[test]
fn parse_ones() {
    assert_eq!(WipePattern::from_str("ones"), Ok(WipePattern::Ones));
}

#[test]
fn parse_random() {
    assert_eq!(WipePattern::from_str("random"), Ok(WipePattern::Random));
}

#[test]
fn parse_dod3() {
    assert_eq!(WipePattern::from_str("dod3"), Ok(WipePattern::Dod3Pass));
}

#[test]
fn parse_gutmann35() {
    assert_eq!(WipePattern::from_str("gutmann35"), Ok(WipePattern::Gutmann35));
}

#[test]
fn parse_ignores_ascii_case() {
    assert_eq!(WipePattern::from_str("ZeRoS"), Ok(WipePattern::Zeros));
    assert_eq!(WipePattern::from_str("GUTMANN35"), Ok(WipePattern::Gutmann35));
    assert_eq!(WipePattern::from_str("DoD3"), Ok(WipePattern::Dod3Pass));
}

#[test]
fn parse_rejects_unknown() {
    assert!(WipePattern::from_str("").is_err());
    assert!(WipePattern::from_str("zero").is_err());
    assert!(WipePattern::from_str("dod7").is_err());
    assert!(WipePattern::from_str("gutmann").is_err());
}
