use rcli::process_genpass;

const UPPER: &str = "ABCDEFGHJKLMNOPQRSTUVWXYZ";
const LOWER: &str = "abcdefghijkmnpqrstuvwxyz";
const NUMBER: &str = "123456789";
const SYMBOL: &str = "!@#$%^&*-_";

#[test]
fn test_genpass_length_and_alphabet() {
    let p = process_genpass(16, true, true, true, true).unwrap();
    assert_eq!(p.len(), 16);
    for c in p.chars() {
        assert!(
            UPPER.contains(c) || LOWER.contains(c) || NUMBER.contains(c) || SYMBOL.contains(c),
            "unexpected character {c:?}"
        );
    }
}

#[test]
fn test_genpass_has_each_enabled_class() {
    let p = process_genpass(8, true, true, true, true).unwrap();
    assert!(p.chars().any(|c| UPPER.contains(c)));
    assert!(p.chars().any(|c| LOWER.contains(c)));
    assert!(p.chars().any(|c| NUMBER.contains(c)));
    assert!(p.chars().any(|c| SYMBOL.contains(c)));
}

#[test]
fn test_genpass_single_class() {
    let p = process_genpass(12, false, false, true, false).unwrap();
    assert_eq!(p.len(), 12);
    assert!(p.chars().all(|c| NUMBER.contains(c)));
}

#[test]
fn test_genpass_minimal_length() {
    // Length exactly the number of enabled classes.
    let p = process_genpass(4, true, true, true, true).unwrap();
    assert_eq!(p.len(), 4);
}
