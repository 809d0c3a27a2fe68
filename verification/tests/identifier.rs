use isqr::generate_identifier;

const ALPHABET: &str = "ABCDEFGHIJKLMNOPQRSTUVWXYZabcdefghijklmnopqrstuvwxyz0123456789";

#[test]
fn identifier_is_six_characters_from_the_alphabet() {
    for ts in [0u64, 1, 61, 62, 4095, 1_700_000_000_000, u64::MAX] {
        let id = generate_identifier(ts);
        assert_eq!(id.chars().count(), 6);
        for c in id.chars() {
            assert!(ALPHABET.contains(c), "unexpected character {c:?}");
        }
    }
}

#[test]
fn identifier_exact_values() {
    assert_eq!(generate_identifier(0), "AAAAAA");
    assert_eq!(generate_identifier(1), "BAAAAA");
    assert_eq!(generate_identifier(61), "9AAAAA");
    assert_eq!(generate_identifier(62), "ABAAAA");
    assert_eq!(generate_identifier(1_700_000_000_000), "squym5");
    assert_eq!(generate_identifier(u64::MAX), "PiRKGB");
}

#[test]
fn identifier_is_deterministic_in_the_timestamp() {
    assert_eq!(
        generate_identifier(1_700_000_000_000),
        generate_identifier(1_700_000_000_000)
    );
    assert_ne!(generate_identifier(3), generate_identifier(4));
}
