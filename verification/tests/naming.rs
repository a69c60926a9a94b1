use ping_dispatch::naming::{generate_name, is_valid_name, CHANNEL_NAME_LEN};

#[test]
fn generated_name_has_requested_length() {
    assert_eq!(generate_name(CHANNEL_NAME_LEN).chars().count(), 50);
    assert_eq!(generate_name(7).chars().count(), 7);
    assert_eq!(generate_name(1).len(), 1);
}

#[test]
fn generated_name_of_length_zero_is_empty() {
    assert_eq!(generate_name(0), "");
}

#[test]
fn generated_name_is_alphanumeric() {
    for _ in 0..200 {
        let name = generate_name(CHANNEL_NAME_LEN);
        assert!(name.chars().all(|c| c.is_ascii_alphanumeric()));
        assert!(is_valid_name(&name, CHANNEL_NAME_LEN));
    }
}

#[test]
fn generated_names_cover_letters_and_digits() {
    let name = generate_name(20000);
    assert!(name.chars().any(|c| c.is_ascii_digit()));
    assert!(name.chars().any(|c| c.is_ascii_lowercase()));
    assert!(name.chars().any(|c| c.is_ascii_uppercase()));
}

#[test]
fn valid_name_accepts_letters_and_digits() {
    assert!(is_valid_name("abcXYZ019", 9));
    assert!(is_valid_name("", 0));
    assert!(is_valid_name("AZaz09", 6));
}

#[test]
fn valid_name_rejects_wrong_length() {
    assert!(!is_valid_name("abc", 4));
    assert!(!is_valid_name("abc", 2));
    assert!(!is_valid_name("", 1));
}

#[test]
fn valid_name_rejects_other_characters() {
    assert!(!is_valid_name("ab-c", 4));
    assert!(!is_valid_name("ab c", 4));
    assert!(!is_valid_name("abc_", 4));
    assert!(!is_valid_name("/abc", 4));
    assert!(!is_valid_name(":abc", 4));
    assert!(!is_valid_name("@abc", 4));
    assert!(!is_valid_name("[abc", 4));
    assert!(!is_valid_name("`abc", 4));
    assert!(!is_valid_name("{abc", 4));
}

#[test]
fn valid_name_counts_characters_not_bytes() {
    assert!(!is_valid_name("é", 1));
    assert!(!is_valid_name("é", 2));
    assert!(!is_valid_name("aé", 2));
}
