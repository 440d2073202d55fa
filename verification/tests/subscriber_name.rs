use zero2prod_axum::domain::subscriber_name::{
    contains_forbidden, is_blank_text, is_forbidden_char, name_rejection, rule_accepts,
    MAX_NAME_GRAPHEMES,
};
use zero2prod_axum::domain::SubsciberName;

#[test]
fn a_valid_name_is_kept_as_given() {
    let name = SubsciberName::parse("Ursula Le Guin".to_string()).unwrap();
    assert_eq!(name.as_ref(), "Ursula Le Guin");
}

#[test]
fn surrounding_whitespace_is_not_trimmed_away() {
    let name = SubsciberName::parse("  le guin \n".to_string()).unwrap();
    assert_eq!(name.as_ref(), "  le guin \n");
}

#[test]
fn empty_name_is_rejected() {
    assert!(SubsciberName::parse("".to_string()).is_err());
}

#[test]
fn whitespace_only_names_are_rejected() {
    assert!(SubsciberName::parse(" ".to_string()).is_err());
    assert!(SubsciberName::parse("   ".to_string()).is_err());
    assert!(SubsciberName::parse("\t\n\r".to_string()).is_err());
    assert!(SubsciberName::parse("\u{2003}\u{a0}".to_string()).is_err());
}

#[test]
fn a_name_of_255_graphemes_is_valid() {
    let name = "a".repeat(255);
    assert!(SubsciberName::parse(name).is_ok());
}

#[test]
fn a_name_of_256_graphemes_is_rejected() {
    let name = "a".repeat(256);
    assert!(SubsciberName::parse(name).is_err());
}

#[test]
fn length_is_counted_in_graphemes_not_characters() {
    // Each cluster is a letter and a combining mark: two characters, six bytes.
    let cluster = "\u{915}\u{93f}";
    assert!(SubsciberName::parse(cluster.repeat(255)).is_ok());
    assert!(SubsciberName::parse(cluster.repeat(256)).is_err());
}

#[test]
fn names_with_a_forbidden_character_are_rejected() {
    for c in ['/', '(', ')', '"', '<', '>', '\\', '{', '}'] {
        let name = format!("le{}guin", c);
        assert!(SubsciberName::parse(name).is_err());
        assert!(SubsciberName::parse(c.to_string()).is_err());
    }
}

#[test]
fn other_punctuation_is_allowed() {
    assert!(SubsciberName::parse("O'Brien-Smith, Jr. [ed.] & co".to_string()).is_ok());
}

#[test]
fn rejected_name_is_named_in_the_message() {
    let message = SubsciberName::parse("le/guin".to_string()).err().unwrap();
    assert_eq!(message, "le/guin is not valid subscriber name");
    assert_eq!(name_rejection(""), " is not valid subscriber name");
}

#[test]
fn forbidden_characters_are_exactly_nine() {
    let forbidden: Vec<char> = (0u32..0x3000)
        .filter_map(char::from_u32)
        .filter(|c| is_forbidden_char(*c))
        .collect();
    assert_eq!(forbidden, vec!['"', '(', ')', '/', '<', '>', '\\', '{', '}']);
}

#[test]
fn contains_forbidden_looks_at_every_character() {
    assert!(!contains_forbidden(""));
    assert!(!contains_forbidden("le guin"));
    assert!(contains_forbidden("{le guin"));
    assert!(contains_forbidden("le guin}"));
    assert!(contains_forbidden("le<guin"));
}

#[test]
fn blank_text_is_empty_or_all_whitespace() {
    assert!(is_blank_text(""));
    assert!(is_blank_text(" \t"));
    assert!(!is_blank_text(" a "));
    assert!(!is_blank_text("\u{200b}"));
}

#[test]
fn the_rule_joins_the_three_observations() {
    assert_eq!(MAX_NAME_GRAPHEMES, 255);
    assert!(rule_accepts(false, 0, false));
    assert!(rule_accepts(false, 255, false));
    assert!(!rule_accepts(false, 256, false));
    assert!(!rule_accepts(true, 1, false));
    assert!(!rule_accepts(false, 1, true));
    assert!(!rule_accepts(true, 300, true));
}
