use zero2prod::domain::{
    is_white_space_char, NewSubscriber, SubscriberName, MAX_NAME_GRAPHEMES,
};

#[test]
fn a_256_grapheme_long_name_is_valid() {
    let name = "ё".repeat(256);
    assert!(SubscriberName::parse(name).is_ok());
}

#[test]
fn a_name_longer_than_256_graphemes_is_rejected() {
    let name = "a".repeat(257);
    assert!(SubscriberName::parse(name).is_err());
}

#[test]
fn graphemes_not_chars_are_counted() {
    // Each "e" with a combining diaeresis is two chars but one grapheme.
    let name = "e\u{308}".repeat(256);
    assert_eq!(name.chars().count(), 512);
    assert!(SubscriberName::parse(name).is_ok());
    let name = "e\u{308}".repeat(257);
    assert!(SubscriberName::parse(name).is_err());
}

#[test]
fn whitespace_only_names_are_rejected() {
    assert!(SubscriberName::parse(" ".to_string()).is_err());
    assert!(SubscriberName::parse(" \t\n\u{3000}".to_string()).is_err());
}

#[test]
fn empty_string_is_rejected() {
    assert!(SubscriberName::parse("".to_string()).is_err());
}

#[test]
fn names_containing_an_invalid_character_are_rejected() {
    for name in &['/', '(', ')', '"', '<', '>', '\\', '{', '}'] {
        let name = format!("Ursula{}", name);
        assert!(SubscriberName::parse(name).is_err());
    }
}

#[test]
fn a_valid_name_is_parsed_successfully() {
    let name = "Ursula Le Guin".to_string();
    let parsed = SubscriberName::parse(name).unwrap();
    assert_eq!(parsed.as_ref(), "Ursula Le Guin");
}

#[test]
fn a_name_with_surrounding_whitespace_is_kept_as_given() {
    let parsed = SubscriberName::parse("  neil cam ".to_string()).unwrap();
    assert_eq!(parsed.as_ref(), "  neil cam ");
}

#[test]
fn rejection_message_names_the_input() {
    let err = SubscriberName::parse("<script>".to_string()).err().unwrap();
    assert_eq!(err, "<script> is not a valid subscriber name");
    let err = SubscriberName::parse("".to_string()).err().unwrap();
    assert_eq!(err, " is not a valid subscriber name");
}

#[test]
fn meets_name_rules_decides_on_the_given_count() {
    assert!(SubscriberName::meets_name_rules("neil", MAX_NAME_GRAPHEMES));
    assert!(!SubscriberName::meets_name_rules("neil", MAX_NAME_GRAPHEMES + 1));
    assert!(!SubscriberName::meets_name_rules("ne/il", 5));
    assert!(!SubscriberName::meets_name_rules("   ", 3));
    assert!(!SubscriberName::meets_name_rules("", 0));
}

#[test]
fn white_space_agrees_with_std() {
    for u in 0u32..=0x10FFFF {
        if let Some(c) = char::from_u32(u) {
            assert_eq!(is_white_space_char(c), c.is_whitespace(), "at {:#x}", u);
        }
    }
}

#[test]
fn blank_agrees_with_trim() {
    for s in ["", " ", "\u{85}\u{a0}", "a", " a ", "\u{200b}"] {
        let expected = s.trim().is_empty();
        assert_eq!(SubscriberName::parse(s.to_string()).is_err(), expected, "{:?}", s);
    }
}

#[test]
fn new_subscriber_holds_a_parsed_name() {
    let s = NewSubscriber {
        email: "ursula_le_guin@gmail.com".to_string(),
        name: SubscriberName::parse("Ursula".to_string()).unwrap(),
    };
    assert_eq!(s.name.as_ref(), "Ursula");
    assert_eq!(s.email, "ursula_le_guin@gmail.com");
}
