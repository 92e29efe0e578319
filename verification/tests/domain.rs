use newsletter::domain::{ConfirmationToken, InputError, SubscriberEmail, SubscriberName};

fn email_is_valid(text: &str) -> bool {
    SubscriberEmail::parse(text.to_string()).is_ok()
}

fn name_is_valid(text: &str) -> bool {
    SubscriberName::parse(text.to_string()).is_ok()
}

#[test]
fn a_plain_address_is_accepted() {
    let email = SubscriberEmail::parse("ursula_le_guin@gmail.com".to_string()).unwrap();
    assert_eq!(email.as_ref(), "ursula_le_guin@gmail.com");
}

#[test]
fn an_empty_email_is_rejected() {
    assert!(matches!(SubscriberEmail::parse(String::new()), Err(InputError::InvalidEmail)));
}

#[test]
fn an_email_without_at_sign_is_rejected() {
    assert!(matches!(
        SubscriberEmail::parse("not-an-email".to_string()),
        Err(InputError::InvalidEmail)
    ));
    assert!(!email_is_valid("definitely-not-an-email"));
    assert!(!email_is_valid("ursuladomain.com"));
}

#[test]
fn an_email_without_local_part_is_rejected() {
    assert!(!email_is_valid("@domain.com"));
}

#[test]
fn an_email_without_domain_is_rejected() {
    assert!(!email_is_valid("ursula@"));
}

#[test]
fn an_email_with_two_at_signs_is_rejected() {
    assert!(!email_is_valid("a@b@c.com"));
    assert!(!email_is_valid("a@@c.com"));
}

#[test]
fn the_local_part_takes_the_listed_punctuation() {
    assert!(email_is_valid("a.b!#$%&'*+/=?^_`{|}~-z@example.com"));
    assert!(email_is_valid(".a.@example.com"));
    assert!(!email_is_valid("a b@example.com"));
    assert!(!email_is_valid("a\"b@example.com"));
    assert!(!email_is_valid("a(b)@example.com"));
    assert!(!email_is_valid("a,b@example.com"));
}

#[test]
fn the_local_part_holds_at_most_64_characters() {
    let at_limit = format!("{}@example.com", "a".repeat(64));
    let over_limit = format!("{}@example.com", "a".repeat(65));
    assert!(email_is_valid(&at_limit));
    assert!(!email_is_valid(&over_limit));
}

#[test]
fn a_label_holds_at_most_63_characters() {
    let at_limit = format!("a@{}.com", "b".repeat(63));
    let over_limit = format!("a@{}.com", "b".repeat(64));
    assert!(email_is_valid(&at_limit));
    assert!(!email_is_valid(&over_limit));
}

#[test]
fn the_domain_holds_at_most_255_characters() {
    // four labels of 63 characters and three dots make 255
    let label = "b".repeat(63);
    let at_limit = format!("a@{l}.{l}.{l}.{l}", l = label);
    assert_eq!(at_limit.len(), 2 + 255);
    assert!(email_is_valid(&at_limit));
    let over_limit = format!("a@{l}.{l}.{l}.{l}.c", l = label);
    assert!(!email_is_valid(&over_limit));
}

#[test]
fn the_domain_is_made_of_labels() {
    assert!(email_is_valid("a@localhost"));
    assert!(email_is_valid("a@b-c.d-e.f"));
    assert!(email_is_valid("a@1.2.3.4"));
    assert!(!email_is_valid("a@.com"));
    assert!(!email_is_valid("a@com."));
    assert!(!email_is_valid("a@b..com"));
    assert!(!email_is_valid("a@-b.com"));
    assert!(!email_is_valid("a@b-.com"));
    assert!(!email_is_valid("a@b.-com"));
    assert!(!email_is_valid("a@b_c.com"));
    assert!(!email_is_valid("a@b c.com"));
}

#[test]
fn an_email_outside_ascii_is_rejected() {
    assert!(!email_is_valid("ürsula@example.com"));
    assert!(!email_is_valid("ursula@exämple.com"));
}

#[test]
fn a_copy_of_an_email_is_equal_to_it() {
    let email = SubscriberEmail::parse("ursula@example.com".to_string()).unwrap();
    let copy = email.clone();
    assert!(copy == email);
    assert_eq!(copy.as_ref(), "ursula@example.com");
    let other = SubscriberEmail::parse("ursula@example.org".to_string()).unwrap();
    assert!(other != email);
}

#[test]
fn a_name_with_a_space_is_accepted() {
    let name = SubscriberName::parse("le guin".to_string()).unwrap();
    assert_eq!(name.as_ref(), "le guin");
}

#[test]
fn an_empty_name_is_rejected() {
    assert!(matches!(SubscriberName::parse(String::new()), Err(InputError::InvalidName)));
}

#[test]
fn a_blank_name_is_rejected() {
    assert!(!name_is_valid(" "));
    assert!(!name_is_valid("   "));
    assert!(!name_is_valid("\u{a0}\u{2003}\u{3000}"));
}

#[test]
fn a_name_keeps_its_surrounding_blanks() {
    let name = SubscriberName::parse("  Ursula ".to_string()).unwrap();
    assert_eq!(name.as_ref(), "  Ursula ");
}

#[test]
fn a_name_with_a_control_character_is_rejected() {
    assert!(!name_is_valid("Ursula\n"));
    assert!(!name_is_valid("Ur\tsula"));
    assert!(!name_is_valid("Ursula\0"));
    assert!(!name_is_valid("Ursula\u{7f}"));
    assert!(!name_is_valid("Ursula\u{85}"));
    assert!(!name_is_valid("Ursula\u{9f}"));
    assert!(name_is_valid("Ursula\u{a0}Le Guin"));
}

#[test]
fn a_name_holds_at_most_256_characters() {
    assert!(name_is_valid(&"a".repeat(256)));
    assert!(!name_is_valid(&"a".repeat(257)));
    // the limit counts characters, not bytes
    assert!(name_is_valid(&"ё".repeat(256)));
    assert!(!name_is_valid(&"ё".repeat(257)));
}

#[test]
fn a_name_may_hold_any_letters() {
    assert!(name_is_valid("Урсула Ле Гуин"));
    assert!(name_is_valid("アーシュラ"));
    assert!(name_is_valid("O'Brien <the> \"third\""));
}

#[test]
fn a_token_is_made_of_letters_and_digits() {
    let token = ConfirmationToken::parse("aZ09kQ7".to_string()).unwrap();
    assert_eq!(token.as_ref(), "aZ09kQ7");
    assert!(ConfirmationToken::parse(String::new()).is_none());
    assert!(ConfirmationToken::parse("abc-def".to_string()).is_none());
    assert!(ConfirmationToken::parse("abc def".to_string()).is_none());
    assert!(ConfirmationToken::parse("abc&x=1".to_string()).is_none());
    assert!(ConfirmationToken::parse("tökén".to_string()).is_none());
}

#[test]
fn a_copy_of_a_token_is_equal_to_it() {
    let token = ConfirmationToken::parse("abc123".to_string()).unwrap();
    assert!(token.clone() == token);
    assert!(ConfirmationToken::parse("abc124".to_string()).unwrap() != token);
}
