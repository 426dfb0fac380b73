use mili::ids::{choose_shortlink_id, random_id, SHORTLINK_ID_LEN, VISIT_ID_LEN};

fn url_safe(c: char) -> bool {
    c == '_' || c == '-' || c.is_ascii_digit() || c.is_ascii_lowercase() || c.is_ascii_uppercase()
}

#[test]
fn random_ids_have_the_asked_length_and_safe_characters() {
    for len in [1usize, 6, 20, 64] {
        let id = random_id(len);
        assert_eq!(id.chars().count(), len);
        assert!(id.chars().all(url_safe));
    }
}

#[test]
fn custom_shortlink_is_kept() {
    assert_eq!(choose_shortlink_id(Some("my-link".to_string())), "my-link");
    assert_eq!(choose_shortlink_id(Some("ü".to_string())), "ü");
}

#[test]
fn missing_or_empty_shortlink_gets_random_id() {
    let a = choose_shortlink_id(None);
    let b = choose_shortlink_id(Some(String::new()));
    assert_eq!(SHORTLINK_ID_LEN, 6);
    assert_eq!(a.chars().count(), 6);
    assert_eq!(b.chars().count(), 6);
    assert!(a.chars().all(url_safe) && b.chars().all(url_safe));
}

#[test]
fn chosen_id_is_kept_when_asked_again() {
    let first = choose_shortlink_id(None);
    let again = choose_shortlink_id(Some(first.clone()));
    assert_eq!(again, first);
}

#[test]
fn visit_ids_are_twenty_characters() {
    assert_eq!(VISIT_ID_LEN, 20);
    let id = random_id(VISIT_ID_LEN);
    assert_eq!(id.len(), 20);
}
