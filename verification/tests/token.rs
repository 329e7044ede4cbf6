use lunu::token::{
    new_api_key, new_request_id, token_from, token_of, API_KEY_BYTES, REQUEST_ID_BYTES,
};

fn is_lower_hex(text: &str) -> bool {
    text.chars().all(|c| c.is_ascii_digit() || ('a'..='f').contains(&c))
}

#[test]
fn a_token_writes_each_byte_as_two_digits() {
    assert_eq!(token_from(&vec![0x00, 0xff, 0x1a, 0xa1, 0x09, 0x90]), "00ff1aa10990");
    assert_eq!(token_from(&vec![]), "");
    assert_eq!(token_from(&vec![1, 2, 3, 15, 16]), "0102030f10");
    assert_eq!(token_from(b"Hello world!".to_vec().as_ref()), "48656c6c6f20776f726c6421");
}

#[test]
fn token_of_follows_the_random_source() {
    assert_eq!(token_of(Some(vec![0xab, 0xcd])), Some("abcd".to_string()));
    assert_eq!(token_of(None), None);
}

#[test]
fn a_request_identifier_has_thirty_two_digits() {
    let id = new_request_id().unwrap();
    assert_eq!(REQUEST_ID_BYTES, 16);
    assert_eq!(id.len(), 32);
    assert!(is_lower_hex(&id));
}

#[test]
fn request_identifiers_differ() {
    let a = new_request_id().unwrap();
    let b = new_request_id().unwrap();
    assert_ne!(a, b);
}

#[test]
fn a_key_has_sixty_four_digits() {
    let key = new_api_key().unwrap();
    assert_eq!(API_KEY_BYTES, 32);
    assert_eq!(key.len(), 64);
    assert!(is_lower_hex(&key));
}
