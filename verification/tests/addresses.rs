use rigour_core::{address_tokens, finish_address, normalize_address};
use rigour_core::{classify, is_address_allowed_char, CategoryAction, Mode};

fn no_engine() -> Vec<Option<String>> {
    Vec::new()
}

#[test]
fn test_normalize_address_basic() {
    let result = normalize_address("123 Main St", false, 4, &no_engine());
    assert_eq!(result, Some("123 main st".to_string()));
}

#[test]
fn test_normalize_address_with_punctuation() {
    let result = normalize_address("Apt. 5B, Main Street", false, 4, &no_engine());
    assert_eq!(result, Some("apt 5b main street".to_string()));
}

#[test]
fn test_normalize_address_too_short() {
    let result = normalize_address("abc", false, 4, &no_engine());
    assert_eq!(result, None);
}

#[test]
fn test_normalize_address_empty() {
    let result = normalize_address("", false, 4, &no_engine());
    assert_eq!(result, None);
}

#[test]
fn test_normalize_address_unicode() {
    // Cyrillic is lowercased, not transliterated, on the plain path.
    let result = normalize_address("Квартира 5Б", false, 4, &no_engine());
    assert_eq!(result, Some("квартира 5б".to_string()));
}

#[test]
fn test_normalize_address_special_chars() {
    // The ampersand and the numero sign pass the address override.
    let result = normalize_address("Street & Avenue №5", false, 4, &no_engine());
    assert_eq!(result, Some("street & avenue №5".to_string()));
}

#[test]
fn test_normalize_address_min_length() {
    let result = normalize_address("Main Street", false, 20, &no_engine());
    assert_eq!(result, None); // "main street" is only 11 chars
}

#[test]
fn test_normalize_address_multiple_spaces() {
    let result = normalize_address("123    Main    St", false, 4, &no_engine());
    assert_eq!(result, Some("123 main st".to_string()));
}

#[test]
fn test_normalize_address_latinize() {
    let result = normalize_address("Café 123", true, 4, &no_engine());
    assert!(result.is_some());
}

#[test]
fn normalize_test_category_actions() {
    // Whitespace
    assert_eq!(classify(Mode::Address, ' '), CategoryAction::Whitespace);
    assert_eq!(classify(Mode::Address, '\t'), CategoryAction::Whitespace);

    // ASCII alphanumeric should be kept
    assert_eq!(classify(Mode::Address, 'a'), CategoryAction::Keep);
    assert_eq!(classify(Mode::Address, 'Z'), CategoryAction::Keep);
    assert_eq!(classify(Mode::Address, '5'), CategoryAction::Keep);

    // Punctuation -> whitespace
    assert_eq!(classify(Mode::Address, '.'), CategoryAction::Whitespace);
    assert_eq!(classify(Mode::Address, ','), CategoryAction::Whitespace);
}

#[test]
fn normalize_test_address_allowed_chars() {
    // Allowed chars
    assert!(is_address_allowed_char('a'));
    assert!(is_address_allowed_char('Z'));
    assert!(is_address_allowed_char('5'));
    assert!(is_address_allowed_char('&'));
    assert!(is_address_allowed_char('№'));

    // Not allowed
    assert!(!is_address_allowed_char(' '));
    assert!(!is_address_allowed_char('.'));
    assert!(!is_address_allowed_char('!'));
}

#[test]
fn test_normalize_address_byte_minimum() {
    // "квартира 5б" is 20 UTF-8 bytes: the minimum counts bytes, not characters.
    let result = normalize_address("Квартира 5Б", false, 20, &no_engine());
    assert_eq!(result, Some("квартира 5б".to_string()));
    let result = normalize_address("Квартира 5Б", false, 21, &no_engine());
    assert_eq!(result, None);
}

#[test]
fn test_normalize_address_idempotent_plain() {
    let first = normalize_address("123   Main St., Apt. 4", false, 4, &no_engine()).unwrap();
    let second = normalize_address(&first, false, 4, &no_engine()).unwrap();
    assert_eq!(first, second);
}

#[test]
fn test_normalize_address_idempotent_unicode() {
    let first = normalize_address("Квартира 5Б", false, 4, &no_engine()).unwrap();
    let second = normalize_address(&first, false, 4, &no_engine()).unwrap();
    assert_eq!(first, second);
}

#[test]
fn test_normalize_address_idempotent_latinize() {
    let first = normalize_address("Main & 5th St.", true, 4, &no_engine()).unwrap();
    let second = normalize_address(&first, true, 4, &no_engine()).unwrap();
    assert_eq!(first, second);
}

#[test]
fn test_normalize_address_latinize_engine() {
    // With the rule engine's per-token results supplied, latinization
    // transliterates: one result per address token, in order.
    let engine = vec![Some("cafe".to_string()), None];
    let result = normalize_address("Café 123", true, 4, &engine);
    assert_eq!(result, Some("cafe 123".to_string()));
}

#[test]
fn test_normalize_address_latinize_fallback_placeholders() {
    // Without engine results a non-ASCII token falls back to placeholders,
    // which read as punctuation on a further round.
    let first = normalize_address("Café 123", true, 4, &no_engine()).unwrap();
    assert_eq!(first, "caf? 123");
    let second = normalize_address(&first, true, 4, &no_engine()).unwrap();
    assert_eq!(second, "caf 123");
    let third = normalize_address(&second, true, 4, &no_engine()).unwrap();
    assert_eq!(third, second);
}

#[test]
fn test_address_tokens_parts() {
    let tokens = address_tokens("Apt. 5B, Main Street");
    assert_eq!(tokens, vec!["apt", "5b", "main", "street"]);
}

#[test]
fn test_finish_address_drops_empty_parts() {
    let parts = vec!["123".to_string(), String::new(), "main".to_string()];
    assert_eq!(finish_address(&parts, 4), Some("123 main".to_string()));
    assert_eq!(finish_address(&parts, 9), None);
}
