use rigour_core::{get_category, get_category_action, is_address_allowed_char, CategoryAction};
use rigour_core::{char_category, classify, Category, Mode};

#[test]
fn unicode_test_category_actions() {
    // Whitespace
    assert_eq!(get_category_action(' '), CategoryAction::Whitespace);
    assert_eq!(get_category_action('\t'), CategoryAction::Whitespace);

    // ASCII alphanumeric should be kept
    assert_eq!(get_category_action('a'), CategoryAction::Keep);
    assert_eq!(get_category_action('Z'), CategoryAction::Keep);
    assert_eq!(get_category_action('5'), CategoryAction::Keep);

    // Punctuation -> whitespace
    assert_eq!(get_category_action('.'), CategoryAction::Whitespace);
    assert_eq!(get_category_action(','), CategoryAction::Whitespace);
}

#[test]
fn unicode_test_address_allowed_chars() {
    // Allowed chars
    assert!(is_address_allowed_char('a'));
    assert!(is_address_allowed_char('Z'));
    assert!(is_address_allowed_char('5'));
    assert!(is_address_allowed_char('&'));
    assert!(is_address_allowed_char('№'));

    // Not allowed
    assert!(!is_address_allowed_char(' '));
    assert!(!is_address_allowed_char('.'));
    assert!(!is_address_allowed_char('!'));
}

#[test]
fn test_get_category_codes() {
    assert_eq!(get_category('A'), "Lu");
    assert_eq!(get_category('a'), "Ll");
    assert_eq!(get_category('5'), "Nd");
    assert_eq!(get_category(' '), "Zs");
    assert_eq!(get_category('.'), "Po");
    assert_eq!(get_category('\u{7}'), "Cc");
    assert_eq!(get_category('\u{0301}'), "Mn");
    assert_eq!(get_category('Я'), "Lu");
    assert_eq!(get_category('я'), "Ll");
    // Categories that only the exact classifier can tell apart.
    assert_eq!(get_category('$'), "Sc");
    assert_eq!(get_category('-'), "Pd");
    assert_eq!(get_category('ǅ'), "Lt");
    assert_eq!(get_category('Ⅻ'), "Nl");
}

#[test]
fn test_get_category_action_exact() {
    // A currency symbol is dropped, a dash breaks: the table reads the true
    // general category.
    assert_eq!(get_category_action('$'), CategoryAction::Skip);
    assert_eq!(get_category_action('-'), CategoryAction::Whitespace);
    assert_eq!(get_category_action('ǅ'), CategoryAction::Keep);
    assert_eq!(get_category_action('\u{0301}'), CategoryAction::Skip);
}

#[test]
fn test_char_category_exact() {
    // The exact classifier agrees with the Unicode character database.
    assert_eq!(char_category('A'), Category::Lu);
    assert_eq!(char_category('ж'), Category::Ll);
    assert_eq!(char_category('Ж'), Category::Lu);
    assert_eq!(char_category('№'), Category::So);
    assert_eq!(char_category('\u{0301}'), Category::Mn);
    assert_eq!(char_category('\u{2019}'), Category::Pf);
    assert_eq!(char_category('€'), Category::Sc);
}

#[test]
fn test_classify_mode_overrides() {
    // The numero sign is kept in address mode by the override, but is a
    // boundary in name mode, where its category is an other symbol.
    assert_eq!(classify(Mode::Address, '№'), CategoryAction::Keep);
    assert_eq!(classify(Mode::Name, '№'), CategoryAction::Whitespace);

    // Apostrophes and periods vanish silently in name mode only.
    assert_eq!(classify(Mode::Name, '\''), CategoryAction::Skip);
    assert_eq!(classify(Mode::Name, '\u{2019}'), CategoryAction::Skip);
    assert_eq!(classify(Mode::Name, '.'), CategoryAction::Skip);
    assert_eq!(classify(Mode::Address, '.'), CategoryAction::Whitespace);

    // A combining mark is dropped in both modes.
    assert_eq!(classify(Mode::Address, '\u{0301}'), CategoryAction::Skip);
    assert_eq!(classify(Mode::Name, '\u{0301}'), CategoryAction::Skip);

    // A currency symbol is dropped, a math symbol breaks.
    assert_eq!(classify(Mode::Address, '€'), CategoryAction::Skip);
    assert_eq!(classify(Mode::Address, '+'), CategoryAction::Whitespace);
}
