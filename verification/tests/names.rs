use rigour_core::{normalize_name, prenormalize_name, tokenize_name};

#[test]
fn test_tokenize_name_simple() {
    let tokens = tokenize_name("John Smith", 1);
    assert_eq!(tokens, vec!["John", "Smith"]);
}

#[test]
fn test_tokenize_name_apostrophe() {
    // Apostrophes should be skipped
    let tokens = tokenize_name("O'Brien", 1);
    assert_eq!(tokens, vec!["OBrien"]);

    let tokens = tokenize_name("d'Artagnan", 1);
    assert_eq!(tokens, vec!["dArtagnan"]);
}

#[test]
fn test_tokenize_name_punctuation() {
    // Punctuation becomes whitespace
    let tokens = tokenize_name("Müller & Co.", 1);
    assert_eq!(tokens, vec!["Müller", "Co"]);

    let tokens = tokenize_name("Smith-Jones", 1);
    assert_eq!(tokens, vec!["Smith", "Jones"]);
}

#[test]
fn test_tokenize_name_unicode() {
    let tokens = tokenize_name("Владимир Путин", 1);
    assert_eq!(tokens, vec!["Владимир", "Путин"]);
}

#[test]
fn test_tokenize_name_min_length() {
    let tokens = tokenize_name("A B CD EFG", 2);
    assert_eq!(tokens, vec!["CD", "EFG"]);

    let tokens = tokenize_name("A B CD EFG", 3);
    assert_eq!(tokens, vec!["EFG"]);
}

#[test]
fn test_prenormalize_name() {
    assert_eq!(prenormalize_name("John SMITH"), "john smith");
    assert_eq!(prenormalize_name("MÜLLER"), "müller");
    assert_eq!(prenormalize_name("O'Brien"), "o'brien");
    assert_eq!(prenormalize_name(""), "");
}

#[test]
fn test_normalize_name() {
    assert_eq!(
        normalize_name("John SMITH", " "),
        Some("john smith".to_string())
    );
    assert_eq!(normalize_name("O'Brien", " "), Some("obrien".to_string()));
    assert_eq!(
        normalize_name("Müller & Co.", " "),
        Some("müller co".to_string())
    );
}

#[test]
fn test_normalize_name_empty() {
    assert_eq!(normalize_name("", " "), None);
    assert_eq!(normalize_name("   ", " "), None);
    assert_eq!(normalize_name("...", " "), None);
}

#[test]
fn test_normalize_name_custom_sep() {
    assert_eq!(
        normalize_name("John Smith", "-"),
        Some("john-smith".to_string())
    );
    assert_eq!(
        normalize_name("John Smith", ""),
        Some("johnsmith".to_string())
    );
}

#[test]
fn test_normalize_name_cyrillic() {
    assert_eq!(
        normalize_name("Владимир ПУТИН", " "),
        Some("владимир путин".to_string())
    );
}

#[test]
fn test_prenormalize_name_full_folding() {
    // Full case folding expands the sharp s to two letters.
    assert_eq!(prenormalize_name("Straße"), "strasse");
    assert_eq!(normalize_name("GROSSE Straße", " "), Some("grosse strasse".to_string()));
}

#[test]
fn test_tokenize_name_zero_min_length() {
    // Even with no minimum, no empty token is ever emitted.
    let tokens = tokenize_name("A  B", 0);
    assert_eq!(tokens, vec!["A", "B"]);
    let tokens = tokenize_name("", 0);
    assert!(tokens.is_empty());
}

#[test]
fn test_prenormalize_name_idempotent() {
    let once = prenormalize_name("GROSSE Straße");
    let twice = prenormalize_name(&once);
    assert_eq!(once, twice);
}

#[test]
fn test_normalize_name_idempotent() {
    let first = normalize_name("Владимир ПУТИН", " ").unwrap();
    let second = normalize_name(&first, " ").unwrap();
    assert_eq!(first, second);
    let first = normalize_name("Müller & Co.", " ").unwrap();
    let second = normalize_name(&first, " ").unwrap();
    assert_eq!(first, second);
}
