use rigour_core::ascii_text;

#[test]
fn test_ascii_text_already_ascii() {
    assert_eq!(ascii_text("hello world", None), "hello world");
    assert_eq!(ascii_text("123", None), "123");
}

#[test]
fn test_ascii_text_mixed() {
    let result = ascii_text("Д.127", None);
    assert!(result.is_ascii());
    assert!(result.contains("127"));
}

#[test]
fn test_ascii_text_result_is_ascii() {
    // Property: result should always be ASCII
    let inputs = vec!["Café", "Москва", "مرحبا", "Здравствуйте"];

    for input in inputs {
        let result = ascii_text(input, None);
        assert!(
            result.is_ascii(),
            "ascii_text({}) produced non-ASCII: {}",
            input,
            result
        );
    }
}

#[test]
fn test_ascii_text_engine_result_taken() {
    // A usable engine result for non-ASCII input is taken as is.
    let result = ascii_text("АМУРСКАЯ", Some("AMURSKAA".to_string()));
    assert_eq!(result, "AMURSKAA");
    let result = ascii_text("Café", Some("Cafe".to_string()));
    assert_eq!(result, "Cafe");
}

#[test]
fn test_ascii_text_engine_result_checked() {
    // A non-ASCII engine result is rejected in favor of the fallback.
    let result = ascii_text("Café", Some("Cafй".to_string()));
    assert_eq!(result, "Caf?");
    // An engine result never overrides already-ASCII input.
    let result = ascii_text("plain", Some("other".to_string()));
    assert_eq!(result, "plain");
}

#[test]
fn test_ascii_text_fallback_placeholders() {
    // One placeholder per non-ASCII code point, ASCII passes through.
    assert_eq!(ascii_text("Д.127", None), "?.127");
    assert_eq!(ascii_text("Café", None), "Caf?");
}
