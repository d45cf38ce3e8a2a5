use irc_codec::Tokenizer;

#[test]
fn test_read_to() {
    let mut t = Tokenizer::new(&"This is a test");
    assert_eq!(t.read_to(' '), Some("This".to_string()));
    assert_eq!(t.read_to(' '), Some("is".to_string()));
    assert_eq!(t.read_to(' '), Some("a".to_string()));
    assert_eq!(t.read_to(' '), None);
    assert_eq!(t.read(), Some("test".to_string()));
    assert_eq!(t.read(), None);
}

#[test]
fn test_peek() {
    let mut t = Tokenizer::new(&"X");
    assert_eq!(t.peek(), Some('X'));
    assert_eq!(t.read(), Some("X".to_string()));
    assert_eq!(t.peek(), None);
}

#[test]
fn test_match() {
    let mut t = Tokenizer::new(&"This is a test");
    t.match_str("This");
    assert_eq!(t.peek(), Some(' '));
    assert_eq!(t.read(), Some(" is a test".to_string()));
}

#[test]
fn test_read_to_any_delim() {
    let mut t = Tokenizer::new(&"This is a test\r\n");
    let delims = [" ", "\r\n"];
    assert_eq!(t.read_to_any(&delims), Some("This".to_string()));
    assert_eq!(t.read_to_any(&delims), Some("is".to_string()));
    assert_eq!(t.read_to_any(&delims), Some("a".to_string()));
    assert_eq!(t.read_to_any(&delims), Some("test".to_string()));
    assert_eq!(t.read_to_any(&delims), None);
}

#[test]
fn test_read_to_str() {
    let mut t = Tokenizer::new(&"Line1\r\nLine2\r\n");
    assert_eq!(t.read_to_str("\r\n"), Some("Line1".to_string()));
    assert_eq!(t.read_to_str("\r\n"), Some("Line2".to_string()));
    assert_eq!(t.read_to_str("\r\n"), None);
}

#[test]
fn test_starts_with() {
    let mut t = Tokenizer::new(&"abc def");
    assert!(t.starts_with("abc"));
    assert!(!t.starts_with("abd"));
    assert!(!t.starts_with("abc def and much more"));
    assert_eq!(t.read_to(' '), Some("abc".to_string()));
    assert!(t.starts_with("def"));
}

#[test]
fn test_read_to_any_tie_prefers_first_listed() {
    // Both delimiters match at the same position; the first listed wins, so
    // the cursor advances by one character, not two.
    let mut t = Tokenizer::new(&"a\r\nb");
    let delims = ["\r", "\r\n"];
    assert_eq!(t.read_to_any(&delims), Some("a".to_string()));
    assert_eq!(t.read(), Some("\nb".to_string()));
}

#[test]
fn test_read_to_multibyte_characters() {
    let mut t = Tokenizer::new(&"caf\u{e9} ma\u{f1}ana");
    assert_eq!(t.read_to(' '), Some("caf\u{e9}".to_string()));
    assert_eq!(t.read(), Some("ma\u{f1}ana".to_string()));
}
