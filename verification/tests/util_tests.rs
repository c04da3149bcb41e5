use rdkafka::util::contains_nul;

#[test]
fn plain_text_has_no_embedded_terminator() {
    assert!(!contains_nul("bootstrap.servers"));
    assert!(!contains_nul(""));
}

#[test]
fn embedded_terminator_is_found_anywhere() {
    assert!(contains_nul("\0"));
    assert!(contains_nul("a\0b"));
    assert!(contains_nul("tail\0"));
    assert!(contains_nul("\0head"));
}
