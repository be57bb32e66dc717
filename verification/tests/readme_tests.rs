use weekly_report::readme::readme_from_content;

#[test]
fn decodes_base64_readme_under_heading() {
    let encoded = base64::encode("# Hello\nWorld");
    let out = readme_from_content(&encoded).unwrap();
    assert_eq!(out, "Readme: # Hello\nWorld");
}

#[test]
fn line_breaks_in_the_base64_are_stripped() {
    let encoded = base64::encode("a readme body with enough length to wrap");
    let mid = encoded.len() / 2;
    let broken = format!("{}\n{}\n", &encoded[..mid], &encoded[mid..]);
    let out = readme_from_content(&broken).unwrap();
    assert_eq!(out, "Readme: a readme body with enough length to wrap");
}

#[test]
fn invalid_base64_yields_nothing() {
    assert!(readme_from_content("!!! not base64 !!!").is_none());
}

#[test]
fn non_utf8_bytes_yield_nothing() {
    // valid base64 of bytes that are not valid UTF-8
    let encoded = base64::encode([0xffu8, 0xfe, 0xfd]);
    assert!(readme_from_content(&encoded).is_none());
}
