use animus_subject_zendesk::url::encode;

#[test]
fn unreserved_characters_stay() {
    let unreserved = "ABCXYZabcxyz0189-_.~";
    assert_eq!(encode(unreserved), unreserved);
    assert_eq!(encode(""), "");
}

#[test]
fn everything_else_is_escaped_by_bytes() {
    assert_eq!(encode("status:open tags:vip&x=1#?+/%"), "status%3Aopen%20tags%3Avip%26x%3D1%23%3F%2B%2F%25");
    assert_eq!(encode("é👾"), "%C3%A9%F0%9F%91%BE");
    assert_eq!(encode("\u{0}\u{7f}"), "%00%7F");
}

#[test]
fn encoded_text_cannot_end_a_parameter() {
    for c in encode("a&b=c#d e?f/g\"'<>").chars() {
        assert!(c == '%' || c.is_ascii_alphanumeric() || "-_.~".contains(c));
    }
}

#[test]
fn different_texts_are_encoded_differently() {
    assert_ne!(encode("%20"), encode(" "));
    assert_ne!(encode("a b"), encode("a+b"));
}
