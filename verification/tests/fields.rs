use animus_subject_zendesk::fields::Fields;
use animus_subject_zendesk::json::Json;

fn names(fields: &Fields) -> Vec<&str> {
    fields.entries().iter().map(|(name, _)| name.as_str()).collect()
}

#[test]
fn fields_are_in_order_of_their_names() {
    let fields = Fields::new()
        .insert("b", Json::Unsigned(1))
        .insert("a", Json::Null)
        .insert("é", Json::Bool(true))
        .insert("B", Json::Unsigned(2))
        .insert("ba", Json::Unsigned(3));
    assert_eq!(names(&fields), ["B", "a", "b", "ba", "é"]);
}

#[test]
fn later_value_takes_the_place() {
    let fields = Fields::new()
        .insert("a", Json::Unsigned(1))
        .insert("b", Json::Unsigned(2))
        .insert("a", Json::Unsigned(3));
    assert_eq!(names(&fields), ["a", "b"]);
    assert_eq!(fields.entries()[0].1, Json::Unsigned(3));
}

#[test]
fn only_new_fields_are_empty() {
    assert!(Fields::new().entries().is_empty());
    assert_eq!(names(&Fields::new().insert("", Json::Null)), [""]);
}
