use domo::json::{JsonField, JsonObject};

fn sample() -> JsonObject {
    JsonObject {
        members: vec![
            ("name".to_string(), JsonField::Text("first".to_string())),
            ("count".to_string(), JsonField::Number(Some(3))),
            ("ratio".to_string(), JsonField::Number(None)),
            ("name".to_string(), JsonField::Text("second".to_string())),
            ("nested".to_string(), JsonField::Other),
            ("big".to_string(), JsonField::Number(Some(u64::MAX))),
        ],
    }
}

#[test]
fn get_finds_the_first_member_of_that_name() {
    let object = sample();
    assert_eq!(object.get("name"), Some(&JsonField::Text("first".to_string())));
    assert_eq!(object.get("count"), Some(&JsonField::Number(Some(3))));
    assert_eq!(object.get("nested"), Some(&JsonField::Other));
    assert_eq!(object.get("absent"), None);
    assert_eq!(object.get("Name"), None);
    assert_eq!(JsonObject { members: Vec::new() }.get("name"), None);
}

#[test]
fn text_reads_strings_only() {
    let object = sample();
    assert_eq!(object.text("name"), Some("first".to_string()));
    assert_eq!(object.text("count"), None);
    assert_eq!(object.text("nested"), None);
    assert_eq!(object.text("absent"), None);
}

#[test]
fn unsigned_reads_numbers_that_fit() {
    let object = sample();
    assert_eq!(object.unsigned("count"), Some(3));
    assert_eq!(object.unsigned("ratio"), None);
    assert_eq!(object.unsigned("big"), None);
    assert_eq!(object.unsigned("name"), None);
    assert_eq!(object.unsigned("absent"), None);
}
