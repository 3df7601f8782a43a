use social_space::json::{Json, Member};

fn sample() -> Json {
    Json::object(vec![
        Member::text("name", "alice"),
        Member { key: "age".to_string(), value: Json::Number(Some(30)) },
        Member { key: "debt".to_string(), value: Json::Number(None) },
        Member { key: "admin".to_string(), value: Json::Bool(true) },
        Member { key: "nothing".to_string(), value: Json::Null },
        Member { key: "tags".to_string(), value: Json::Array(vec![Json::Str("a".to_string())]) },
        Member::text("name", "bob"),
    ])
}

#[test]
fn object_keeps_its_members_in_order() {
    assert_eq!(
        Json::object(vec![Member::text("a", "1"), Member::text("b", "2")]),
        Json::Object(vec![
            Member { key: "a".to_string(), value: Json::Str("1".to_string()) },
            Member { key: "b".to_string(), value: Json::Str("2".to_string()) },
        ])
    );
}

#[test]
fn field_finds_the_first_member_with_the_key() {
    let doc = sample();
    assert_eq!(doc.field("name"), Some(&Json::Str("alice".to_string())));
    assert_eq!(doc.field("age"), Some(&Json::Number(Some(30))));
    assert_eq!(doc.field("nothing"), Some(&Json::Null));
    assert_eq!(doc.field("missing"), None);
    assert_eq!(doc.field("Name"), None);
    assert_eq!(doc.field(""), None);
}

#[test]
fn only_objects_have_fields() {
    assert_eq!(Json::Null.field("a"), None);
    assert_eq!(Json::Str("a".to_string()).field("a"), None);
    assert_eq!(Json::Array(vec![sample()]).field("name"), None);
    assert_eq!(Json::Object(Vec::new()).field("a"), None);
}

#[test]
fn accessors_read_their_own_sort_only() {
    let doc = sample();
    assert_eq!(doc.field("name").unwrap().as_str(), Some("alice"));
    assert_eq!(doc.field("age").unwrap().as_str(), None);
    assert_eq!(doc.field("admin").unwrap().as_bool(), Some(true));
    assert_eq!(doc.field("name").unwrap().as_bool(), None);
    assert_eq!(doc.field("age").unwrap().as_u64(), Some(30));
    assert_eq!(doc.field("debt").unwrap().as_u64(), None);
    assert_eq!(doc.field("name").unwrap().as_u64(), None);
    assert_eq!(Json::Bool(false).as_bool(), Some(false));
    assert_eq!(Json::Number(Some(u64::MAX)).as_u64(), Some(u64::MAX));
}

#[test]
fn text_member_holds_key_and_string() {
    assert_eq!(
        Member::text("key", "value"),
        Member { key: "key".to_string(), value: Json::Str("value".to_string()) }
    );
}
