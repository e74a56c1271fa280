use namecheap::json::JsonValue;

fn text(t: &str) -> JsonValue {
    JsonValue::Str(t.to_string())
}

fn object(entries: Vec<(&str, JsonValue)>) -> JsonValue {
    JsonValue::Object(entries.into_iter().map(|(k, v)| (k.to_string(), v)).collect())
}

#[test]
fn get_finds_member() {
    let v = object(vec![("a", text("1")), ("b", JsonValue::Bool(true))]);
    assert_eq!(v.get("b"), Some(&JsonValue::Bool(true)));
    assert_eq!(v.get("c"), None);
    assert_eq!(text("x").get("a"), None);
}

#[test]
fn get_takes_first_entry_with_key() {
    let v = object(vec![("a", text("first")), ("a", text("second"))]);
    assert_eq!(v.get("a"), Some(&text("first")));
}

#[test]
fn take_moves_member_out() {
    let v = object(vec![("a", text("1")), ("b", text("2"))]);
    assert_eq!(v.take("b"), Some(text("2")));
    assert_eq!(JsonValue::Array(vec![text("a")]).take("0"), None);
}

#[test]
fn paths_follow_members() {
    let v = object(vec![("A", object(vec![("B", object(vec![("C", text("deep"))]))]))]);
    assert_eq!(v.get_path2("A", "B"), Some(&object(vec![("C", text("deep"))])));
    assert_eq!(v.get_path3("A", "B", "C"), Some(&text("deep")));
    assert_eq!(v.get_path3("A", "X", "C"), None);
    let w = object(vec![("A", object(vec![("B", object(vec![("C", text("deep"))]))]))]);
    assert_eq!(w.take_path3("A", "B", "C"), Some(text("deep")));
}

#[test]
fn as_str_reads_strings_only() {
    assert_eq!(text("x").as_str(), Some(&"x".to_string()));
    assert_eq!(JsonValue::Number("3".to_string()).as_str(), None);
    assert_eq!(JsonValue::Null.as_str(), None);
}
