use roosterteeth_rs::json::{Json, Member, Number};
use roosterteeth_rs::text::{append_decimal, append_json_text, same_text};

fn text(s: &str) -> Json {
    Json::Text(s.to_string())
}

fn member(name: &str, value: Json) -> Member {
    Member { name: name.to_string(), value }
}

#[test]
fn object_starts_without_members() {
    assert_eq!(Json::object(), Json::Object(vec![]));
    assert_eq!(Json::object().get("a"), None);
}

#[test]
fn get_finds_members_by_name() {
    let doc = Json::Object(vec![member("a", Json::Bool(true)), member("b", Json::Null)]);
    assert_eq!(doc.get("a"), Some(&Json::Bool(true)));
    assert_eq!(doc.get("b"), Some(&Json::Null));
    assert_eq!(doc.get("c"), None);
    assert_eq!(doc.get(""), None);
    assert_eq!(doc.get("A"), None);
}

#[test]
fn later_member_of_the_same_name_counts() {
    let doc = Json::Object(vec![
        member("a", text("first")),
        member("b", text("other")),
        member("a", text("last")),
    ]);
    assert_eq!(doc.get("a"), Some(&text("last")));
}

#[test]
fn only_objects_have_members() {
    assert_eq!(Json::Null.get("a"), None);
    assert_eq!(text("a").get("a"), None);
    assert_eq!(Json::Array(vec![text("a")]).get("a"), None);
    assert_eq!(Json::Number(Number::Integer(1)).get("a"), None);
}

#[test]
fn with_sets_a_member() {
    let doc = Json::object().with("a", text("x")).with("b", Json::Bool(false));
    assert_eq!(doc.get("a"), Some(&text("x")));
    assert_eq!(doc.get("b"), Some(&Json::Bool(false)));
    let doc = doc.with("a", text("y"));
    assert_eq!(doc.get("a"), Some(&text("y")));
    assert_eq!(doc.get("b"), Some(&Json::Bool(false)));
}

#[test]
fn with_leaves_other_documents_alone() {
    assert_eq!(Json::Null.with("a", text("x")), Json::Null);
    assert_eq!(text("t").with("a", text("x")), text("t"));
}

#[test]
fn same_text_compares_whole_strings() {
    assert!(same_text("", ""));
    assert!(same_text("slug", "slug"));
    assert!(!same_text("slug", "slugs"));
    assert!(!same_text("slug", "slag"));
    assert!(!same_text("slug", ""));
    assert!(same_text("caf\u{e9}", "caf\u{e9}"));
    assert!(!same_text("caf\u{e9}", "cafe"));
}

#[test]
fn decimal_numerals() {
    for (n, numeral) in [
        (0u64, "0"),
        (7, "7"),
        (10, "10"),
        (100, "100"),
        (1984, "1984"),
        (65535, "65535"),
        (18446744073709551615, "18446744073709551615"),
    ] {
        let mut out = String::from("page=");
        append_decimal(&mut out, n);
        assert_eq!(out, format!("page={}", numeral));
    }
}

#[test]
fn json_text_escapes() {
    for (text, written) in [
        ("", ""),
        ("hunter2", "hunter2"),
        ("a\"b", "a\\\"b"),
        ("\"", "\\\""),
        ("a\\b", "a\\\\b"),
        ("\\\"", "\\\\\\\""),
        ("\n", "\\u000a"),
        ("\t\r", "\\u0009\\u000d"),
        ("\u{0}", "\\u0000"),
        ("\u{1f}", "\\u001f"),
        ("\u{10}x", "\\u0010x"),
        (" ", " "),
        ("\u{7f}", "\u{7f}"),
        ("caf\u{e9} \u{1f600}", "caf\u{e9} \u{1f600}"),
        ("x\"y\"z", "x\\\"y\\\"z"),
    ] {
        let mut out = String::from("\"");
        append_json_text(&mut out, text);
        assert_eq!(out, format!("\"{}", written));
        out.push('"');
        assert_eq!(serde_json::from_str::<String>(&out).unwrap(), text);
    }
}
