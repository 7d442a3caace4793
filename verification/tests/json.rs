use baz_launcher::json::parse;

#[test]
fn documents_are_read() {
    let doc = parse(
        br#"{"name":"a \"b\"\u00e9","draft":true,"size":18446744073709551615,"list":[1,"x",null]}"#,
    )
    .unwrap();
    assert_eq!(doc.text_at("name").unwrap(), "a \"b\"\u{e9}");
    assert_eq!(doc.flag_at("draft"), Some(true));
    assert_eq!(doc.number_at("size"), Some(u64::MAX));
    assert_eq!(doc.list_at("list").unwrap().len(), 3);
}

#[test]
fn members_of_another_kind_are_nothing() {
    let doc = parse(br#"{"name":1,"draft":"true","size":-1,"half":0.5,"list":{}}"#).unwrap();
    assert!(doc.text_at("name").is_none());
    assert_eq!(doc.flag_at("draft"), None);
    assert_eq!(doc.number_at("size"), None);
    assert_eq!(doc.number_at("half"), None);
    assert!(doc.list_at("list").is_none());
    assert!(doc.text_at("absent").is_none());
    let list = parse(br#"["name"]"#).unwrap();
    assert!(list.text_at("name").is_none());
}

#[test]
fn what_is_no_json_is_no_document() {
    assert!(parse(b"").is_none());
    assert!(parse(b"<html>").is_none());
    assert!(parse(b"{} trailing").is_none());
    assert!(parse(&[b'"', 0xff, b'"']).is_none());
}

#[test]
fn a_copy_says_the_same() {
    let doc = parse(br#"{"a":[{"b":"c"},false,7]}"#).unwrap().duplicate();
    let items = doc.list_at("a").unwrap();
    assert_eq!(items.len(), 3);
    assert_eq!(items[0].text_at("b").unwrap(), "c");
}
