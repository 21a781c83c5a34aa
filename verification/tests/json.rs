use npcterm::json::JsonObject;

#[test]
fn objects_keep_their_order() {
    let object = JsonObject::new().text("z", "last").count("a", u64::MAX).flag("m", false);
    assert_eq!(object.to_json(), "{\"z\":\"last\",\"a\":18446744073709551615,\"m\":false}");
    assert_eq!(JsonObject::new().to_json(), "{}");
}

#[test]
fn a_key_that_is_there_keeps_its_place() {
    let object = JsonObject::new().flag("a", true).count("b", 0).text("a", "new");
    assert_eq!(object.to_json(), "{\"a\":\"new\",\"b\":0}");
}

#[test]
fn text_is_escaped() {
    let text = "\"\\/\u{8}\t\n\u{c}\r\u{0}\u{1f}\u{7f}\u{e9}\u{2028}";
    let object = JsonObject::new().text("k\"", text);
    assert_eq!(
        object.to_json(),
        "{\"k\\\"\":\"\\\"\\\\/\\b\\t\\n\\f\\r\\u0000\\u001f\u{7f}\u{e9}\u{2028}\"}"
    );
}

#[test]
fn maps_hold_the_entries() {
    let map = JsonObject::new().text("b", "x").count("a", 7).into_map();
    assert_eq!(map.keys().cloned().collect::<Vec<_>>(), vec!["b", "a"]);
    assert_eq!(map["a"], serde_json::Value::from(7u64));
}
