use sync_stores::webext_storage::{clear, get, ExtensionData, JsonValue, StorageChange};

fn text(s: &str) -> JsonValue {
    JsonValue::String(s.to_string())
}

fn object(entries: Vec<(&str, JsonValue)>) -> JsonValue {
    JsonValue::Object(entries.into_iter().map(|(k, v)| (k.to_string(), v)).collect())
}

#[test]
fn test_simple() {
    let ext_id = "x";
    let mut conn = ExtensionData::new();

    assert_eq!(get(&conn, &ext_id, JsonValue::Null), JsonValue::Null);

    assert_eq!(
        sync_stores::webext_storage::set(&mut conn, &ext_id, object(vec![("foo", text("bar"))])),
        StorageChange {
            old_value: None,
            new_value: Some(object(vec![("foo", text("bar"))]))
        }
    );
    assert_eq!(
        get(&conn, &ext_id, JsonValue::Null),
        object(vec![("foo", text("bar"))])
    );

    assert_eq!(
        sync_stores::webext_storage::set(
            &mut conn,
            &ext_id,
            object(vec![("foo", text("new")), ("other", text("also new"))])
        ),
        StorageChange {
            old_value: Some(object(vec![("foo", text("bar"))])),
            new_value: Some(object(vec![("foo", text("new")), ("other", text("also new"))]))
        }
    );
    assert_eq!(
        get(&conn, &ext_id, JsonValue::Null),
        object(vec![("foo", text("new")), ("other", text("also new"))])
    );

    clear(&mut conn, &ext_id);
    assert_eq!(get(&conn, &ext_id, JsonValue::Null), JsonValue::Null);
}

fn stored() -> ExtensionData {
    let mut conn = ExtensionData::new();
    sync_stores::webext_storage::set(
        &mut conn,
        "ext",
        object(vec![
            ("a", JsonValue::Number("1".to_string())),
            ("b", JsonValue::Bool(true)),
            ("c", JsonValue::Array(vec![text("x"), JsonValue::Null])),
            ("d", object(vec![("inner", text("y"))])),
        ]),
    );
    conn
}

#[test]
fn get_by_a_single_key() {
    let conn = stored();
    assert_eq!(get(&conn, "ext", text("b")), object(vec![("b", JsonValue::Bool(true))]));
    assert_eq!(get(&conn, "ext", text("missing")), object(vec![]));
    assert_eq!(get(&conn, "other", text("b")), JsonValue::Null);
}

#[test]
fn get_by_a_list_of_keys() {
    let conn = stored();
    let keys = JsonValue::Array(vec![
        text("d"),
        JsonValue::Number("7".to_string()),
        text("missing"),
        text("a"),
        text("d"),
        JsonValue::Null,
    ]);
    assert_eq!(
        get(&conn, "ext", keys),
        object(vec![
            ("d", object(vec![("inner", text("y"))])),
            ("a", JsonValue::Number("1".to_string()))
        ])
    );
    assert_eq!(get(&conn, "ext", JsonValue::Array(vec![])), object(vec![]));
}

#[test]
fn get_by_any_other_key_gives_null() {
    let conn = stored();
    assert_eq!(get(&conn, "ext", JsonValue::Bool(true)), JsonValue::Null);
    assert_eq!(get(&conn, "ext", JsonValue::Number("1".to_string())), JsonValue::Null);
    assert_eq!(get(&conn, "ext", object(vec![("a", JsonValue::Null)])), JsonValue::Null);
}

#[test]
fn set_does_not_descend_into_values() {
    let mut conn = stored();
    let change = sync_stores::webext_storage::set(&mut conn, "ext", object(vec![("d", object(vec![("other", text("z"))]))]));
    assert_eq!(
        get(&conn, "ext", text("d")),
        object(vec![("d", object(vec![("other", text("z"))]))])
    );
    assert_eq!(
        change.new_value,
        Some(object(vec![
            ("a", JsonValue::Number("1".to_string())),
            ("b", JsonValue::Bool(true)),
            ("c", JsonValue::Array(vec![text("x"), JsonValue::Null])),
            ("d", object(vec![("other", text("z"))])),
        ]))
    );
}

#[test]
fn set_of_what_is_no_object_sets_nothing() {
    let mut conn = ExtensionData::new();
    assert_eq!(
        sync_stores::webext_storage::set(&mut conn, "ext", text("not an object")),
        StorageChange { old_value: None, new_value: Some(object(vec![])) }
    );
    assert_eq!(get(&conn, "ext", JsonValue::Null), object(vec![]));
    sync_stores::webext_storage::set(&mut conn, "ext", object(vec![("a", text("1"))]));
    assert_eq!(
        sync_stores::webext_storage::set(&mut conn, "ext", JsonValue::Array(vec![text("a")])),
        StorageChange {
            old_value: Some(object(vec![("a", text("1"))])),
            new_value: Some(object(vec![("a", text("1"))]))
        }
    );
}

#[test]
fn set_takes_the_last_of_repeated_keys() {
    let mut conn = ExtensionData::new();
    let change =
        sync_stores::webext_storage::set(&mut conn, "ext", object(vec![("a", text("1")), ("b", text("2")), ("a", text("3"))]));
    assert_eq!(
        change.new_value,
        Some(object(vec![("a", text("1")), ("b", text("2")), ("a", text("3"))]))
    );
    let change = sync_stores::webext_storage::set(&mut conn, "ext", object(vec![("a", text("4")), ("a", text("5"))]));
    assert_eq!(get(&conn, "ext", text("a")), object(vec![("a", text("5"))]));
    assert_eq!(
        change.old_value,
        Some(object(vec![("a", text("1")), ("b", text("2")), ("a", text("3"))]))
    );
}

#[test]
fn extensions_are_kept_apart() {
    let mut conn = ExtensionData::new();
    sync_stores::webext_storage::set(&mut conn, "one", object(vec![("k", text("1"))]));
    sync_stores::webext_storage::set(&mut conn, "two", object(vec![("k", text("2"))]));
    assert_eq!(get(&conn, "one", JsonValue::Null), object(vec![("k", text("1"))]));
    clear(&mut conn, "one");
    assert_eq!(get(&conn, "one", JsonValue::Null), JsonValue::Null);
    assert_eq!(get(&conn, "two", JsonValue::Null), object(vec![("k", text("2"))]));
    clear(&mut conn, "one");
    assert_eq!(get(&conn, "two", JsonValue::Null), object(vec![("k", text("2"))]));
}

#[test]
fn values_compare_by_content() {
    let a = object(vec![("k", JsonValue::Array(vec![text("x"), JsonValue::Number("1".into())]))]);
    assert!(a.same_as(&a.copy()));
    assert_eq!(a, a.copy());
    assert_ne!(a, object(vec![("k", JsonValue::Array(vec![text("x")]))]));
    assert_ne!(a, object(vec![("j", JsonValue::Array(vec![text("x"), JsonValue::Number("1".into())]))]));
    assert_ne!(JsonValue::Null, JsonValue::Bool(false));
    assert_ne!(JsonValue::Number("1".into()), JsonValue::Number("1.0".into()));
    assert_ne!(text("1"), JsonValue::Number("1".into()));
    assert_ne!(
        object(vec![("a", text("1")), ("b", text("2"))]),
        object(vec![("b", text("2")), ("a", text("1"))])
    );
}
