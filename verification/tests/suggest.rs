use std::sync::atomic::AtomicUsize;
use std::sync::Arc;
use sync_stores::interrupt::SqlInterruptScope;
use sync_stores::suggest::{
    ConnectionType, MetaValue, RemoteRecordId, RemoteSuggestion, SuggestDb, SuggestError,
    Suggestion, LAST_FETCH_META_KEY,
};

fn remote(block_id: i64, title: &str, keywords: &[&str]) -> RemoteSuggestion {
    RemoteSuggestion {
        block_id,
        advertiser: "advertiser".to_string(),
        iab_category: "22 - Shopping".to_string(),
        keywords: keywords.iter().map(|k| k.to_string()).collect(),
        title: title.to_string(),
        url: "https://example.com".to_string(),
        impression_url: "https://example.com/impression".to_string(),
        click_url: "https://example.com/click".to_string(),
    }
}

fn found(block_id: i64, title: &str, full_keyword: &str) -> Suggestion {
    Suggestion {
        block_id,
        advertiser: "advertiser".to_string(),
        iab_category: "22 - Shopping".to_string(),
        title: title.to_string(),
        url: "https://example.com".to_string(),
        full_keyword: full_keyword.to_string(),
        impression_url: "https://example.com/impression".to_string(),
        click_url: "https://example.com/click".to_string(),
    }
}

fn id(s: &str) -> RemoteRecordId {
    RemoteRecordId(s.to_string())
}

#[test]
fn lookup_finds_the_first_suggestion_with_the_keyword() {
    let mut db = SuggestDb::open("suggest.db", ConnectionType::ReadWrite);
    assert_eq!(db.type_, ConnectionType::ReadWrite);
    assert_eq!(db.fetch_by_keyword("lo"), vec![]);
    db.ingest(
        &id("record-1"),
        &vec![remote(1, "Los Pollos", &["lo", "los", "los p"]), remote(2, "Lasagna", &["la", "lo"])],
    )
    .unwrap();
    db.ingest(&id("record-2"), &vec![remote(3, "Penne", &["pe", "la"])]).unwrap();
    assert_eq!(db.fetch_by_keyword("lo"), vec![found(1, "Los Pollos", "lo")]);
    assert_eq!(db.fetch_by_keyword("los p"), vec![found(1, "Los Pollos", "los p")]);
    assert_eq!(db.fetch_by_keyword("la"), vec![found(2, "Lasagna", "la")]);
    assert_eq!(db.fetch_by_keyword("pe"), vec![found(3, "Penne", "pe")]);
    assert_eq!(db.fetch_by_keyword("l"), vec![]);
    assert_eq!(db.fetch_by_keyword(""), vec![]);
}

#[test]
fn dropping_a_record_removes_its_suggestions_only() {
    let mut db = SuggestDb::open("suggest.db", ConnectionType::ReadWrite);
    db.ingest(&id("record-1"), &vec![remote(1, "One", &["a"]), remote(2, "Two", &["b"])]).unwrap();
    db.ingest(&id("record-2"), &vec![remote(3, "Three", &["a", "c"])]).unwrap();
    db.ingest(&id("record-1"), &vec![remote(4, "Four", &["c"])]).unwrap();
    db.put_meta(LAST_FETCH_META_KEY, MetaValue::Integer(17));
    db.drop(&id("record-1"));
    assert_eq!(db.fetch_by_keyword("a"), vec![found(3, "Three", "a")]);
    assert_eq!(db.fetch_by_keyword("b"), vec![]);
    assert_eq!(db.fetch_by_keyword("c"), vec![found(3, "Three", "c")]);
    assert_eq!(db.get_meta(LAST_FETCH_META_KEY), Some(MetaValue::Integer(17)));
    db.drop(&id("record-3"));
    assert_eq!(db.fetch_by_keyword("a"), vec![found(3, "Three", "a")]);
}

#[test]
fn clear_removes_suggestions_and_meta() {
    let mut db = SuggestDb::open("suggest.db", ConnectionType::ReadWrite);
    db.ingest(&id("record-1"), &vec![remote(1, "One", &["a"])]).unwrap();
    db.put_meta("k", MetaValue::Text("v".to_string()));
    db.clear();
    assert_eq!(db.fetch_by_keyword("a"), vec![]);
    assert_eq!(db.get_meta("k"), None);
}

#[test]
fn meta_keeps_the_last_value_of_a_key() {
    let mut db = SuggestDb::open("suggest.db", ConnectionType::ReadOnly);
    assert_eq!(LAST_FETCH_META_KEY, "last_fetch");
    assert_eq!(db.get_meta(LAST_FETCH_META_KEY), None);
    db.put_meta(LAST_FETCH_META_KEY, MetaValue::Integer(1));
    db.put_meta("other", MetaValue::Text("x".to_string()));
    db.put_meta(LAST_FETCH_META_KEY, MetaValue::Integer(2));
    db.put_meta("icon", MetaValue::Blob(vec![0, 159, 255]));
    assert_eq!(db.get_meta(LAST_FETCH_META_KEY), Some(MetaValue::Integer(2)));
    assert_eq!(db.get_meta("other"), Some(MetaValue::Text("x".to_string())));
    assert_eq!(db.get_meta("icon"), Some(MetaValue::Blob(vec![0, 159, 255])));
    assert_eq!(db.get_meta("missing"), None);
    assert_eq!(MetaValue::Blob(vec![1, 2]).copy(), MetaValue::Blob(vec![1, 2]));
    assert_eq!(MetaValue::Integer(-4).copy(), MetaValue::Integer(-4));
}

#[test]
fn ingest_of_nothing_succeeds() {
    let mut db = SuggestDb::open("suggest.db", ConnectionType::ReadWrite);
    assert_eq!(db.ingest(&id("record-1"), &vec![]), Ok(()));
    assert_eq!(id("record-1").as_str(), "record-1");
    let _ = db.interrupt_handle();
    assert_eq!(SuggestError::Interrupted, SuggestError::Interrupted);
}

#[test]
fn interrupted_ingest_takes_in_nothing() {
    let mut db = SuggestDb::open("suggest.db", ConnectionType::ReadWrite);
    db.ingest(&id("record-1"), &vec![remote(1, "One", &["a"])]).unwrap();
    let scope = db.begin_interrupt_scope();
    db.interrupt_handle().interrupt();
    assert_eq!(
        db.ingest_in_scope(&id("record-2"), &vec![remote(2, "Two", &["b"])], &scope),
        Err(SuggestError::Interrupted)
    );
    assert_eq!(db.fetch_by_keyword("b"), vec![]);
    assert_eq!(db.fetch_by_keyword("a"), vec![found(1, "One", "a")]);
    assert_eq!(db.ingest_in_scope(&id("record-2"), &vec![], &scope), Ok(()));
    assert_eq!(db.ingest(&id("record-2"), &vec![remote(2, "Two", &["b"])]), Ok(()));
    assert_eq!(db.fetch_by_keyword("b"), vec![found(2, "Two", "b")]);
}

#[test]
fn store_keeps_its_path() {
    let db = SuggestDb::open("file:suggest?mode=memory&cache=shared", ConnectionType::ReadOnly);
    assert_eq!(db.path(), "file:suggest?mode=memory&cache=shared");
    assert_eq!(db.type_, ConnectionType::ReadOnly);
}

fn scope_at(start: usize) -> SqlInterruptScope {
    SqlInterruptScope::new_at(Arc::new(AtomicUsize::new(start)), start)
}

#[test]
fn ingest_succeeds_when_no_reading_shows_a_signal() {
    let mut db = SuggestDb::open("suggest.db", ConnectionType::ReadWrite);
    let batch = vec![remote(1, "One", &["a"]), remote(2, "Two", &["b"]), remote(3, "Three", &["c"])];
    assert_eq!(db.ingest_at(&id("record-1"), &batch, &scope_at(7), &vec![7, 7, 7]), Ok(()));
    assert_eq!(db.fetch_by_keyword("a"), vec![found(1, "One", "a")]);
    assert_eq!(db.fetch_by_keyword("b"), vec![found(2, "Two", "b")]);
    assert_eq!(db.fetch_by_keyword("c"), vec![found(3, "Three", "c")]);
}

#[test]
fn ingest_fails_on_a_signal_at_any_reading() {
    let batch = vec![remote(1, "One", &["a"]), remote(2, "Two", &["b"]), remote(3, "Three", &["c"])];
    for readings in [vec![8, 7, 7], vec![7, 8, 8], vec![7, 7, 8], vec![7, 7, 6], vec![0]] {
        let mut db = SuggestDb::open("suggest.db", ConnectionType::ReadWrite);
        db.ingest(&id("record-0"), &vec![remote(9, "Nine", &["n"])]).unwrap();
        db.put_meta("k", MetaValue::Integer(1));
        assert_eq!(
            db.ingest_at(&id("record-1"), &batch, &scope_at(7), &readings),
            Err(SuggestError::Interrupted)
        );
        assert_eq!(db.fetch_by_keyword("a"), vec![]);
        assert_eq!(db.fetch_by_keyword("b"), vec![]);
        assert_eq!(db.fetch_by_keyword("c"), vec![]);
        assert_eq!(db.fetch_by_keyword("n"), vec![found(9, "Nine", "n")]);
        assert_eq!(db.get_meta("k"), Some(MetaValue::Integer(1)));
    }
}

#[test]
fn readings_beyond_the_suggestions_do_not_count() {
    let mut db = SuggestDb::open("suggest.db", ConnectionType::ReadWrite);
    let batch = vec![remote(1, "One", &["a"])];
    assert_eq!(db.ingest_at(&id("record-1"), &batch, &scope_at(7), &vec![7, 8]), Ok(()));
    assert_eq!(db.ingest_at(&id("record-2"), &vec![], &scope_at(7), &vec![8]), Ok(()));
    assert_eq!(db.ingest_at(&id("record-3"), &batch, &scope_at(7), &vec![]), Ok(()));
    assert_eq!(db.fetch_by_keyword("a"), vec![found(1, "One", "a")]);
}

#[test]
fn signal_after_a_wrapped_counter_is_seen() {
    let mut db = SuggestDb::open("suggest.db", ConnectionType::ReadWrite);
    let batch = vec![remote(1, "One", &["a"])];
    assert_eq!(
        db.ingest_at(&id("record-1"), &batch, &scope_at(usize::MAX), &vec![0]),
        Err(SuggestError::Interrupted)
    );
    assert_eq!(db.ingest_at(&id("record-1"), &batch, &scope_at(usize::MAX), &vec![usize::MAX]), Ok(()));
}
