use sync_stores::orchestrator::{
    EngineResult, EngineSyncAssociation, RunFailure, SyncFailure, SyncResult, SyncTelemetryPing,
};
use sync_stores::arena::StrongRef;
use sync_stores::tabs::{
    ClientRemoteTabs, RemoteTab, TabsError, TabsStore, TabsStores, TabsSyncRequest,
};

fn tab(title: &str) -> RemoteTab {
    RemoteTab {
        title: title.to_string(),
        url_history: vec!["https://example.com".to_string()],
        icon: None,
        last_used: 1,
    }
}

#[test]
fn local_tabs_are_kept() {
    let mut store = TabsStore::new("tabs.db");
    assert_eq!(store.storage.db_path, "tabs.db");
    assert_eq!(store.storage.local_tabs, None);
    store.set_local_tabs(vec![tab("a"), tab("b")]);
    assert_eq!(store.storage.local_tabs, Some(vec![tab("a"), tab("b")]));
    store.set_local_tabs(vec![]);
    assert_eq!(store.storage.local_tabs, Some(vec![]));
}

#[test]
fn get_all_is_empty_without_remote_tabs() {
    let mut store = TabsStore::new_with_mem_path("test");
    assert_eq!(store.remote_tabs(), None);
    assert!(store.get_all().is_empty());
    let remote = vec![ClientRemoteTabs {
        client_id: "device-1".to_string(),
        client_name: "phone".to_string(),
        remote_tabs: vec![tab("a")],
    }];
    store.storage.remote_tabs = Some(remote.clone());
    assert_eq!(store.remote_tabs(), Some(&remote));
    assert_eq!(store.get_all(), remote.as_slice());
}

#[test]
fn sync_checks_the_token_server_address() {
    let mut stores = TabsStores::new();
    let store = stores.insert(TabsStore::new_with_mem_path("test"));
    let this = stores.acquire(&store).unwrap();
    let request = TabsStore::sync(
        &mut stores,
        this,
        "kid".to_string(),
        "token".to_string(),
        "key".to_string(),
        "HTTPS://Token.Example.com".to_string(),
        "device-1".to_string(),
    )
    .expect("the address is a URL");
    assert_eq!(request.key_id, "kid");
    assert_eq!(request.access_token, "token");
    assert_eq!(request.sync_key, "key");
    assert_eq!(request.tokenserver_url, "https://token.example.com/");
    assert_eq!(request.engine.local_id, "device-1");
    assert!(request.engine.store.ptr_eq(&store));
    assert_eq!(stores.strong_count(&store), 2);
    stores.release(request.engine.store);

    let this = stores.acquire(&store).unwrap();
    let failed = TabsStore::sync(
        &mut stores,
        this,
        "kid".to_string(),
        "token".to_string(),
        "key".to_string(),
        "not a url".to_string(),
        "device-1".to_string(),
    );
    assert!(matches!(
        failed,
        Err(TabsError::UrlParseError(m)) if m == "relative URL without a base"
    ));
    assert_eq!(stores.strong_count(&store), 1);
}

#[test]
fn sync_result_is_escalated_for_tabs() {
    let mut stores = TabsStores::new();
    let store = stores.insert(TabsStore::new_with_mem_path("test"));
    let engines = vec![EngineResult {
        collection_name: "tabs".to_string(),
        failure: Some("broken".to_string()),
    }];
    let result = SyncResult {
        result: Ok(()),
        engine_results: engines.clone(),
        telemetry: SyncTelemetryPing { engines },
        persisted_state: None,
        mem_cached_state: None,
    };
    assert_eq!(
        TabsStore::sync_finished(&mut stores, &store, result),
        Err(TabsError::Sync(SyncFailure::Engine("broken".to_string())))
    );
    let result = SyncResult {
        result: Err(RunFailure::Transport("offline".to_string())),
        engine_results: vec![],
        telemetry: SyncTelemetryPing { engines: vec![] },
        persisted_state: None,
        mem_cached_state: None,
    };
    assert_eq!(
        TabsStore::sync_finished(&mut stores, &store, result),
        Err(TabsError::Sync(SyncFailure::Run(RunFailure::Transport("offline".to_string()))))
    );
    let result = SyncResult {
        result: Ok(()),
        engine_results: vec![],
        telemetry: SyncTelemetryPing { engines: vec![] },
        persisted_state: None,
        mem_cached_state: None,
    };
    assert_eq!(
        TabsStore::sync_finished(&mut stores, &store, result),
        Ok(SyncTelemetryPing { engines: vec![] })
    );
}

fn begin_sync(stores: &mut TabsStores, store: &StrongRef) -> TabsSyncRequest {
    let this = stores.acquire(store).unwrap();
    TabsStore::sync(
        stores,
        this,
        "kid".to_string(),
        "token".to_string(),
        "key".to_string(),
        "https://token.example.com".to_string(),
        "device-1".to_string(),
    )
    .expect("the address is a URL")
}

#[test]
fn state_of_a_run_is_kept_and_read_back() {
    let mut stores = TabsStores::new();
    let store = stores.insert(TabsStore::new_with_mem_path("test"));
    let request = begin_sync(&mut stores, &store);
    assert_eq!(request.persisted_state, None);
    let result = SyncResult {
        result: Ok(()),
        engine_results: vec![],
        telemetry: SyncTelemetryPing { engines: vec![] },
        persisted_state: Some("{\"declined\":[]}".to_string()),
        mem_cached_state: None,
    };
    assert!(TabsStore::sync_finished(&mut stores, &request.engine.store, result).is_ok());
    stores.release(request.engine.store);
    assert_eq!(
        stores.get(&store).unwrap().storage.global_state,
        Some("{\"declined\":[]}".to_string())
    );
    let request = begin_sync(&mut stores, &store);
    assert_eq!(request.persisted_state, Some("{\"declined\":[]}".to_string()));
    stores.release(request.engine.store);
}

#[test]
fn state_of_a_failed_run_is_kept_too() {
    let mut stores = TabsStores::new();
    let store = stores.insert(TabsStore::new_with_mem_path("test"));
    stores.get_mut(&store).unwrap().set_local_tabs(vec![tab("a")]);
    let engines = vec![EngineResult {
        collection_name: "tabs".to_string(),
        failure: Some("broken".to_string()),
    }];
    let result = SyncResult {
        result: Ok(()),
        engine_results: engines.clone(),
        telemetry: SyncTelemetryPing { engines },
        persisted_state: Some("state-1".to_string()),
        mem_cached_state: None,
    };
    assert!(TabsStore::sync_finished(&mut stores, &store, result).is_err());
    let request = begin_sync(&mut stores, &store);
    assert_eq!(request.persisted_state, Some("state-1".to_string()));
    stores.release(request.engine.store);
    let result = SyncResult {
        result: Err(RunFailure::Authentication("expired".to_string())),
        engine_results: vec![],
        telemetry: SyncTelemetryPing { engines: vec![] },
        persisted_state: Some("state-2".to_string()),
        mem_cached_state: None,
    };
    assert!(TabsStore::sync_finished(&mut stores, &store, result).is_err());
    let kept = stores.get(&store).unwrap();
    assert_eq!(kept.storage.global_state, Some("state-2".to_string()));
    assert_eq!(kept.storage.local_tabs, Some(vec![tab("a")]));
    let result = SyncResult {
        result: Ok(()),
        engine_results: vec![],
        telemetry: SyncTelemetryPing { engines: vec![] },
        persisted_state: None,
        mem_cached_state: None,
    };
    assert!(TabsStore::sync_finished(&mut stores, &store, result).is_ok());
    assert_eq!(stores.get(&store).unwrap().storage.global_state, None);
}

#[test]
fn sync_of_a_store_that_is_gone() {
    let mut stores = TabsStores::new();
    let store = stores.insert(TabsStore::new_with_mem_path("test"));
    let mut other = TabsStores::new();
    let this = stores.acquire(&store).unwrap();
    let failed = TabsStore::sync(
        &mut other,
        this,
        "kid".to_string(),
        "token".to_string(),
        "key".to_string(),
        "https://token.example.com".to_string(),
        "device-1".to_string(),
    );
    assert!(matches!(failed, Err(TabsError::StoreGone)));
    let result = SyncResult {
        result: Ok(()),
        engine_results: vec![],
        telemetry: SyncTelemetryPing { engines: vec![] },
        persisted_state: Some("state".to_string()),
        mem_cached_state: None,
    };
    assert_eq!(TabsStore::sync_finished(&mut other, &store, result), Err(TabsError::StoreGone));
}

#[test]
fn reset_cuts_the_tie_and_keeps_the_tabs() {
    let mut store = TabsStore::new("tabs.db");
    assert_eq!(store.storage.association, EngineSyncAssociation::Disconnected);
    store.set_local_tabs(vec![tab("a")]);
    store.storage.reset(&EngineSyncAssociation::Connected("coll-1".to_string()));
    assert_eq!(
        store.storage.association,
        EngineSyncAssociation::Connected("coll-1".to_string())
    );
    store.reset();
    assert_eq!(store.storage.association, EngineSyncAssociation::Disconnected);
    assert_eq!(store.storage.local_tabs, Some(vec![tab("a")]));
}

#[test]
fn bridged_engine_holds_the_store() {
    let mut stores = TabsStores::new();
    let store = stores.insert(TabsStore::new("tabs.db"));
    let this = stores.acquire(&store).unwrap();
    let engine = TabsStore::bridged_engine(this);
    assert!(engine.store.ptr_eq(&store));
    assert_eq!(stores.strong_count(&store), 2);
    stores.release(engine.store);
    assert_eq!(stores.strong_count(&store), 1);
}
