use sync_stores::db::{Checkout, ConnectionType, StorageDb};
use sync_stores::error::ErrorKind;
use sync_stores::registry::{ManagerRegistry, OpenResult, OpenStep};

type Registry = ManagerRegistry<&'static str>;

fn open(registry: &mut Registry, name: &str) -> sync_stores::arena::StrongRef {
    match StorageDb::new(registry, name.to_string()) {
        OpenStep::Existing(manager) => manager,
        OpenStep::Open { request, delete_on_fail } => {
            match StorageDb::finish_open(registry, request, delete_on_fail, Ok("conn")) {
                OpenResult::Ready(manager) => manager,
                _ => panic!("the manager should have been made"),
            }
        }
    }
}

#[test]
fn opening_twice_yields_the_same_manager() {
    let mut registry = Registry::new();
    let first = open(&mut registry, "/tmp/a.db");
    let second = open(&mut registry, "/tmp/a.db");
    assert!(first.ptr_eq(&second));
    assert_eq!(
        registry.manager(&first).unwrap().id(),
        registry.manager(&second).unwrap().id()
    );
    let other = open(&mut registry, "/tmp/b.db");
    assert!(!first.ptr_eq(&other));
}

#[test]
fn first_open_asks_for_a_read_write_connection() {
    let mut registry = Registry::new();
    match StorageDb::new(&mut registry, "/tmp/a.db".to_string()) {
        OpenStep::Open { request, delete_on_fail } => {
            assert_eq!(request.path, "/tmp/a.db");
            assert_eq!(request.conn_type, ConnectionType::ReadWrite);
            assert_eq!(request.api_id, 0);
            assert!(delete_on_fail);
        }
        OpenStep::Existing(_) => panic!("nothing was opened yet"),
    }
    match StorageDb::new_or_existing_into(&mut registry, "/tmp/a.db".to_string(), false) {
        OpenStep::Open { request, delete_on_fail } => {
            assert_eq!(request.api_id, 0);
            assert!(!delete_on_fail);
        }
        OpenStep::Existing(_) => panic!("nothing was opened yet"),
    }
}

#[test]
fn memory_databases_are_named_as_shared() {
    let mut registry = Registry::new();
    match StorageDb::new_memory(&mut registry, "test-api-0") {
        OpenStep::Open { request, .. } => {
            assert_eq!(request.path, "file:test-api-0?mode=memory&cache=shared");
        }
        OpenStep::Existing(_) => panic!("nothing was opened yet"),
    }
}

#[test]
fn manager_is_made_with_the_next_identity() {
    let mut registry = Registry::new();
    let _ = StorageDb::new(&mut registry, "/tmp/other.db".to_string());
    let other = open(&mut registry, "/tmp/other.db");
    assert_eq!(registry.manager(&other).unwrap().id(), 0);
    let manager = open(&mut registry, "/tmp/a.db");
    let db = registry.manager(&manager).unwrap();
    assert_eq!(db.id(), 1);
    assert_eq!(db.db_name(), "/tmp/a.db");
    assert!(!db.is_write_connection_out());
    assert!(!db.is_sync_conn_active());
}

#[test]
fn schema_failure_leads_to_one_retry() {
    let mut registry = Registry::new();
    let (request, delete_on_fail) = match StorageDb::new(&mut registry, "/tmp/a.db".to_string()) {
        OpenStep::Open { request, delete_on_fail } => (request, delete_on_fail),
        OpenStep::Existing(_) => panic!("nothing was opened yet"),
    };
    match StorageDb::finish_open(
        &mut registry,
        request,
        delete_on_fail,
        Err(ErrorKind::SchemaUpgradeError),
    ) {
        OpenResult::DeleteAndRetry(path) => assert_eq!(path, "/tmp/a.db"),
        _ => panic!("a schema failure asks for a retry"),
    }
    let (request, delete_on_fail) =
        match StorageDb::new_or_existing_into(&mut registry, "/tmp/a.db".to_string(), false) {
            OpenStep::Open { request, delete_on_fail } => (request, delete_on_fail),
            OpenStep::Existing(_) => panic!("the failed attempt registered a manager"),
        };
    assert!(!delete_on_fail);
    match StorageDb::finish_open(
        &mut registry,
        request,
        delete_on_fail,
        Err(ErrorKind::SchemaUpgradeError),
    ) {
        OpenResult::Failed(e) => assert_eq!(e, ErrorKind::SchemaUpgradeError),
        _ => panic!("the second failure is final"),
    }
    assert!(matches!(
        StorageDb::new(&mut registry, "/tmp/a.db".to_string()),
        OpenStep::Open { .. }
    ));
}

#[test]
fn other_failures_are_final_at_once() {
    let mut registry = Registry::new();
    let (request, delete_on_fail) = match StorageDb::new(&mut registry, "/tmp/a.db".to_string()) {
        OpenStep::Open { request, delete_on_fail } => (request, delete_on_fail),
        OpenStep::Existing(_) => panic!("nothing was opened yet"),
    };
    match StorageDb::finish_open(
        &mut registry,
        request,
        delete_on_fail,
        Err(ErrorKind::SqlError("disk full".to_string())),
    ) {
        OpenResult::Failed(e) => assert_eq!(e, ErrorKind::SqlError("disk full".to_string())),
        _ => panic!("only schema failures are retried"),
    }
}

#[test]
fn registration_ends_with_the_last_reference() {
    let mut registry = Registry::new();
    let first = open(&mut registry, "/tmp/a.db");
    let second = registry.acquire(&first).expect("the manager lives");
    let id = registry.manager(&first).unwrap().id();
    assert!(registry.release(first).is_none());
    let third = open(&mut registry, "/tmp/a.db");
    assert!(third.ptr_eq(&second));
    assert!(registry.release(third).is_none());
    let gone = registry.release(second).expect("the last reference returns the manager");
    assert_eq!(gone.id(), id);
    let fresh = open(&mut registry, "/tmp/a.db");
    assert_ne!(registry.manager(&fresh).unwrap().id(), id);
}

#[test]
fn late_connection_yields_the_living_manager() {
    let mut registry = Registry::new();
    let (request, delete_on_fail) = match StorageDb::new(&mut registry, "/tmp/a.db".to_string()) {
        OpenStep::Open { request, delete_on_fail } => (request, delete_on_fail),
        OpenStep::Existing(_) => panic!("nothing was opened yet"),
    };
    let first = open(&mut registry, "/tmp/a.db");
    match StorageDb::finish_open(&mut registry, request, delete_on_fail, Ok("late")) {
        OpenResult::Existing(manager) => assert!(manager.ptr_eq(&first)),
        _ => panic!("a second manager was made for the same name"),
    }
}

#[test]
fn connections_through_the_registry() {
    let mut registry = Registry::new();
    let manager = open(&mut registry, "/tmp/a.db");
    let writer = match registry.open_connection(&manager, ConnectionType::ReadWrite) {
        Some(Ok(Checkout::Ready(conn))) => conn,
        _ => panic!("the writer should be in its slot"),
    };
    assert!(matches!(
        registry.open_connection(&manager, ConnectionType::ReadWrite),
        Some(Err(ErrorKind::ConnectionAlreadyOpen))
    ));
    assert!(matches!(
        registry.open_connection(&manager, ConnectionType::ReadOnly),
        Some(Ok(Checkout::Open(_)))
    ));
    assert_eq!(registry.close_connection(&manager, writer), Some(Ok(())));
    let request = match registry.open_sync_connection(&manager) {
        Some(Ok(request)) => request,
        _ => panic!("the first sync claim succeeds"),
    };
    assert!(matches!(
        registry.open_sync_connection(&manager),
        Some(Err(ErrorKind::ConnectionAlreadyOpen))
    ));
    let conn = registry.sync_connection(&manager, Ok("sync")).unwrap().unwrap();
    assert_eq!(registry.close_sync_connection(&manager, conn), Some(Ok(())));
    let request = match registry.open_sync_connection(&manager) {
        Some(Ok(request)) => request,
        _ => panic!("the claim is free again"),
    };
    let conn = registry.sync_connection(&manager, Ok("sync")).unwrap().unwrap();
    assert!(matches!(registry.new_sync_conn_interrupt_handle(&manager, conn), Some(Ok(_))));
    assert!(!registry.manager(&manager).unwrap().is_sync_conn_active());
}

#[test]
fn wrong_manager_through_the_registry() {
    let mut registry = Registry::new();
    let a = open(&mut registry, "/tmp/a.db");
    let b = open(&mut registry, "/tmp/b.db");
    let writer_b = match registry.open_connection(&b, ConnectionType::ReadWrite) {
        Some(Ok(Checkout::Ready(conn))) => conn,
        _ => panic!("the writer should be in its slot"),
    };
    assert_eq!(
        registry.close_connection(&a, writer_b),
        Some(Err(ErrorKind::WrongManagerForClose))
    );
    assert!(!registry.manager(&a).unwrap().is_write_connection_out());
    assert!(registry.manager(&b).unwrap().is_write_connection_out());
}

#[test]
fn dead_references_are_told_apart() {
    let mut registry = Registry::new();
    let a = open(&mut registry, "/tmp/a.db");
    let mut other = Registry::new();
    let _ = open(&mut other, "/tmp/x.db");
    let stale = open(&mut other, "/tmp/y.db");
    assert!(registry.release(a).is_some());
    assert!(registry.manager(&stale).is_none());
    assert!(registry.open_connection(&stale, ConnectionType::ReadOnly).is_none());
    assert!(registry.open_sync_connection(&stale).is_none());
    assert!(registry.acquire(&stale).is_none());
}

#[test]
fn identities_of_managers_differ() {
    let mut registry = Registry::new();
    let a = open(&mut registry, "/tmp/a.db");
    let b = open(&mut registry, "/tmp/b.db");
    let c = open(&mut registry, "/tmp/c.db");
    let ids = [
        registry.manager(&a).unwrap().id(),
        registry.manager(&b).unwrap().id(),
        registry.manager(&c).unwrap().id(),
    ];
    assert_eq!(ids, [0, 1, 2]);
    assert!(registry.release(b).is_some());
    let again = open(&mut registry, "/tmp/b.db");
    assert_eq!(registry.manager(&again).unwrap().id(), 3);
}

#[test]
fn identity_does_not_come_from_the_request() {
    let mut registry = Registry::new();
    let first = open(&mut registry, "/tmp/a.db");
    let (mut request, delete_on_fail) = match StorageDb::new(&mut registry, "/tmp/b.db".to_string())
    {
        OpenStep::Open { request, delete_on_fail } => (request, delete_on_fail),
        OpenStep::Existing(_) => panic!("nothing was opened under this name"),
    };
    assert_eq!(request.api_id, 1);
    request.api_id = registry.manager(&first).unwrap().id();
    let second = match StorageDb::finish_open(&mut registry, request, delete_on_fail, Ok("conn")) {
        OpenResult::Ready(manager) => manager,
        _ => panic!("the manager should have been made"),
    };
    assert_eq!(registry.manager(&first).unwrap().id(), 0);
    assert_eq!(registry.manager(&second).unwrap().id(), 1);
    let writer = match registry.open_connection(&second, ConnectionType::ReadWrite) {
        Some(Ok(Checkout::Ready(conn))) => conn,
        _ => panic!("the writer should be in its slot"),
    };
    assert_eq!(writer.api_id(), 1);
    assert_eq!(
        registry.close_connection(&first, writer),
        Some(Err(ErrorKind::WrongManagerForClose))
    );
}

#[test]
fn failed_sync_open_through_the_registry_withdraws_the_claim() {
    let mut registry = Registry::new();
    let manager = open(&mut registry, "/tmp/a.db");
    assert!(matches!(registry.open_sync_connection(&manager), Some(Ok(_))));
    assert!(registry.manager(&manager).unwrap().is_sync_conn_active());
    let failed = registry.sync_connection(&manager, Err(ErrorKind::SqlError("busy".to_string())));
    assert!(matches!(failed, Some(Err(ErrorKind::SqlError(m))) if m == "busy"));
    assert!(!registry.manager(&manager).unwrap().is_sync_conn_active());
    assert!(matches!(registry.open_sync_connection(&manager), Some(Ok(_))));
    let conn = registry.sync_connection(&manager, Ok("sync")).unwrap().unwrap();
    assert!(matches!(
        registry.open_sync_connection(&manager),
        Some(Err(ErrorKind::ConnectionAlreadyOpen))
    ));
    assert_eq!(registry.close_sync_connection(&manager, conn), Some(Ok(())));
}

#[test]
fn sync_connection_for_a_manager_that_is_gone() {
    let mut registry = Registry::new();
    let manager = open(&mut registry, "/tmp/a.db");
    let mut empty = Registry::new();
    assert!(empty.sync_connection(&manager, Ok("sync")).is_none());
    assert!(registry.release(manager).is_some());
}
