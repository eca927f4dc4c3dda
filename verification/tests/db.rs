use sync_stores::db::{
    Checkout, ConnectionRequest, ConnectionType, SetupStep, StorageConn, StorageDb,
    INITIAL_PRAGMAS, OPTIMIZE_PRAGMA, STATEMENT_CACHE_CAPACITY,
};
use std::sync::{Arc, Mutex};
use sync_stores::error::ErrorKind;

fn manager(id: usize) -> StorageDb<&'static str> {
    StorageDb::with_connection("/tmp/a.db".to_string(), id, "writer")
}

#[test]
fn from_primitive_reads_known_kinds() {
    assert_eq!(ConnectionType::from_primitive(1), Some(ConnectionType::ReadOnly));
    assert_eq!(ConnectionType::from_primitive(2), Some(ConnectionType::ReadWrite));
    assert_eq!(ConnectionType::from_primitive(3), Some(ConnectionType::Sync));
    assert_eq!(ConnectionType::from_primitive(0), None);
    assert_eq!(ConnectionType::from_primitive(4), None);
    assert_eq!(ConnectionType::from_primitive(255), None);
}

#[test]
fn primitive_round_trips() {
    for kind in [ConnectionType::ReadOnly, ConnectionType::ReadWrite, ConnectionType::Sync] {
        assert_eq!(ConnectionType::from_primitive(kind.to_primitive()), Some(kind));
    }
    assert_eq!(ConnectionType::ReadOnly.to_primitive(), 1);
    assert_eq!(ConnectionType::ReadWrite.to_primitive(), 2);
    assert_eq!(ConnectionType::Sync.to_primitive(), 3);
}

#[test]
fn setup_steps_skip_schema_for_readers() {
    assert_eq!(
        StorageConn::<()>::setup_steps(ConnectionType::ReadOnly),
        vec![
            SetupStep::ExecutePragmas,
            SetupStep::DefineFunctions,
            SetupStep::SetStatementCacheCapacity
        ]
    );
    let full = vec![
        SetupStep::ExecutePragmas,
        SetupStep::DefineFunctions,
        SetupStep::SetStatementCacheCapacity,
        SetupStep::BeginTransaction,
        SetupStep::InitSchema,
        SetupStep::CommitTransaction,
    ];
    assert_eq!(StorageConn::<()>::setup_steps(ConnectionType::ReadWrite), full);
    assert_eq!(StorageConn::<()>::setup_steps(ConnectionType::Sync), full);
}

#[test]
fn tuning_constants() {
    assert!(INITIAL_PRAGMAS.contains("PRAGMA page_size = 32768;"));
    assert!(INITIAL_PRAGMAS.contains("PRAGMA journal_mode=WAL;"));
    assert!(INITIAL_PRAGMAS.contains("PRAGMA wal_autocheckpoint=62"));
    assert_eq!(OPTIMIZE_PRAGMA, "PRAGMA optimize(0x02);");
    assert_eq!(STATEMENT_CACHE_CAPACITY, 128);
}

#[test]
fn new_manager_holds_its_writer() {
    let db = manager(7);
    assert_eq!(db.id(), 7);
    assert_eq!(db.db_name(), "/tmp/a.db");
    assert!(!db.is_write_connection_out());
    assert!(!db.is_sync_conn_active());
}

#[test]
fn second_writer_is_refused_until_first_is_closed() {
    let mut db = manager(1);
    let first = match db.open_connection(ConnectionType::ReadWrite) {
        Ok(Checkout::Ready(conn)) => conn,
        _ => panic!("the writer should be in its slot"),
    };
    assert_eq!(first.conn_type(), ConnectionType::ReadWrite);
    assert_eq!(first.api_id(), 1);
    assert_eq!(*first.conn(), "writer");
    assert!(db.is_write_connection_out());
    match db.open_connection(ConnectionType::ReadWrite) {
        Err(e) => assert_eq!(e, ErrorKind::ConnectionAlreadyOpen),
        Ok(_) => panic!("a second writer was handed out"),
    }
    assert_eq!(db.close_connection(first), Ok(()));
    assert!(!db.is_write_connection_out());
    assert!(matches!(db.open_connection(ConnectionType::ReadWrite), Ok(Checkout::Ready(_))));
}

#[test]
fn readers_are_always_granted() {
    let mut db = manager(3);
    let _writer = db.open_connection(ConnectionType::ReadWrite);
    let _ = db.open_sync_connection();
    for _ in 0..3 {
        match db.open_connection(ConnectionType::ReadOnly) {
            Ok(Checkout::Open(request)) => {
                assert_eq!(
                    request,
                    ConnectionRequest {
                        path: "/tmp/a.db".to_string(),
                        conn_type: ConnectionType::ReadOnly,
                        api_id: 3
                    }
                );
            }
            _ => panic!("a reader was refused"),
        }
    }
}

#[test]
fn second_syncer_is_refused_until_first_is_closed() {
    let mut db = manager(4);
    let request = db.open_sync_connection().expect("the first claim succeeds");
    assert_eq!(request.conn_type, ConnectionType::Sync);
    assert_eq!(request.api_id, 4);
    assert_eq!(request.path, "/tmp/a.db");
    assert!(db.is_sync_conn_active());
    assert_eq!(db.open_sync_connection(), Err(ErrorKind::ConnectionAlreadyOpen));
    assert!(matches!(
        db.open_connection(ConnectionType::Sync),
        Err(ErrorKind::ConnectionAlreadyOpen)
    ));
    let conn = db.sync_connection(Ok("syncer")).expect("opening succeeded");
    assert_eq!(conn.conn().conn_type(), ConnectionType::Sync);
    assert_eq!(db.close_sync_connection(conn), Ok(()));
    assert!(!db.is_sync_conn_active());
    assert!(db.open_sync_connection().is_ok());
}

#[test]
fn sync_claim_through_open_connection() {
    let mut db = manager(4);
    match db.open_connection(ConnectionType::Sync) {
        Ok(Checkout::Open(request)) => assert_eq!(request.conn_type, ConnectionType::Sync),
        _ => panic!("the first sync claim succeeds"),
    }
    assert!(db.is_sync_conn_active());
}

#[test]
fn failed_sync_open_withdraws_the_claim() {
    let mut db = manager(4);
    let _request = db.open_sync_connection().unwrap();
    assert!(db.is_sync_conn_active());
    let failed = db.sync_connection(Err(ErrorKind::SqlError("locked".to_string())));
    assert!(matches!(failed, Err(ErrorKind::SqlError(m)) if m == "locked"));
    assert!(!db.is_sync_conn_active());
    assert!(!db.is_write_connection_out());
    let again = db.open_sync_connection().expect("the claim is free again");
    assert_eq!(again.conn_type, ConnectionType::Sync);
    let conn = db.sync_connection(Ok("syncer")).expect("opening succeeded");
    assert!(db.is_sync_conn_active());
    assert_eq!(db.close_sync_connection(conn), Ok(()));
    assert!(!db.is_sync_conn_active());
}

#[test]
fn dropping_a_sync_connection_gives_the_claim_back() {
    let mut db = manager(4);
    let _request = db.open_sync_connection().unwrap();
    let conn = db.sync_connection(Ok("syncer")).unwrap();
    assert_eq!(conn.drop(&mut db), Ok(()));
    assert!(!db.is_sync_conn_active());
    assert!(db.open_sync_connection().is_ok());
}

#[test]
fn dropping_a_sync_connection_on_another_manager_fails() {
    let mut db = manager(4);
    let mut other = manager(5);
    let _request = db.open_sync_connection().unwrap();
    let conn = db.sync_connection(Ok("syncer")).unwrap();
    assert_eq!(conn.drop(&mut other), Err(ErrorKind::WrongManagerForClose));
    assert!(db.is_sync_conn_active());
    assert!(!other.is_sync_conn_active());
}

#[test]
fn close_with_wrong_manager_fails_and_leaves_the_slot() {
    let mut db = manager(1);
    let mut other = manager(2);
    let foreign = match other.open_connection(ConnectionType::ReadWrite) {
        Ok(Checkout::Ready(conn)) => conn,
        _ => panic!("the writer should be in its slot"),
    };
    assert_eq!(db.close_connection(foreign), Err(ErrorKind::WrongManagerForClose));
    assert!(!db.is_write_connection_out());
    let own = match db.open_connection(ConnectionType::ReadWrite) {
        Ok(Checkout::Ready(conn)) => conn,
        _ => panic!("the writer should be in its slot"),
    };
    let foreign_reader = StorageConn::with_sql_connection(
        "reader",
        ConnectionType::ReadOnly,
        2,
        Arc::new(Mutex::new(())),
    );
    assert_eq!(db.close_connection(foreign_reader), Err(ErrorKind::WrongManagerForClose));
    assert!(db.is_write_connection_out());
    assert_eq!(db.close_connection(own), Ok(()));
}

#[test]
fn closing_a_reader_changes_nothing() {
    let mut db = manager(1);
    let reader = StorageConn::with_sql_connection(
        "reader",
        ConnectionType::ReadOnly,
        1,
        Arc::new(Mutex::new(())),
    );
    assert_eq!(db.close_connection(reader), Ok(()));
    assert!(!db.is_write_connection_out());
    assert!(!db.is_sync_conn_active());
}

#[test]
fn open_wraps_the_outcome() {
    let request = ConnectionRequest {
        path: "x".to_string(),
        conn_type: ConnectionType::ReadOnly,
        api_id: 9,
    };
    let lock = Arc::new(Mutex::new(()));
    let conn = StorageConn::open(&request, Ok(5u8), lock.clone()).expect("opening succeeded");
    assert!(Arc::ptr_eq(conn.coop_tx_lock(), &lock));
    assert_eq!(conn.sqldb, 5);
    assert_eq!(conn.conn_type(), ConnectionType::ReadOnly);
    assert_eq!(conn.api_id(), 9);
    let failed = StorageConn::<u8>::open(&request, Err(ErrorKind::SchemaUpgradeError), lock);
    assert!(matches!(failed, Err(ErrorKind::SchemaUpgradeError)));
}

#[test]
fn interrupt_handle_from_sync_connection_frees_the_claim() {
    let mut db = manager(6);
    let request = db.open_sync_connection().unwrap();
    let conn = db.sync_connection(Ok("syncer")).unwrap();
    let scope = conn.conn().begin_interrupt_scope();
    let handle = db.new_sync_conn_interrupt_handle(conn).expect("the connection is ours");
    assert!(!db.is_sync_conn_active());
    assert!(!scope.was_interrupted());
    handle.interrupt();
    assert!(scope.was_interrupted());
}

#[test]
fn error_kinds_tell_schema_failures_apart() {
    assert!(ErrorKind::SchemaUpgradeError.is_schema_upgrade_error());
    assert!(!ErrorKind::ConnectionAlreadyOpen.is_schema_upgrade_error());
    assert!(!ErrorKind::SqlError("x".to_string()).is_schema_upgrade_error());
}

#[test]
fn every_connection_of_a_manager_shares_its_lock() {
    let mut db = manager(1);
    let lock = db.coop_tx_lock().clone();
    let writer = match db.open_connection(ConnectionType::ReadWrite) {
        Ok(Checkout::Ready(conn)) => conn,
        _ => panic!("the writer should be in its slot"),
    };
    assert!(Arc::ptr_eq(writer.coop_tx_lock(), &lock));
    let reader = match db.open_connection(ConnectionType::ReadOnly) {
        Ok(Checkout::Open(request)) => db.connection(request.conn_type, Ok("reader")).unwrap(),
        _ => panic!("a reader was refused"),
    };
    assert_eq!(reader.conn_type(), ConnectionType::ReadOnly);
    assert_eq!(reader.api_id(), 1);
    assert!(Arc::ptr_eq(reader.coop_tx_lock(), &lock));
    let request = db.open_sync_connection().unwrap();
    let syncer = db.sync_connection(Ok("syncer")).unwrap();
    assert!(Arc::ptr_eq(syncer.conn().coop_tx_lock(), &lock));
    assert!(!Arc::ptr_eq(manager(2).coop_tx_lock(), &lock));
    let held = writer.coop_tx_lock().lock().unwrap();
    assert!(reader.coop_tx_lock().try_lock().is_err());
    drop(held);
    assert!(reader.coop_tx_lock().try_lock().is_ok());
    let failed = db.connection(request.conn_type, Err(ErrorKind::SqlError("busy".to_string())));
    assert!(matches!(failed, Err(ErrorKind::SqlError(m)) if m == "busy"));
}
