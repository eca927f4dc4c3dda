use rusqlite::{Connection, OpenFlags};
use std::sync::{Arc, Mutex};
use sync_stores::arena::StrongRef;
use sync_stores::db::{
    Checkout, ConnectionRequest, ConnectionType, SetupStep, StorageConn, StorageDb,
    INITIAL_PRAGMAS, OPTIMIZE_PRAGMA, STATEMENT_CACHE_CAPACITY,
};
use sync_stores::error::ErrorKind;
use sync_stores::registry::{ManagerRegistry, OpenResult, OpenStep};

fn sql_error(e: rusqlite::Error) -> ErrorKind {
    ErrorKind::SqlError(e.to_string())
}

fn set_up(conn: Connection, conn_type: ConnectionType) -> Result<Connection, ErrorKind> {
    for step in StorageConn::<Connection>::setup_steps(conn_type) {
        match step {
            SetupStep::ExecutePragmas => conn.execute_batch(INITIAL_PRAGMAS).map_err(sql_error)?,
            SetupStep::DefineFunctions => {}
            SetupStep::SetStatementCacheCapacity => {
                conn.set_prepared_statement_cache_capacity(STATEMENT_CACHE_CAPACITY)
            }
            SetupStep::BeginTransaction => conn.execute_batch("BEGIN").map_err(sql_error)?,
            SetupStep::InitSchema => conn
                .execute_batch("CREATE TABLE IF NOT EXISTS kv (k TEXT PRIMARY KEY, v TEXT)")
                .map_err(sql_error)?,
            SetupStep::CommitTransaction => conn.execute_batch("COMMIT").map_err(sql_error)?,
        }
    }
    Ok(conn)
}

fn open_connection(request: &ConnectionRequest) -> Result<Connection, ErrorKind> {
    let conn = Connection::open_with_flags(&request.path, request.conn_type.rusqlite_flags())
        .map_err(sql_error)?;
    set_up(conn, request.conn_type)
}

fn open_manager(registry: &mut ManagerRegistry<Connection>, step: OpenStep) -> StrongRef {
    match step {
        OpenStep::Existing(manager) => manager,
        OpenStep::Open { request, delete_on_fail } => {
            let opened = open_connection(&request);
            match StorageDb::finish_open(registry, request, delete_on_fail, opened) {
                OpenResult::Ready(manager) => manager,
                OpenResult::Existing(manager) => manager,
                OpenResult::DeleteAndRetry(path) => panic!("schema failure on {}", path),
                OpenResult::Failed(e) => panic!("should get a manager: {:?}", e),
            }
        }
    }
}

#[test]
fn flags_of_each_kind() {
    let common = OpenFlags::SQLITE_OPEN_NO_MUTEX | OpenFlags::SQLITE_OPEN_URI;
    assert_eq!(
        ConnectionType::ReadOnly.rusqlite_flags(),
        common | OpenFlags::SQLITE_OPEN_READ_ONLY
    );
    assert_eq!(
        ConnectionType::ReadWrite.rusqlite_flags(),
        common | OpenFlags::SQLITE_OPEN_CREATE | OpenFlags::SQLITE_OPEN_READ_WRITE
    );
    assert_eq!(
        ConnectionType::Sync.rusqlite_flags(),
        common | OpenFlags::SQLITE_OPEN_READ_WRITE
    );
    assert_eq!(ConnectionType::ReadOnly.rusqlite_flags().bits(), 0x8000 | 0x40 | 0x1);
    assert_eq!(ConnectionType::ReadWrite.rusqlite_flags().bits(), 0x8000 | 0x40 | 0x4 | 0x2);
    assert_eq!(ConnectionType::Sync.rusqlite_flags().bits(), 0x8000 | 0x40 | 0x2);
}

#[test]
fn flags_of_a_suggestions_database() {
    assert_eq!(
        sync_stores::suggest::ConnectionType::ReadOnly.open_flags(),
        OpenFlags::SQLITE_OPEN_URI | OpenFlags::SQLITE_OPEN_READ_ONLY
    );
    assert_eq!(
        sync_stores::suggest::ConnectionType::ReadWrite.open_flags(),
        OpenFlags::SQLITE_OPEN_URI
            | OpenFlags::SQLITE_OPEN_CREATE
            | OpenFlags::SQLITE_OPEN_READ_WRITE
    );
}

// Sanity check that we can create a database.
#[test]
fn test_open() {
    let conn = set_up(
        Connection::open_in_memory().expect("no connection"),
        ConnectionType::ReadWrite,
    )
    .expect("no memory db");
    let db = StorageConn::with_sql_connection(
        conn,
        ConnectionType::ReadWrite,
        0,
        Arc::new(Mutex::new(())),
    );
    assert_eq!(db.conn_type(), ConnectionType::ReadWrite);
    assert_eq!(db.api_id(), 0);
    db.conn().execute_batch(OPTIMIZE_PRAGMA).expect("the hint is accepted");
}

#[test]
fn written_row_is_read_through_a_read_only_connection() {
    let mut registry: ManagerRegistry<Connection> = ManagerRegistry::new();
    let step = StorageDb::new_memory(&mut registry, "written-row");
    let manager = open_manager(&mut registry, step);

    let writer = match registry.open_connection(&manager, ConnectionType::ReadWrite) {
        Some(Ok(Checkout::Ready(conn))) => conn,
        _ => panic!("should get a write connection"),
    };
    writer
        .conn()
        .execute("INSERT INTO kv (k, v) VALUES (?1, ?2)", ["x", "1"])
        .expect("the row is written");
    assert_eq!(registry.close_connection(&manager, writer), Some(Ok(())));

    let reader = match registry.open_connection(&manager, ConnectionType::ReadOnly) {
        Some(Ok(Checkout::Open(request))) => {
            registry
                .manager(&manager)
                .unwrap()
                .connection(request.conn_type, open_connection(&request))
                .expect("a read connection")
        }
        _ => panic!("should get a read connection"),
    };
    assert_eq!(reader.conn_type(), ConnectionType::ReadOnly);
    let v: String = reader
        .conn()
        .query_row("SELECT v FROM kv WHERE k = ?1", ["x"], |row| row.get(0))
        .expect("the row is read");
    assert_eq!(v, "1");
    assert_eq!(registry.close_connection(&manager, reader), Some(Ok(())));
}

#[test]
fn written_row_is_read_from_a_file() {
    let mut registry: ManagerRegistry<Connection> = ManagerRegistry::new();
    let stamp = std::time::SystemTime::now()
        .duration_since(std::time::SystemTime::UNIX_EPOCH)
        .unwrap()
        .as_nanos();
    let path = format!("/tmp/sync_stores_{}_a.db", stamp);
    let step = StorageDb::new(&mut registry, path.clone());
    let manager = open_manager(&mut registry, step);

    let writer = match registry.open_connection(&manager, ConnectionType::ReadWrite) {
        Some(Ok(Checkout::Ready(conn))) => conn,
        _ => panic!("should get a write connection"),
    };
    writer
        .conn()
        .execute("INSERT OR REPLACE INTO kv (k, v) VALUES (?1, ?2)", ["x", "1"])
        .expect("the row is written");
    assert_eq!(registry.close_connection(&manager, writer), Some(Ok(())));

    let reader = match registry.open_connection(&manager, ConnectionType::ReadOnly) {
        Some(Ok(Checkout::Open(request))) => {
            assert_eq!(request.path, path);
            registry
                .manager(&manager)
                .unwrap()
                .connection(request.conn_type, open_connection(&request))
                .expect("a read connection")
        }
        _ => panic!("should get a read connection"),
    };
    let v: String = reader
        .conn()
        .query_row("SELECT v FROM kv WHERE k = ?1", ["x"], |row| row.get(0))
        .expect("the row is read");
    assert_eq!(v, "1");
    assert!(reader.conn().execute("INSERT INTO kv (k, v) VALUES ('y', '2')", []).is_err());
    assert_eq!(registry.close_connection(&manager, reader), Some(Ok(())));
}

#[test]
fn same_memory_database_through_two_opens() {
    let mut registry: ManagerRegistry<Connection> = ManagerRegistry::new();
    let step = StorageDb::new_memory(&mut registry, "two-opens");
    let first = open_manager(&mut registry, step);
    let step = StorageDb::new_memory(&mut registry, "two-opens");
    assert!(matches!(step, OpenStep::Existing(_)));
    let second = open_manager(&mut registry, step);
    assert!(first.ptr_eq(&second));
}

#[test]
fn sync_connection_with_a_real_engine() {
    let mut registry: ManagerRegistry<Connection> = ManagerRegistry::new();
    let step = StorageDb::new_memory(&mut registry, "sync-claim");
    let manager = open_manager(&mut registry, step);
    let request = match registry.open_sync_connection(&manager) {
        Some(Ok(request)) => request,
        _ => panic!("the first claim succeeds"),
    };
    assert!(matches!(
        registry.open_sync_connection(&manager),
        Some(Err(ErrorKind::ConnectionAlreadyOpen))
    ));
    let conn = registry
        .sync_connection(&manager, open_connection(&request))
        .expect("the manager lives")
        .expect("a sync connection");
    conn.conn()
        .conn()
        .execute("INSERT INTO kv (k, v) VALUES ('s', '1')", [])
        .expect("the sync connection writes");
    assert_eq!(registry.close_sync_connection(&manager, conn), Some(Ok(())));
    assert!(matches!(registry.open_sync_connection(&manager), Some(Ok(_))));
}
