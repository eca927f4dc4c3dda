//! The manager of one database and the connections it hands out.
//!
//! A manager enforces, for one database, that at most one read-write
//! connection and at most one sync connection are in use at any time, while
//! read-only connections may be opened freely. It does not open connections
//! itself: where a fresh connection is needed it says which one, and the
//! caller, who talks to the storage engine, opens it. The connection type `C`
//! is whatever the caller's engine provides.

use crate::error::{ErrorKind, ErrorView};
use crate::interrupt::{SqlInterruptHandle, SqlInterruptScope};
use std::sync::atomic::AtomicUsize;
use std::sync::Arc;
use std::sync::Mutex;
use vstd::prelude::*;

verus! {

/// `std::sync::Mutex`, carried through as a value of which nothing is
/// known.
#[verifier::external_type_specification]
#[verifier::external_body]
#[verifier::reject_recursive_types(T)]
pub struct ExMutex<T: ?Sized>(Mutex<T>);

/// `std::sync::Mutex::new`: it makes a lock, of which nothing is claimed.
pub assume_specification<T>[ Mutex::<T>::new ](t: T) -> (m: Mutex<T>);

/// The lock that serializes the write transactions of one database inside
/// the process. It guards no data: whoever is about to begin a write
/// transaction takes it first.
pub type CoopTxLock = Arc<Mutex<()>>;

/// The tuning that every connection gets once, before any schema work.
pub const INITIAL_PRAGMAS: &'static str = "
            PRAGMA page_size = 32768;
            PRAGMA cipher_memory_security = false;
            PRAGMA temp_store = 2;
            PRAGMA cache_size = -6144;
            PRAGMA journal_mode=WAL;
            PRAGMA wal_autocheckpoint=62
        ";

/// The hint that a connection gives the engine before it is closed.
pub const OPTIMIZE_PRAGMA: &'static str = "PRAGMA optimize(0x02);";

/// How many prepared statements a connection keeps cached.
pub const STATEMENT_CACHE_CAPACITY: usize = 128;

/// The kind of a connection to a managed database.
#[derive(Debug, Clone, Copy, PartialEq, Eq, Structural)]
pub enum ConnectionType {
    ReadOnly,
    ReadWrite,
    Sync,
}

impl ConnectionType {
    /// The number that stands for this kind across a foreign boundary.
    pub open spec fn primitive(self) -> u8 {
        match self {
            ConnectionType::ReadOnly => 1,
            ConnectionType::ReadWrite => 2,
            ConnectionType::Sync => 3,
        }
    }

    /// Reads a kind back from its number; numbers outside 1..=3 name no kind.
    pub fn from_primitive(p: u8) -> (r: Option<ConnectionType>)
        ensures
            1 <= p <= 3 <==> r.is_some(),
            r matches Some(t) ==> t.primitive() == p,
    {
        match p {
            1 => Some(ConnectionType::ReadOnly),
            2 => Some(ConnectionType::ReadWrite),
            3 => Some(ConnectionType::Sync),
            _ => None,
        }
    }

    /// The number that stands for this kind.
    pub fn to_primitive(self) -> (p: u8)
        ensures
            p == self.primitive(),
    {
        match self {
            ConnectionType::ReadOnly => 1,
            ConnectionType::ReadWrite => 2,
            ConnectionType::Sync => 3,
        }
    }
}

/// One thing to do on a freshly opened connection, in the order given by
/// [`StorageConn::setup_steps`].
#[derive(Debug, Clone, Copy, PartialEq, Eq, Structural)]
pub enum SetupStep {
    /// Run [`INITIAL_PRAGMAS`].
    ExecutePragmas,
    /// Register the functions that queries may call.
    DefineFunctions,
    /// Set the statement cache to [`STATEMENT_CACHE_CAPACITY`].
    SetStatementCacheCapacity,
    /// Begin the transaction that the schema work runs in.
    BeginTransaction,
    /// Create or migrate the schema.
    InitSchema,
    /// Commit the transaction.
    CommitTransaction,
}

/// The steps that prepare a connection of kind `conn_type`: the tuning
/// always, the schema work in its transaction unless the connection only
/// reads.
pub open spec fn setup_steps_of(conn_type: ConnectionType) -> Seq<SetupStep> {
    let tuning = seq![
        SetupStep::ExecutePragmas,
        SetupStep::DefineFunctions,
        SetupStep::SetStatementCacheCapacity,
    ];
    if conn_type == ConnectionType::ReadOnly {
        tuning
    } else {
        tuning + seq![
            SetupStep::BeginTransaction,
            SetupStep::InitSchema,
            SetupStep::CommitTransaction,
        ]
    }
}

/// Which connection the caller is asked to open.
#[derive(Debug, Clone, PartialEq, Eq)]
pub struct ConnectionRequest {
    /// The database to open.
    pub path: String,
    /// The kind of connection to open.
    pub conn_type: ConnectionType,
    /// The identity of the manager that the connection will belong to.
    pub api_id: usize,
}

/// A [`ConnectionRequest`] as a mathematical value.
pub struct ConnectionRequestView {
    pub path: Seq<char>,
    pub conn_type: ConnectionType,
    pub api_id: usize,
}

impl View for ConnectionRequest {
    type V = ConnectionRequestView;

    open spec fn view(&self) -> ConnectionRequestView {
        ConnectionRequestView { path: self.path@, conn_type: self.conn_type, api_id: self.api_id }
    }
}

/// One opened connection, tagged with its kind and with the identity of the
/// manager it belongs to.
pub struct StorageConn<C> {
    /// The engine's connection.
    pub sqldb: C,
    conn_type: ConnectionType,
    interrupt_counter: Arc<AtomicUsize>,
    api_id: usize,
    coop_tx_lock: CoopTxLock,
}

impl<C> StorageConn<C> {
    /// The engine's connection inside.
    pub closed spec fn payload(&self) -> C {
        self.sqldb
    }

    /// The kind of this connection.
    pub closed spec fn kind(&self) -> ConnectionType {
        self.conn_type
    }

    /// The identity of the manager that this connection belongs to.
    pub closed spec fn manager_id(&self) -> usize {
        self.api_id
    }

    /// The lock to take before a write transaction on this connection.
    pub closed spec fn lock(&self) -> CoopTxLock {
        self.coop_tx_lock
    }

    /// The counter through which operations on this connection are
    /// interrupted.
    pub closed spec fn counter(&self) -> Arc<AtomicUsize> {
        self.interrupt_counter
    }

    /// The steps to run on a fresh connection of kind `conn_type`, in order,
    /// stopping at the first that fails.
    pub fn setup_steps(conn_type: ConnectionType) -> (steps: Vec<SetupStep>)
        ensures
            steps@ == setup_steps_of(conn_type),
    {
        let mut steps = Vec::new();
        steps.push(SetupStep::ExecutePragmas);
        steps.push(SetupStep::DefineFunctions);
        steps.push(SetupStep::SetStatementCacheCapacity);
        match conn_type {
            ConnectionType::ReadOnly => {},
            _ => {
                steps.push(SetupStep::BeginTransaction);
                steps.push(SetupStep::InitSchema);
                steps.push(SetupStep::CommitTransaction);
            },
        }
        steps
    }

    /// Wraps an engine connection on which the setup steps have run. Its
    /// interrupt counter starts afresh.
    pub fn with_sql_connection(
        db: C,
        conn_type: ConnectionType,
        api_id: usize,
        coop_tx_lock: CoopTxLock,
    ) -> (r: Self)
        ensures
            r.made_of(db, conn_type, api_id, coop_tx_lock),
    {
        StorageConn {
            sqldb: db,
            conn_type,
            api_id,
            interrupt_counter: Arc::new(AtomicUsize::new(0)),
            coop_tx_lock,
        }
    }

    /// Wraps the outcome of opening the connection that `request` asked for.
    pub fn open(
        request: &ConnectionRequest,
        opened: Result<C, ErrorKind>,
        coop_tx_lock: CoopTxLock,
    ) -> (r: Result<Self, ErrorKind>)
        ensures
            match opened {
                Ok(db) => r matches Ok(conn) && conn.made_of(
                    db,
                    request.conn_type,
                    request.api_id,
                    coop_tx_lock,
                ),
                Err(e) => r matches Err(f) && f == e,
            },
    {
        match opened {
            Ok(db) => Ok(
                Self::with_sql_connection(db, request.conn_type, request.api_id, coop_tx_lock),
            ),
            Err(e) => Err(e),
        }
    }

    /// Whether this is the connection made of these parts.
    pub open spec fn made_of(
        &self,
        db: C,
        conn_type: ConnectionType,
        api_id: usize,
        coop_tx_lock: CoopTxLock,
    ) -> bool {
        &&& self.payload() == db
        &&& self.kind() == conn_type
        &&& self.manager_id() == api_id
        &&& self.lock() == coop_tx_lock
    }

    /// A handle through which another thread can interrupt the operation
    /// that runs on this connection.
    pub fn new_interrupt_handle(&self) -> (r: SqlInterruptHandle)
        ensures
            r.counter() == self.counter(),
    {
        SqlInterruptHandle::new(self.interrupt_counter.clone())
    }

    /// Begins the scope of one logical operation on this connection.
    pub fn begin_interrupt_scope(&self) -> (r: SqlInterruptScope)
        ensures
            r.counter() == self.counter(),
    {
        SqlInterruptScope::new(self.interrupt_counter.clone())
    }

    /// The lock to take before a write transaction on this connection. It
    /// is shared with every other connection of the same manager.
    pub fn coop_tx_lock(&self) -> (r: &CoopTxLock)
        ensures
            *r == self.lock(),
    {
        &self.coop_tx_lock
    }

    /// The kind of this connection.
    #[inline]
    pub fn conn_type(&self) -> (r: ConnectionType)
        ensures
            r == self.kind(),
    {
        self.conn_type
    }

    /// The identity of the manager that this connection belongs to.
    #[inline]
    pub fn api_id(&self) -> (r: usize)
        ensures
            r == self.manager_id(),
    {
        self.api_id
    }

    /// The engine's connection.
    #[inline]
    pub fn conn(&self) -> (r: &C)
        ensures
            *r == self.payload(),
    {
        &self.sqldb
    }
}

/// The sync connection of a manager. While it is out, the manager hands out
/// no other; it is given back with [`StorageDb::close_sync_connection`].
pub struct SyncConn<C> {
    db: StorageConn<C>,
}

impl<C> SyncConn<C> {
    /// The connection inside.
    pub closed spec fn inner(&self) -> StorageConn<C> {
        self.db
    }

    /// The connection inside.
    pub fn conn(&self) -> (r: &StorageConn<C>)
        ensures
            *r == self.inner(),
    {
        &self.db
    }
}

impl<C> SyncConn<C> {
    /// Gives the sync connection back to the manager `db` that it belongs
    /// to: the connection is dropped, and from now on another can be
    /// claimed. A manager that it does not belong to refuses it with
    /// `WrongManagerForClose` and stays as it is.
    pub fn drop(self, db: &mut StorageDb<C>) -> (r: Result<(), ErrorKind>)
        ensures
            r is Ok <==> old(db)@.can_close(self.inner()),
            r matches Err(e) ==> e@ == ErrorView::WrongManagerForClose,
            final(db)@ == old(db)@.after_close_sync(self),
            old(db)@.wf() ==> final(db)@.wf(),
    {
        db.close_sync_connection(self)
    }
}

/// What [`StorageDb::open_connection`] hands out.
pub enum Checkout<C> {
    /// The manager's own read-write connection, taken out of its slot.
    Ready(StorageConn<C>),
    /// A connection that the caller has to open.
    Open(ConnectionRequest),
}

/// The entry point to one database: it gives access to connections and
/// enforces that only one writer and one syncer exist at once.
pub struct StorageDb<C> {
    db_name: String,
    write_connection: Option<StorageConn<C>>,
    coop_tx_lock: CoopTxLock,
    sync_conn_active: bool,
    id: usize,
}

/// A [`StorageDb`] as a mathematical value.
pub struct StorageDbView<C> {
    /// The normalized path or shared-memory name of the database.
    pub db_name: Seq<char>,
    /// The read-write connection, absent while it is checked out.
    pub write_connection: Option<StorageConn<C>>,
    /// The lock that every connection of this manager shares.
    pub coop_tx_lock: CoopTxLock,
    /// Whether the sync connection is checked out.
    pub sync_conn_active: bool,
    /// The identity of the manager.
    pub id: usize,
}

impl<C> StorageDbView<C> {
    /// The connection of kind `conn_type` that a caller is asked to open.
    pub open spec fn request(self, conn_type: ConnectionType) -> ConnectionRequestView {
        ConnectionRequestView { path: self.db_name, conn_type, api_id: self.id }
    }

    /// The manager with its write slot emptied.
    pub open spec fn without_writer(self) -> Self {
        StorageDbView { write_connection: None, ..self }
    }

    /// The manager with `conn` in its write slot.
    pub open spec fn with_writer(self, conn: StorageConn<C>) -> Self {
        StorageDbView { write_connection: Some(conn), ..self }
    }

    /// The manager with its sync flag set to `active`.
    pub open spec fn with_sync(self, active: bool) -> Self {
        StorageDbView { sync_conn_active: active, ..self }
    }

    /// What holds of every manager: the connection in its write slot, if
    /// there is one, is its own read-write connection.
    pub open spec fn wf(self) -> bool {
        self.write_connection matches Some(conn) ==> conn.kind() == ConnectionType::ReadWrite
            && conn.manager_id() == self.id
    }

    /// The manager after the outcome of opening the sync connection was
    /// taken: a failure withdraws the claim.
    pub open spec fn after_sync_open(self, opened: bool) -> Self {
        if opened {
            self
        } else {
            self.with_sync(false)
        }
    }

    /// Whether `open_connection(conn_type)` succeeds.
    pub open spec fn can_open(self, conn_type: ConnectionType) -> bool {
        match conn_type {
            ConnectionType::ReadOnly => true,
            ConnectionType::ReadWrite => self.write_connection is Some,
            ConnectionType::Sync => !self.sync_conn_active,
        }
    }

    /// The manager after `open_connection(conn_type)`.
    pub open spec fn after_open(self, conn_type: ConnectionType) -> Self {
        match conn_type {
            ConnectionType::ReadOnly => self,
            ConnectionType::ReadWrite => self.without_writer(),
            ConnectionType::Sync => self.with_sync(true),
        }
    }

    /// Whether `close_connection(conn)` accepts `conn`.
    pub open spec fn can_close(self, conn: StorageConn<C>) -> bool {
        conn.manager_id() == self.id
    }

    /// The manager after `close_connection(conn)`.
    pub open spec fn after_close(self, conn: StorageConn<C>) -> Self {
        if self.can_close(conn) && conn.kind() == ConnectionType::ReadWrite {
            self.with_writer(conn)
        } else {
            self
        }
    }

    /// The manager after `close_sync_connection(conn)`.
    pub open spec fn after_close_sync(self, conn: SyncConn<C>) -> Self {
        if self.can_close(conn.inner()) {
            self.with_sync(false)
        } else {
            self
        }
    }
}

impl<C> View for StorageDb<C> {
    type V = StorageDbView<C>;

    closed spec fn view(&self) -> StorageDbView<C> {
        StorageDbView {
            db_name: self.db_name@,
            write_connection: self.write_connection,
            coop_tx_lock: self.coop_tx_lock,
            sync_conn_active: self.sync_conn_active,
            id: self.id,
        }
    }
}

impl<C> StorageDb<C> {
    /// A manager for the database `db_name` whose read-write connection is
    /// `connection`, on which schema setup has run. The manager gets a lock
    /// of its own, which the connection shares.
    pub fn with_connection(db_name: String, id: usize, connection: C) -> (r: Self)
        ensures
            r@.wf(),
            r@.db_name == db_name@,
            r@.id == id,
            !r@.sync_conn_active,
            r@.write_connection matches Some(conn) && conn.made_of(
                connection,
                ConnectionType::ReadWrite,
                id,
                r@.coop_tx_lock,
            ),
    {
        let coop_tx_lock = Arc::new(Mutex::new(()));
        let conn = StorageConn::with_sql_connection(
            connection,
            ConnectionType::ReadWrite,
            id,
            coop_tx_lock.clone(),
        );
        StorageDb { db_name, write_connection: Some(conn), coop_tx_lock, sync_conn_active: false, id }
    }

    /// The lock that every connection of this manager shares.
    pub fn coop_tx_lock(&self) -> (r: &CoopTxLock)
        ensures
            *r == self@.coop_tx_lock,
    {
        &self.coop_tx_lock
    }

    /// Wraps the connection of kind `conn_type` that was opened for a
    /// request of this manager, and gives it the identity and the lock of
    /// the manager. Where opening failed, the failure is passed on. The
    /// outcome of opening a sync connection goes to
    /// [`StorageDb::sync_connection`], which also withdraws the claim where
    /// opening failed.
    pub fn connection(&self, conn_type: ConnectionType, opened: Result<C, ErrorKind>) -> (r: Result<
        StorageConn<C>,
        ErrorKind,
    >)
        ensures
            match opened {
                Ok(db) => r matches Ok(conn) && conn.made_of(
                    db,
                    conn_type,
                    self@.id,
                    self@.coop_tx_lock,
                ),
                Err(e) => r matches Err(f) && f == e,
            },
    {
        match opened {
            Ok(db) => Ok(
                StorageConn::with_sql_connection(db, conn_type, self.id, self.coop_tx_lock.clone()),
            ),
            Err(e) => Err(e),
        }
    }

    /// The identity of this manager.
    pub fn id(&self) -> (r: usize)
        ensures
            r == self@.id,
    {
        self.id
    }

    /// The normalized path or shared-memory name of the database.
    pub fn db_name(&self) -> (r: &String)
        ensures
            r@ == self@.db_name,
    {
        &self.db_name
    }

    /// Whether the read-write connection is checked out.
    pub fn is_write_connection_out(&self) -> (r: bool)
        ensures
            r == (self@.write_connection is None),
    {
        self.write_connection.is_none()
    }

    /// Whether the sync connection is checked out.
    pub fn is_sync_conn_active(&self) -> (r: bool)
        ensures
            r == self@.sync_conn_active,
    {
        self.sync_conn_active
    }

    fn request(&self, conn_type: ConnectionType) -> (r: ConnectionRequest)
        ensures
            r@ == self@.request(conn_type),
    {
        ConnectionRequest { path: self.db_name.clone(), conn_type, api_id: self.id }
    }

    /// Opens a connection to the database.
    ///
    /// A read-only connection is always granted: the caller opens a fresh
    /// one. The read-write connection is granted if it is in its slot, and
    /// leaves the slot. A sync connection is granted if none is active; the
    /// caller opens it, and the manager counts it as active from now on.
    /// Where the kind is not granted the call fails with
    /// `ConnectionAlreadyOpen` and changes nothing.
    pub fn open_connection(&mut self, conn_type: ConnectionType) -> (r: Result<
        Checkout<C>,
        ErrorKind,
    >)
        ensures
            r is Ok <==> old(self)@.can_open(conn_type),
            r matches Err(e) ==> e@ == ErrorView::ConnectionAlreadyOpen && final(self)@ == old(
                self,
            )@,
            r is Ok ==> final(self)@ == old(self)@.after_open(conn_type),
            old(self)@.wf() ==> final(self)@.wf(),
            r matches Ok(c) ==> match conn_type {
                ConnectionType::ReadWrite => c matches Checkout::Ready(conn) && Some(conn) == old(
                    self,
                )@.write_connection,
                _ => c matches Checkout::Open(req) && req@ == old(self)@.request(conn_type),
            },
    {
        match conn_type {
            ConnectionType::ReadOnly => Ok(Checkout::Open(self.request(ConnectionType::ReadOnly))),
            ConnectionType::ReadWrite => {
                match self.write_connection.take() {
                    None => Err(ErrorKind::ConnectionAlreadyOpen),
                    Some(db) => Ok(Checkout::Ready(db)),
                }
            },
            ConnectionType::Sync => {
                match self.open_sync_connection() {
                    Ok(req) => Ok(Checkout::Open(req)),
                    Err(e) => Err(e),
                }
            },
        }
    }

    /// Claims the sync connection. Fails with `ConnectionAlreadyOpen`,
    /// changing nothing, if one is active; otherwise the manager counts it as
    /// active from now on and says which connection the caller has to open.
    pub fn open_sync_connection(&mut self) -> (r: Result<ConnectionRequest, ErrorKind>)
        ensures
            r is Ok <==> !old(self)@.sync_conn_active,
            r matches Err(e) ==> e@ == ErrorView::ConnectionAlreadyOpen && final(self)@ == old(
                self,
            )@,
            r matches Ok(req) ==> req@ == old(self)@.request(ConnectionType::Sync) && final(self)@
                == old(self)@.with_sync(true),
            old(self)@.wf() ==> final(self)@.wf(),
    {
        let prev_value = self.sync_conn_active;
        if prev_value {
            Err(ErrorKind::ConnectionAlreadyOpen)
        } else {
            self.sync_conn_active = true;
            Ok(self.request(ConnectionType::Sync))
        }
    }

    /// Takes the outcome of opening the connection for a claim made with
    /// [`StorageDb::open_sync_connection`]. A connection is wrapped and gets
    /// the identity and the lock of the manager. A failure is passed on, and
    /// the claim is withdrawn: no sync connection is out, so the next claim
    /// is granted.
    pub fn sync_connection(&mut self, opened: Result<C, ErrorKind>) -> (r: Result<
        SyncConn<C>,
        ErrorKind,
    >)
        ensures
            final(self)@ == old(self)@.after_sync_open(opened is Ok),
            old(self)@.wf() ==> final(self)@.wf(),
            match opened {
                Ok(db) => r matches Ok(conn) && conn.inner().made_of(
                    db,
                    ConnectionType::Sync,
                    old(self)@.id,
                    old(self)@.coop_tx_lock,
                ),
                Err(e) => r matches Err(f) && f == e,
            },
    {
        match self.connection(ConnectionType::Sync, opened) {
            Ok(db) => Ok(SyncConn { db }),
            Err(e) => {
                self.sync_conn_active = false;
                Err(e)
            },
        }
    }

    /// Closes a connection to the database. The read-write connection goes
    /// back into its slot, from where it can be opened again; a connection of
    /// another kind is dropped. A connection of another manager is refused
    /// with `WrongManagerForClose`, and dropped, and nothing changes.
    ///
    /// To return the read-write connection while the slot is full is a
    /// programming error.
    pub fn close_connection(&mut self, connection: StorageConn<C>) -> (r: Result<(), ErrorKind>)
        requires
            old(self)@.can_close(connection) && connection.kind() == ConnectionType::ReadWrite
                ==> old(self)@.write_connection is None,
        ensures
            r is Ok <==> old(self)@.can_close(connection),
            r matches Err(e) ==> e@ == ErrorView::WrongManagerForClose,
            final(self)@ == old(self)@.after_close(connection),
            old(self)@.wf() ==> final(self)@.wf(),
    {
        if connection.api_id() != self.id {
            return Err(ErrorKind::WrongManagerForClose);
        }
        match connection.conn_type() {
            ConnectionType::ReadWrite => {
                self.write_connection = Some(connection);
            },
            _ => {},
        }
        Ok(())
    }

    /// Gives the sync connection back: from now on another can be claimed. A
    /// connection of another manager is refused with `WrongManagerForClose`
    /// and nothing changes. Either way the connection is dropped.
    pub fn close_sync_connection(&mut self, connection: SyncConn<C>) -> (r: Result<(), ErrorKind>)
        ensures
            r is Ok <==> old(self)@.can_close(connection.inner()),
            r matches Err(e) ==> e@ == ErrorView::WrongManagerForClose,
            final(self)@ == old(self)@.after_close_sync(connection),
            old(self)@.wf() ==> final(self)@.wf(),
    {
        if connection.db.api_id() != self.id {
            return Err(ErrorKind::WrongManagerForClose);
        }
        self.sync_conn_active = false;
        Ok(())
    }

    /// Takes an interrupt handle from a sync connection that was opened for
    /// this purpose alone, and gives the connection back at once.
    pub fn new_sync_conn_interrupt_handle(&mut self, connection: SyncConn<C>) -> (r: Result<
        SqlInterruptHandle,
        ErrorKind,
    >)
        ensures
            r is Ok <==> old(self)@.can_close(connection.inner()),
            r matches Ok(handle) ==> handle.counter() == connection.inner().counter(),
            r matches Err(e) ==> e@ == ErrorView::WrongManagerForClose,
            final(self)@ == old(self)@.after_close_sync(connection),
            old(self)@.wf() ==> final(self)@.wf(),
    {
        let handle = connection.conn().new_interrupt_handle();
        match self.close_sync_connection(connection) {
            Ok(()) => Ok(handle),
            Err(e) => Err(e),
        }
    }
}

/// While the read-write connection of a manager is out, a second one is
/// refused; once it is back, it is granted again, and it is the connection
/// that was given back: of kind read-write and of this manager.
pub proof fn lemma_single_writer<C>(db: StorageDbView<C>)
    requires
        db.wf(),
        db.write_connection is Some,
    ensures
        ({
            let conn = db.write_connection->0;
            let out = db.after_open(ConnectionType::ReadWrite);
            &&& conn.kind() == ConnectionType::ReadWrite
            &&& conn.manager_id() == db.id
            &&& db.can_open(ConnectionType::ReadWrite)
            &&& out.write_connection is None
            &&& !out.can_open(ConnectionType::ReadWrite)
            &&& out.can_close(conn)
            &&& out.after_close(conn).can_open(ConnectionType::ReadWrite)
            &&& out.after_close(conn) == db
        }),
{
}

/// While a sync connection is out, a second one is refused; once it is back,
/// one is granted again, whatever happened in between. A claim for which no
/// connection could be opened is withdrawn, so that one is granted again as
/// well.
pub proof fn lemma_single_syncer<C>(db: StorageDbView<C>, conn: SyncConn<C>)
    requires
        !db.sync_conn_active,
        conn.inner().manager_id() == db.id,
    ensures
        db.can_open(ConnectionType::Sync),
        !db.after_open(ConnectionType::Sync).can_open(ConnectionType::Sync),
        db.after_open(ConnectionType::Sync).after_sync_open(true) == db.after_open(
            ConnectionType::Sync,
        ),
        db.after_open(ConnectionType::Sync).after_close_sync(conn).can_open(ConnectionType::Sync),
        db.after_open(ConnectionType::Sync).after_close_sync(conn) == db,
        db.after_open(ConnectionType::Sync).after_sync_open(false).can_open(ConnectionType::Sync),
        db.after_open(ConnectionType::Sync).after_sync_open(false) == db,
{
}

/// Every step of a manager keeps what holds of every manager.
pub proof fn lemma_wf_is_kept<C>(
    db: StorageDbView<C>,
    conn_type: ConnectionType,
    conn: StorageConn<C>,
    sync: SyncConn<C>,
    opened: bool,
)
    requires
        db.wf(),
    ensures
        db.after_open(conn_type).wf(),
        db.after_close(conn).wf(),
        db.after_close_sync(sync).wf(),
        db.after_sync_open(opened).wf(),
{
}

/// Read-only connections are granted in every state and change none.
pub proof fn lemma_readers_unlimited<C>(db: StorageDbView<C>)
    ensures
        db.can_open(ConnectionType::ReadOnly),
        db.after_open(ConnectionType::ReadOnly) == db,
{
}

/// A connection of another manager is refused, and the manager stays as it
/// was.
pub proof fn lemma_wrong_manager_close<C>(db: StorageDbView<C>, conn: StorageConn<C>)
    requires
        conn.manager_id() != db.id,
    ensures
        !db.can_close(conn),
        db.after_close(conn) == db,
{
}

} // verus!
