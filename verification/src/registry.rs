//! The registry of managers: at most one live manager per database.
//!
//! The registry maps the normalized name of a database to a weak reference
//! to its manager. A caller that opens a database gets a strong reference to
//! the manager that is registered for the name, if that manager still lives,
//! and otherwise to a new one. The registry never keeps a manager alive: an
//! entry whose manager has gone is replaced the next time its name is opened.

use crate::arena::{
    slot_live, slots_acquired, slots_released, slots_weak_released, slots_wf, slots_with_value,
    Arena, SlotView, Slots, StrongRef, WeakRef,
};
use crate::db::{
    Checkout, ConnectionRequest, ConnectionRequestView, ConnectionType, StorageConn, StorageDb,
    StorageDbView, SyncConn,
};
use crate::error::{ErrorKind, ErrorView};
use crate::interrupt::SqlInterruptHandle;
use crate::paths::{memory_db_name, memory_db_name_of};
use vstd::prelude::*;

verus! {

/// The weak reference that the registry holds for one name.
struct RegistryEntry {
    path: String,
    manager: WeakRef,
}

/// Process-wide state: the managers that live, and under which name each was
/// opened.
pub struct ManagerRegistry<C> {
    managers: Arena<StorageDb<C>>,
    entries: Vec<RegistryEntry>,
}

/// A [`ManagerRegistry`] as a mathematical value.
pub struct RegistryView<C> {
    /// The slots of all managers ever made.
    pub managers: Slots<StorageDbView<C>>,
    /// For each name that was opened, the slot of the manager made last for
    /// it.
    pub entries: Map<Seq<char>, int>,
}

/// What opening a database asks of the caller.
pub enum OpenStep {
    /// A manager lives for the name: here is one more strong reference to
    /// it.
    Existing(StrongRef),
    /// No manager lives for the name: open this connection, and hand the
    /// outcome to [`StorageDb::finish_open`].
    Open { request: ConnectionRequest, delete_on_fail: bool },
}

/// How an attempt to make a manager ended.
pub enum OpenResult {
    /// The manager was made and registered.
    Ready(StrongRef),
    /// A manager lives for the name after all; the connection was dropped.
    Existing(StrongRef),
    /// The schema on disk cannot be used: delete the file of this name and
    /// open once more, this time without deleting on failure.
    DeleteAndRetry(String),
    /// Opening failed for good.
    Failed(ErrorKind),
}

impl<C> RegistryView<C> {
    /// The manager in slot `i`, where the slot is live.
    pub open spec fn manager(self, i: int) -> StorageDbView<C> {
        self.managers[i].value.unwrap()
    }

    /// The slot of the live manager registered for `path`, if there is one.
    pub open spec fn lookup(self, path: Seq<char>) -> Option<int> {
        if self.entries.contains_key(path) && slot_live(self.managers, self.entries[path]) {
            Some(self.entries[path])
        } else {
            None
        }
    }

    /// The identity of the manager that is made next: the number of its
    /// slot. Slots are never used again, so no two managers ever share one.
    pub open spec fn next_identity(self) -> usize {
        self.managers.len() as usize
    }

    /// Every entry names a slot, every live manager is the one registered
    /// for its name and is well-formed, and the identity of a live manager
    /// is the number of its slot: no two live managers have the same.
    pub open spec fn wf(self) -> bool {
        &&& slots_wf(self.managers)
        &&& self.managers.len() <= usize::MAX
        &&& forall|p: Seq<char>|
            self.entries.contains_key(p) ==> 0 <= #[trigger] self.entries[p] < self.managers.len()
        &&& forall|i: int| #[trigger]
            slot_live(self.managers, i) ==> self.lookup(self.manager(i).db_name) == Some(i)
        &&& forall|i: int| #[trigger]
            slot_live(self.managers, i) ==> self.manager(i).wf() && self.manager(i).id == i
    }

    /// The request that makes a manager for `path` with the next identity.
    pub open spec fn request(self, path: Seq<char>) -> ConnectionRequestView {
        ConnectionRequestView {
            path,
            conn_type: ConnectionType::ReadWrite,
            api_id: self.next_identity(),
        }
    }

    /// The registry after one more strong reference to slot `i` was made.
    pub open spec fn acquired(self, i: int) -> Self {
        RegistryView { managers: slots_acquired(self.managers, i), ..self }
    }

    /// The registry after a strong reference to slot `i` was given back.
    pub open spec fn released(self, i: int) -> Self {
        RegistryView { managers: slots_released(self.managers, i), ..self }
    }

    /// The registry after the manager `db` was made and registered for
    /// `path`, with one strong reference and the registry's weak one. The
    /// weak reference that the registry held for the name before, if any,
    /// is given back.
    pub open spec fn registered(self, path: Seq<char>, db: StorageDbView<C>) -> Self {
        let former = if self.entries.contains_key(path) {
            slots_weak_released(self.managers, self.entries[path])
        } else {
            self.managers
        };
        RegistryView {
            managers: former.push(SlotView { strong: 1, weak: 1, value: Some(db) }),
            entries: self.entries.insert(path, self.managers.len() as int),
        }
    }

    /// The registry after the manager in slot `i` became `db`.
    pub open spec fn with_manager(self, i: int, db: StorageDbView<C>) -> Self {
        RegistryView { managers: slots_with_value(self.managers, i, db), ..self }
    }
}

/// The slots of an arena of managers, each manager taken by its view.
spec fn slots_views<C>(a: Slots<StorageDb<C>>) -> Slots<StorageDbView<C>> {
    Seq::new(
        a.len(),
        |i: int|
            SlotView {
                strong: a[i].strong,
                weak: a[i].weak,
                value: match a[i].value {
                    Some(db) => Some(db@),
                    None => None,
                },
            },
    )
}

/// For each name that has an entry, the slot that the entry refers to.
spec fn entries_map(es: Seq<RegistryEntry>) -> Map<Seq<char>, int> {
    Map::new(
        |p: Seq<char>| exists|k: int| 0 <= k < es.len() && (#[trigger] es[k]).path@ == p,
        |p: Seq<char>|
            es[choose|k: int| 0 <= k < es.len() && (#[trigger] es[k]).path@ == p].manager.id(),
    )
}

/// No two entries are for the same name.
spec fn entries_distinct(es: Seq<RegistryEntry>) -> bool {
    forall|j: int, k: int|
        0 <= j < es.len() && 0 <= k < es.len() && j != k ==> (#[trigger] es[j]).path@ != (
        #[trigger] es[k]).path@
}

proof fn lemma_entries_updated(es: Seq<RegistryEntry>, k: int, e: RegistryEntry)
    requires
        entries_distinct(es),
        0 <= k < es.len(),
        e.path@ == es[k].path@,
    ensures
        entries_distinct(es.update(k, e)),
        entries_map(es.update(k, e)) == entries_map(es).insert(e.path@, e.manager.id()),
{
    let es2 = es.update(k, e);
    assert(entries_distinct(es2)) by {
        assert forall|i: int, j: int| 0 <= i < es2.len() && 0 <= j < es2.len() && i != j implies (
        #[trigger] es2[i]).path@ != (#[trigger] es2[j]).path@ by {
        }
    }
    let m2 = entries_map(es2);
    let m = entries_map(es).insert(e.path@, e.manager.id());
    assert forall|p: Seq<char>| m2.contains_key(p) <==> m.contains_key(p) by {
        if m.contains_key(p) && p != e.path@ {
            let c = choose|c: int| 0 <= c < es.len() && (#[trigger] es[c]).path@ == p;
            assert(es2[c].path@ == p);
        }
        if p == e.path@ {
            assert(es2[k].path@ == p);
        }
    }
    assert forall|p: Seq<char>| m2.contains_key(p) implies m2[p] == m[p] by {
    }
}

proof fn lemma_entries_pushed(es: Seq<RegistryEntry>, e: RegistryEntry)
    requires
        entries_distinct(es),
        forall|k: int| 0 <= k < es.len() ==> (#[trigger] es[k]).path@ != e.path@,
    ensures
        entries_distinct(es.push(e)),
        entries_map(es.push(e)) == entries_map(es).insert(e.path@, e.manager.id()),
{
    let es2 = es.push(e);
    let m2 = entries_map(es2);
    let m = entries_map(es).insert(e.path@, e.manager.id());
    assert forall|p: Seq<char>| m2.contains_key(p) <==> m.contains_key(p) by {
        if m.contains_key(p) && p != e.path@ {
            let c = choose|c: int| 0 <= c < es.len() && (#[trigger] es[c]).path@ == p;
            assert(es2[c].path@ == p);
        }
        if p == e.path@ {
            assert(es2[es.len() as int].path@ == p);
        }
    }
    assert forall|p: Seq<char>| m2.contains_key(p) implies m2[p] == m[p] by {
    }
}

impl<C> View for ManagerRegistry<C> {
    type V = RegistryView<C>;

    closed spec fn view(&self) -> RegistryView<C> {
        RegistryView {
            managers: slots_views(self.managers@),
            entries: entries_map(self.entries@),
        }
    }
}

impl<C> ManagerRegistry<C> {
    /// The invariant of the registry: see [`RegistryView::wf`].
    pub closed spec fn wf(&self) -> bool {
        &&& self.managers.wf()
        &&& entries_distinct(self.entries@)
        &&& self@.wf()
    }

    /// What the invariant says of the view.
    pub proof fn lemma_wf(&self)
        requires
            self.wf(),
        ensures
            self@.wf(),
    {
    }

    /// A registry without managers.
    pub fn new() -> (r: Self)
        ensures
            r.wf(),
            r@.managers == Slots::<StorageDbView<C>>::empty(),
            r@.entries == Map::<Seq<char>, int>::empty(),
    {
        ManagerRegistry { managers: Arena::new(), entries: Vec::new() }
    }

    fn find(&self, path: &String) -> (r: Option<usize>)
        ensures
            r matches Some(k) ==> k < self.entries@.len() && self.entries@[k as int].path@ == path@,
            r is None ==> forall|k: int|
                0 <= k < self.entries@.len() ==> (#[trigger] self.entries@[k]).path@ != path@,
    {
        let mut k: usize = 0;
        while k < self.entries.len()
            invariant
                k <= self.entries@.len(),
                forall|j: int| 0 <= j < k ==> (#[trigger] self.entries@[j]).path@ != path@,
            decreases self.entries@.len() - k,
        {
            if self.entries[k].path == *path {
                return Some(k);
            }
            k = k + 1;
        }
        None
    }

    /// A strong reference to the manager that lives for `path`, if one does.
    pub fn lookup(&mut self, path: &String) -> (r: Option<StrongRef>)
        requires
            old(self).wf(),
        ensures
            final(self).wf(),
            r.is_some() <==> old(self)@.lookup(path@).is_some(),
            r matches Some(s) ==> Some(s.id()) == old(self)@.lookup(path@) && final(self)@ == old(
                self,
            )@.acquired(s.id()),
            r is None ==> final(self)@ == old(self)@,
    {
        match self.find(path) {
            Some(k) => {
                let r = self.managers.upgrade(&self.entries[k].manager);
                proof {
                    let i = self.entries@[k as int].manager.id();
                    assert(self@.managers =~= slots_acquired(old(self)@.managers, i));
                    lemma_acquired_wf(old(self)@, i);
                }
                r
            },
            None => {
                None
            },
        }
    }

    /// The manager that `r` refers to.
    pub fn manager(&self, r: &StrongRef) -> (m: Option<&StorageDb<C>>)
        requires
            self.wf(),
        ensures
            m.is_some() <==> slot_live(self@.managers, r.id()),
            m matches Some(db) ==> db@ == self@.manager(r.id()),
    {
        self.managers.get(r)
    }

    /// One more strong reference to the manager of `r`, while it lives.
    pub fn acquire(&mut self, r: &StrongRef) -> (s: Option<StrongRef>)
        requires
            old(self).wf(),
        ensures
            final(self).wf(),
            s.is_some() <==> slot_live(old(self)@.managers, r.id()),
            s matches Some(n) ==> n.id() == r.id(),
            final(self)@ == old(self)@.acquired(r.id()),
    {
        proof {
            lemma_acquired_wf(self@, r.id());
        }
        let s = self.managers.acquire(r);
        assert(self@.managers =~= slots_acquired(old(self)@.managers, r.id()));
        s
    }

    /// Gives a strong reference back. With the last one the manager leaves
    /// the registry and is returned, for the caller to close what it holds.
    pub fn release(&mut self, r: StrongRef) -> (m: Option<StorageDb<C>>)
        requires
            old(self).wf(),
        ensures
            final(self).wf(),
            final(self)@ == old(self)@.released(r.id()),
            m.is_some() <==> slot_live(old(self)@.managers, r.id()) && old(self)@.managers[r.id()].strong
                == 1,
            m matches Some(db) ==> db@ == old(self)@.manager(r.id()),
    {
        proof {
            lemma_released_wf(self@, r.id());
        }
        let m = self.managers.release(r);
        assert(self@.managers =~= slots_released(old(self)@.managers, r.id()));
        m
    }
}

impl<C> ManagerRegistry<C> {
    /// The identity of the manager that is made next.
    fn next_identity(&self) -> (id: usize)
        requires
            self.wf(),
        ensures
            id == self@.next_identity(),
            id == self@.managers.len(),
    {
        self.managers.len()
    }

    fn register(&mut self, path: String, db: StorageDb<C>) -> (r: StrongRef)
        requires
            old(self).wf(),
            old(self)@.lookup(path@) is None,
            db@.db_name == path@,
            db@.id == old(self)@.next_identity(),
            db@.wf(),
        ensures
            final(self).wf(),
            r.id() == old(self)@.managers.len(),
            final(self)@ == old(self)@.registered(path@, db@),
    {
        let found = self.find(&path);
        let strong = self.managers.insert(db);
        let weak = self.managers.downgrade(&strong);
        let entry = RegistryEntry { path, manager: weak.unwrap() };
        match found {
            Some(k) => {
                proof {
                    lemma_entries_updated(self.entries@, k as int, entry);
                }
                let mut former = entry;
                std::mem::swap(&mut self.entries[k], &mut former);
                self.managers.release_weak(former.manager);
                assert(slots_views(self.managers@) =~= slots_weak_released(
                    old(self)@.managers,
                    former.manager.id(),
                ).push(SlotView { strong: 1, weak: 1, value: Some(db@) }));
            },
            None => {
                proof {
                    lemma_entries_pushed(self.entries@, entry);
                }
                self.entries.push(entry);
                assert(slots_views(self.managers@) =~= old(self)@.managers.push(
                    SlotView { strong: 1, weak: 1, value: Some(db@) },
                ));
            },
        }
        proof {
            lemma_registered_wf(old(self)@, entry.path@, db@);
        }
        strong
    }
}

impl<C> StorageDb<C> {
    /// Creates a new, or fetches the live, manager of the database with the
    /// normalized path `db_name`. Where a manager has to be made, a failure
    /// to open that stems from the schema leads to one retry on a deleted
    /// file.
    pub fn new(target: &mut ManagerRegistry<C>, db_name: String) -> (r: OpenStep)
        requires
            old(target).wf(),
        ensures
            final(target).wf(),
            opening(old(target)@, db_name@, true, final(target)@, r),
    {
        Self::new_or_existing_into(target, db_name, true)
    }

    /// Creates a new, or fetches the live, manager of the shared in-memory
    /// database called `db_name`. Such a database can have one writer and
    /// many readers like any other.
    pub fn new_memory(target: &mut ManagerRegistry<C>, db_name: &str) -> (r: OpenStep)
        requires
            old(target).wf(),
        ensures
            final(target).wf(),
            opening(old(target)@, memory_db_name_of(db_name@), true, final(target)@, r),
    {
        let name = memory_db_name(db_name);
        Self::new_or_existing_into(target, name, true)
    }

    /// Creates a new, or fetches the live, manager of the database that
    /// `db_name` names, with `delete_on_fail` saying whether a schema failure
    /// may lead to a retry on a deleted file.
    pub fn new_or_existing_into(
        target: &mut ManagerRegistry<C>,
        db_name: String,
        delete_on_fail: bool,
    ) -> (r: OpenStep)
        requires
            old(target).wf(),
        ensures
            final(target).wf(),
            opening(old(target)@, db_name@, delete_on_fail, final(target)@, r),
    {
        let id = target.next_identity();
        match target.lookup(&db_name) {
            Some(existing) => OpenStep::Existing(existing),
            None => OpenStep::Open {
                request: ConnectionRequest {
                    path: db_name,
                    conn_type: ConnectionType::ReadWrite,
                    api_id: id,
                },
                delete_on_fail,
            },
        }
    }

    /// Takes the outcome of opening the connection that an
    /// [`OpenStep::Open`] asked for. A manager that is made gets the identity
    /// that the registry gives next, whatever the request says: it differs
    /// from the identity of every manager that lives.
    ///
    /// On success the manager is made around the connection, registered
    /// under the name of the request, and returned; should a manager live
    /// for that name by now, that one is returned instead and the
    /// connection is dropped. On failure nothing is registered: the failure
    /// is returned, unless it stems from the schema and `delete_on_fail` is
    /// set, in which case the caller is asked to delete the file and to open
    /// once more.
    pub fn finish_open(
        target: &mut ManagerRegistry<C>,
        request: ConnectionRequest,
        delete_on_fail: bool,
        opened: Result<C, ErrorKind>,
    ) -> (r: OpenResult)
        requires
            old(target).wf(),
        ensures
            final(target).wf(),
            finished(old(target)@, request@, delete_on_fail, opened, final(target)@, r),
            r matches OpenResult::Ready(s) ==> forall|i: int| #[trigger]
                slot_live(old(target)@.managers, i) ==> old(target)@.manager(i).id != final(target)@.manager(
                    s.id(),
                ).id,
    {
        match opened {
            Ok(connection) => {
                match target.lookup(&request.path) {
                    Some(existing) => OpenResult::Existing(existing),
                    None => {
                        let id = target.next_identity();
                        let db = StorageDb::with_connection(
                            request.path.clone(),
                            id,
                            connection,
                        );
                        let strong = target.register(request.path, db);
                        OpenResult::Ready(strong)
                    },
                }
            },
            Err(e) => {
                if delete_on_fail && e.is_schema_upgrade_error() {
                    OpenResult::DeleteAndRetry(request.path)
                } else {
                    OpenResult::Failed(e)
                }
            },
        }
    }
}

/// What [`StorageDb::new_or_existing_into`] does: `before` and `after` are
/// the registry around the call, `step` what it returned.
pub open spec fn opening<C>(
    before: RegistryView<C>,
    db_name: Seq<char>,
    delete_on_fail: bool,
    after: RegistryView<C>,
    step: OpenStep,
) -> bool {
    match before.lookup(db_name) {
        Some(i) => step matches OpenStep::Existing(s) && s.id() == i && after == before.acquired(
            i,
        ),
        None => step matches OpenStep::Open { request, delete_on_fail: d } && d == delete_on_fail
            && request@ == before.request(db_name) && after == before,
    }
}

/// What [`StorageDb::finish_open`] does: `before` and `after` are the
/// registry around the call, `result` what it returned.
pub open spec fn finished<C>(
    before: RegistryView<C>,
    request: ConnectionRequestView,
    delete_on_fail: bool,
    outcome: Result<C, ErrorKind>,
    after: RegistryView<C>,
    result: OpenResult,
) -> bool {
    match outcome {
        Ok(connection) => match before.lookup(request.path) {
            Some(i) => result matches OpenResult::Existing(s) && s.id() == i && after
                == before.acquired(i),
            None => {
                &&& result matches OpenResult::Ready(s) && s.id() == before.managers.len()
                &&& after.managers.len() == before.managers.len() + 1
                &&& after.managers.last().value matches Some(db) && after == before.registered(
                    request.path,
                    db,
                ) && new_manager(db, request.path, before.next_identity(), connection)
            },
        },
        Err(e) => after == before && if delete_on_fail && e@ == ErrorView::SchemaUpgradeError {
            result matches OpenResult::DeleteAndRetry(p) && p@ == request.path
        } else {
            result matches OpenResult::Failed(f) && f == e
        },
    }
}

/// Whether `db` is the manager that was made for the name `path` with the
/// identity `id` around `connection`: it has that name and identity, its
/// read-write connection is in its slot, carries its identity and shares its
/// lock, and no sync connection is active.
pub open spec fn new_manager<C>(
    db: StorageDbView<C>,
    path: Seq<char>,
    id: usize,
    connection: C,
) -> bool {
    &&& db.db_name == path
    &&& db.id == id
    &&& !db.sync_conn_active
    &&& db.write_connection matches Some(conn) && conn.made_of(
        connection,
        ConnectionType::ReadWrite,
        id,
        db.coop_tx_lock,
    )
}

/// A new registration keeps the registry well-formed, where no manager
/// lives for the name, the new manager has the next identity, and a slot is
/// left.
pub proof fn lemma_registered_wf<C>(reg: RegistryView<C>, path: Seq<char>, db: StorageDbView<C>)
    requires
        reg.wf(),
        reg.lookup(path) is None,
        reg.managers.len() < usize::MAX,
        db.db_name == path,
        db.id == reg.next_identity(),
        db.wf(),
    ensures
        reg.registered(path, db).wf(),
{
    let a = reg.registered(path, db);
    assert forall|j: int| #[trigger] slot_live(a.managers, j) implies a.lookup(
        a.manager(j).db_name,
    ) == Some(j) && a.manager(j).wf() && a.manager(j).id == j by {
        if j < reg.managers.len() {
            assert(slot_live(reg.managers, j));
        }
    }
}

impl<C> RegistryView<C> {
    /// Whether `after` is this registry with the manager in the live slot
    /// `i` changed to `db`, and nothing else.
    pub open spec fn manager_became(self, i: int, db: StorageDbView<C>, after: Self) -> bool {
        after == self.with_manager(i, db)
    }
}

impl<C> ManagerRegistry<C> {
    /// Opens a connection on the manager of `r`: see
    /// [`StorageDb::open_connection`]. Returns `None`, changing nothing, if
    /// `r` names no live manager.
    pub fn open_connection(&mut self, r: &StrongRef, conn_type: ConnectionType) -> (res: Option<
        Result<Checkout<C>, ErrorKind>,
    >)
        requires
            old(self).wf(),
        ensures
            final(self).wf(),
            res.is_some() <==> slot_live(old(self)@.managers, r.id()),
            res is None ==> final(self)@ == old(self)@,
            res matches Some(out) ==> {
                let db = old(self)@.manager(r.id());
                &&& out is Ok <==> db.can_open(conn_type)
                &&& out matches Err(e) ==> e@ == ErrorView::ConnectionAlreadyOpen && final(self)@
                    == old(self)@
                &&& out is Ok ==> old(self)@.manager_became(
                    r.id(),
                    db.after_open(conn_type),
                    final(self)@,
                )
                &&& out matches Ok(c) ==> match conn_type {
                    ConnectionType::ReadWrite => c matches Checkout::Ready(conn) && Some(conn)
                        == db.write_connection,
                    _ => c matches Checkout::Open(req) && req@ == db.request(conn_type),
                }
            },
    {
        let res = match self.managers.get_mut(r) {
            Some(db) => Some(db.open_connection(conn_type)),
            None => None,
        };
        proof {
            if res is Some {
                let db = self@.managers[r.id()].value.unwrap();
                assert(self@.managers =~= slots_with_value(old(self)@.managers, r.id(), db));
                assert(slot_live(old(self)@.managers, r.id()));
                lemma_with_manager_wf(old(self)@, r.id(), db);
                if res.unwrap() is Err {
                    assert(self@.managers =~= old(self)@.managers);
                }
            }
        }
        res
    }

    /// Claims the sync connection of the manager of `r`: see
    /// [`StorageDb::open_sync_connection`]. Returns `None`, changing nothing,
    /// if `r` names no live manager.
    pub fn open_sync_connection(&mut self, r: &StrongRef) -> (res: Option<
        Result<ConnectionRequest, ErrorKind>,
    >)
        requires
            old(self).wf(),
        ensures
            final(self).wf(),
            res.is_some() <==> slot_live(old(self)@.managers, r.id()),
            res is None ==> final(self)@ == old(self)@,
            res matches Some(out) ==> {
                let db = old(self)@.manager(r.id());
                &&& out is Ok <==> !db.sync_conn_active
                &&& out matches Err(e) ==> e@ == ErrorView::ConnectionAlreadyOpen && final(self)@
                    == old(self)@
                &&& out matches Ok(req) ==> req@ == db.request(ConnectionType::Sync) && old(
                    self,
                )@.manager_became(r.id(), db.with_sync(true), final(self)@)
            },
    {
        let res = match self.managers.get_mut(r) {
            Some(db) => Some(db.open_sync_connection()),
            None => None,
        };
        proof {
            if res is Some {
                let db = self@.managers[r.id()].value.unwrap();
                assert(self@.managers =~= slots_with_value(old(self)@.managers, r.id(), db));
                assert(slot_live(old(self)@.managers, r.id()));
                lemma_with_manager_wf(old(self)@, r.id(), db);
                if res.unwrap() is Err {
                    assert(self@.managers =~= old(self)@.managers);
                }
            }
        }
        res
    }

    /// Takes the outcome of opening the sync connection that was claimed on
    /// the manager of `r`: see [`StorageDb::sync_connection`]. A failure
    /// withdraws the claim. Returns `None`, changing nothing but dropping
    /// what was opened, if `r` names no live manager.
    pub fn sync_connection(&mut self, r: &StrongRef, opened: Result<C, ErrorKind>) -> (res: Option<
        Result<SyncConn<C>, ErrorKind>,
    >)
        requires
            old(self).wf(),
        ensures
            final(self).wf(),
            res.is_some() <==> slot_live(old(self)@.managers, r.id()),
            res is None ==> final(self)@ == old(self)@,
            res matches Some(out) ==> {
                let db = old(self)@.manager(r.id());
                &&& old(self)@.manager_became(
                    r.id(),
                    db.after_sync_open(opened is Ok),
                    final(self)@,
                )
                &&& match opened {
                    Ok(c) => out matches Ok(conn) && conn.inner().made_of(
                        c,
                        ConnectionType::Sync,
                        db.id,
                        db.coop_tx_lock,
                    ),
                    Err(e) => out matches Err(f) && f == e,
                }
            },
    {
        let res = match self.managers.get_mut(r) {
            Some(db) => Some(db.sync_connection(opened)),
            None => None,
        };
        proof {
            if res is Some {
                let db = self@.managers[r.id()].value.unwrap();
                assert(self@.managers =~= slots_with_value(old(self)@.managers, r.id(), db));
                assert(slot_live(old(self)@.managers, r.id()));
                lemma_with_manager_wf(old(self)@, r.id(), db);
            }
        }
        res
    }

    /// Closes a connection on the manager of `r`: see
    /// [`StorageDb::close_connection`]. Returns `None`, changing nothing but
    /// dropping the connection, if `r` names no live manager.
    pub fn close_connection(&mut self, r: &StrongRef, connection: StorageConn<C>) -> (res: Option<
        Result<(), ErrorKind>,
    >)
        requires
            old(self).wf(),
            slot_live(old(self)@.managers, r.id()) && old(self)@.manager(r.id()).can_close(
                connection,
            ) && connection.kind() == ConnectionType::ReadWrite ==> old(self)@.manager(
                r.id(),
            ).write_connection is None,
        ensures
            final(self).wf(),
            res.is_some() <==> slot_live(old(self)@.managers, r.id()),
            res is None ==> final(self)@ == old(self)@,
            res matches Some(out) ==> {
                let db = old(self)@.manager(r.id());
                &&& out is Ok <==> db.can_close(connection)
                &&& out matches Err(e) ==> e@ == ErrorView::WrongManagerForClose
                &&& old(self)@.manager_became(r.id(), db.after_close(connection), final(self)@)
            },
    {
        let res = match self.managers.get_mut(r) {
            Some(db) => Some(db.close_connection(connection)),
            None => None,
        };
        proof {
            if res is Some {
                let db = self@.managers[r.id()].value.unwrap();
                assert(self@.managers =~= slots_with_value(old(self)@.managers, r.id(), db));
                assert(slot_live(old(self)@.managers, r.id()));
                lemma_with_manager_wf(old(self)@, r.id(), db);
            }
        }
        res
    }

    /// Gives the sync connection of the manager of `r` back: see
    /// [`StorageDb::close_sync_connection`]. Returns `None`, changing nothing
    /// but dropping the connection, if `r` names no live manager.
    pub fn close_sync_connection(&mut self, r: &StrongRef, connection: SyncConn<C>) -> (res:
        Option<Result<(), ErrorKind>>)
        requires
            old(self).wf(),
        ensures
            final(self).wf(),
            res.is_some() <==> slot_live(old(self)@.managers, r.id()),
            res is None ==> final(self)@ == old(self)@,
            res matches Some(out) ==> {
                let db = old(self)@.manager(r.id());
                &&& out is Ok <==> db.can_close(connection.inner())
                &&& out matches Err(e) ==> e@ == ErrorView::WrongManagerForClose
                &&& old(self)@.manager_became(
                    r.id(),
                    db.after_close_sync(connection),
                    final(self)@,
                )
            },
    {
        let res = match self.managers.get_mut(r) {
            Some(db) => Some(db.close_sync_connection(connection)),
            None => None,
        };
        proof {
            if res is Some {
                let db = self@.managers[r.id()].value.unwrap();
                assert(self@.managers =~= slots_with_value(old(self)@.managers, r.id(), db));
                assert(slot_live(old(self)@.managers, r.id()));
                lemma_with_manager_wf(old(self)@, r.id(), db);
            }
        }
        res
    }

    /// Takes an interrupt handle from a sync connection of the manager of
    /// `r` and gives the connection back: see
    /// [`StorageDb::new_sync_conn_interrupt_handle`]. Returns `None`, changing
    /// nothing but dropping the connection, if `r` names no live manager.
    pub fn new_sync_conn_interrupt_handle(&mut self, r: &StrongRef, connection: SyncConn<C>) -> (res:
        Option<Result<SqlInterruptHandle, ErrorKind>>)
        requires
            old(self).wf(),
        ensures
            final(self).wf(),
            res.is_some() <==> slot_live(old(self)@.managers, r.id()),
            res is None ==> final(self)@ == old(self)@,
            res matches Some(out) ==> {
                let db = old(self)@.manager(r.id());
                &&& out is Ok <==> db.can_close(connection.inner())
                &&& out matches Err(e) ==> e@ == ErrorView::WrongManagerForClose
                &&& old(self)@.manager_became(
                    r.id(),
                    db.after_close_sync(connection),
                    final(self)@,
                )
            },
    {
        let res = match self.managers.get_mut(r) {
            Some(db) => Some(db.new_sync_conn_interrupt_handle(connection)),
            None => None,
        };
        proof {
            if res is Some {
                let db = self@.managers[r.id()].value.unwrap();
                assert(self@.managers =~= slots_with_value(old(self)@.managers, r.id(), db));
                assert(slot_live(old(self)@.managers, r.id()));
                lemma_with_manager_wf(old(self)@, r.id(), db);
            }
        }
        res
    }
}

/// A change to a live manager that keeps its name, its identity and its
/// own invariant keeps the registry well-formed.
pub proof fn lemma_with_manager_wf<C>(reg: RegistryView<C>, i: int, db: StorageDbView<C>)
    requires
        reg.wf(),
        slot_live(reg.managers, i),
        db.db_name == reg.manager(i).db_name,
        db.id == reg.manager(i).id,
        db.wf(),
    ensures
        reg.with_manager(i, db).wf(),
{
    let a = reg.with_manager(i, db);
    assert forall|j: int| #[trigger] slot_live(a.managers, j) implies a.lookup(
        a.manager(j).db_name,
    ) == Some(j) && a.manager(j).wf() && a.manager(j).id == j by {
        assert(slot_live(reg.managers, j));
    }
}

/// A failure to open registers nothing, and a failure that stems from the
/// schema is retried once and no more: it asks for a retry only where
/// deleting was allowed, and it is final where it was not, which is how the
/// retry is made.
pub proof fn lemma_failed_open_is_retried_once<C>(
    before: RegistryView<C>,
    request: ConnectionRequestView,
    delete_on_fail: bool,
    failure: ErrorKind,
    after: RegistryView<C>,
    result: OpenResult,
)
    requires
        finished(before, request, delete_on_fail, Err(failure), after, result),
    ensures
        after == before,
        result is DeleteAndRetry <==> delete_on_fail && failure@ == ErrorView::SchemaUpgradeError,
        !(result is DeleteAndRetry) ==> result == OpenResult::Failed(failure),
        !delete_on_fail ==> result is Failed,
{
}

/// At most one manager lives per database: two live managers with the same
/// name are one and the same.
pub proof fn lemma_one_manager_per_name<C>(reg: RegistryView<C>, i: int, j: int)
    requires
        reg.wf(),
        slot_live(reg.managers, i),
        slot_live(reg.managers, j),
        reg.manager(i).db_name == reg.manager(j).db_name,
    ensures
        i == j,
{
}

/// No two live managers have the same identity, and the manager that is
/// made next gets one that no live manager has.
pub proof fn lemma_identities_distinct<C>(reg: RegistryView<C>, i: int, j: int)
    requires
        reg.wf(),
        slot_live(reg.managers, i),
        slot_live(reg.managers, j),
    ensures
        reg.manager(i).id == reg.manager(j).id ==> i == j,
        reg.manager(i).id != reg.next_identity(),
{
}

/// A connection that one live manager made is refused by every other: the
/// identity that it carries is that of its maker alone.
pub proof fn lemma_close_needs_the_maker<C>(
    reg: RegistryView<C>,
    i: int,
    j: int,
    conn: StorageConn<C>,
)
    requires
        reg.wf(),
        slot_live(reg.managers, i),
        slot_live(reg.managers, j),
        conn.manager_id() == reg.manager(i).id,
    ensures
        reg.manager(j).can_close(conn) <==> i == j,
{
}

/// Opening a name twice yields the same manager: whether the first call
/// found the manager in slot `i` or registered it there, a second call for
/// the same name finds it in slot `i`, for as long as it lives.
pub proof fn lemma_open_twice_same_manager<C>(
    reg: RegistryView<C>,
    path: Seq<char>,
    db: StorageDbView<C>,
)
    requires
        reg.wf(),
    ensures
        reg.lookup(path) matches Some(i) ==> reg.acquired(i).lookup(path) == Some(i),
        reg.lookup(path) is None ==> reg.registered(path, db).lookup(path) == Some(
            reg.managers.len() as int,
        ),
{
}

/// A manager leaves the registry with its last strong reference, and no
/// sooner: after that its name can be opened afresh.
pub proof fn lemma_release_last_unregisters<C>(reg: RegistryView<C>, path: Seq<char>)
    requires
        reg.wf(),
    ensures
        reg.lookup(path) matches Some(i) ==> (reg.released(i).lookup(path) is None
            <==> reg.managers[i].strong == 1),
{
}

/// One more strong reference keeps the registry well-formed.
pub proof fn lemma_acquired_wf<C>(reg: RegistryView<C>, i: int)
    requires
        reg.wf(),
    ensures
        reg.acquired(i).wf(),
{
    let a = reg.acquired(i);
    assert forall|j: int| #[trigger] slot_live(a.managers, j) implies a.lookup(
        a.manager(j).db_name,
    ) == Some(j) && a.manager(j).wf() && a.manager(j).id == j by {
        assert(slot_live(reg.managers, j));
    }
}

/// Giving a strong reference back keeps the registry well-formed.
pub proof fn lemma_released_wf<C>(reg: RegistryView<C>, i: int)
    requires
        reg.wf(),
    ensures
        reg.released(i).wf(),
{
    let a = reg.released(i);
    assert forall|j: int| #[trigger] slot_live(a.managers, j) implies a.lookup(
        a.manager(j).db_name,
    ) == Some(j) && a.manager(j).wf() && a.manager(j).id == j by {
        assert(slot_live(reg.managers, j));
    }
}

} // verus!
