//! The tabs store: the tabs of this device and of the other devices of the
//! account, and the way the store reaches the sync manager.

use crate::arena::StrongRef;
use crate::logins::{copy_opt, opt_view};
use crate::orchestrator::{
    escalate, escalation_of, results_view, AssociationView, EngineSyncAssociation, Escalation,
    SyncFailure, SyncResult, SyncTelemetryPing,
};
use crate::paths::{parsed_url, url_error_text, url_parse};
use crate::sync_manager::{SyncManagerRegistry, SyncManagerView};
use vstd::prelude::*;

verus! {

/// The name of the collection that the tabs engine syncs.
pub const COLLECTION_NAME: &'static str = "tabs";

/// The engines that the sync manager knows.
#[derive(Debug, Clone, Copy, PartialEq, Eq, Structural)]
pub enum SyncEngineId {
    Passwords,
    History,
    Bookmarks,
    Tabs,
    Addresses,
    CreditCards,
}

/// Why an operation on the tabs store failed.
#[derive(Debug, Clone, PartialEq, Eq)]
pub enum TabsError {
    /// The address of the token server is no URL; the parser's message.
    UrlParseError(String),
    /// The store is no longer there.
    StoreGone,
    /// Syncing failed.
    Sync(SyncFailure),
}

/// One open tab.
#[derive(Debug, Clone, PartialEq, Eq)]
pub struct RemoteTab {
    pub title: String,
    pub url_history: Vec<String>,
    pub icon: Option<String>,
    pub last_used: i64,
}

/// The open tabs of one device.
#[derive(Debug, Clone, PartialEq, Eq)]
pub struct ClientRemoteTabs {
    pub client_id: String,
    pub client_name: String,
    pub remote_tabs: Vec<RemoteTab>,
}

/// What the store keeps: where its database is, the tabs of this device as
/// they were set last, the tabs of the other devices as the last sync left
/// them, the collection of the remote service that the store is tied to, and
/// what the last run of syncing left for the next.
pub struct TabsStorage {
    pub db_path: String,
    pub local_tabs: Option<Vec<RemoteTab>>,
    pub remote_tabs: Option<Vec<ClientRemoteTabs>>,
    pub association: EngineSyncAssociation,
    pub global_state: Option<String>,
}

impl TabsStorage {
    /// Storage for the database at `db_path`, with nothing known yet, tied
    /// to no collection, and with nothing left by a run of syncing.
    pub fn new(db_path: &str) -> (r: Self)
        ensures
            r.db_path@ == db_path@,
            r.local_tabs is None,
            r.remote_tabs is None,
            r.association@ == AssociationView::Disconnected,
            r.global_state is None,
    {
        TabsStorage {
            db_path: db_path.to_owned(),
            local_tabs: None,
            remote_tabs: None,
            association: EngineSyncAssociation::Disconnected,
            global_state: None,
        }
    }

    /// What the last run of syncing left for the next.
    pub fn get_global_state(&self) -> (r: Option<String>)
        ensures
            opt_view(r) == opt_view(self.global_state),
    {
        copy_opt(&self.global_state)
    }

    /// Keeps `state` for the next run of syncing, in place of what was kept.
    /// Nothing else changes.
    pub fn set_global_state(&mut self, state: &Option<String>)
        ensures
            final(self).same_but_state(*old(self), opt_view(*state)),
    {
        self.global_state = copy_opt(state);
    }

    /// Whether this is `before` with `state` as what syncing left, and
    /// nothing else changed.
    pub open spec fn same_but_state(self, before: Self, state: Option<Seq<char>>) -> bool {
        &&& opt_view(self.global_state) == state
        &&& self.db_path == before.db_path
        &&& self.local_tabs == before.local_tabs
        &&& self.remote_tabs == before.remote_tabs
        &&& self.association == before.association
    }

    /// Takes `local_state` as the tabs of this device.
    pub fn update_local_state(&mut self, local_state: Vec<RemoteTab>)
        ensures
            final(self).local_tabs == Some(local_state),
            final(self).db_path == old(self).db_path,
            final(self).remote_tabs == old(self).remote_tabs,
            final(self).association == old(self).association,
            final(self).global_state == old(self).global_state,
    {
        self.local_tabs = Some(local_state);
    }

    /// Ties the store to the collection that `association` names, or to
    /// none. The tabs stay.
    pub fn reset(&mut self, association: &EngineSyncAssociation)
        ensures
            final(self).association@ == association@,
            final(self).db_path == old(self).db_path,
            final(self).local_tabs == old(self).local_tabs,
            final(self).remote_tabs == old(self).remote_tabs,
            final(self).global_state == old(self).global_state,
    {
        self.association = association.copy();
    }

    /// The tabs of the other devices, if a sync has brought any.
    pub fn get_remote_tabs(&self) -> (r: Option<&Vec<ClientRemoteTabs>>)
        ensures
            r.is_some() == self.remote_tabs.is_some(),
            r matches Some(list) ==> Some(*list) == self.remote_tabs,
    {
        self.remote_tabs.as_ref()
    }
}

/// The tabs store.
pub struct TabsStore {
    pub storage: TabsStorage,
}

/// The sync engine of a tabs store: it holds the store for as long as it
/// exists.
pub struct TabsEngine {
    pub store: StrongRef,
    pub local_id: String,
}

impl TabsEngine {
    /// An engine on `store`, for a device that has no id yet.
    pub fn new(store: StrongRef) -> (r: Self)
        ensures
            r.store == store,
            r.local_id@ == Seq::<char>::empty(),
    {
        TabsEngine { store, local_id: String::new() }
    }
}

/// The engine of a tabs store for a sync that the application drives
/// itself: it holds the store for as long as it exists.
pub struct BridgedEngine {
    pub store: StrongRef,
}

impl BridgedEngine {
    /// An engine on `store`.
    pub fn new(store: StrongRef) -> (r: Self)
        ensures
            r.store == store,
    {
        BridgedEngine { store }
    }
}

/// The stores of a process, and the one that is offered to the sync manager.
pub type TabsStores = SyncManagerRegistry<TabsStore>;

/// What a sync of the tabs store alone needs: what the application handed
/// over, checked, and what the store kept from its last run.
pub struct TabsSyncRequest {
    pub key_id: String,
    pub access_token: String,
    pub sync_key: String,
    /// The address of the token server, as the URL parser has normalized it.
    pub tokenserver_url: String,
    pub engine: TabsEngine,
    /// What the last run of syncing left: the run begins with it.
    pub persisted_state: Option<String>,
}

/// The store in slot `i`, where one lives there.
pub open spec fn store_of(stores: SyncManagerView<TabsStore>, i: int) -> Option<TabsStore> {
    if 0 <= i < stores.stores.len() {
        stores.stores[i].value
    } else {
        None
    }
}

/// Whether `after` is `before` with `state` kept in the store of slot `i`
/// as what syncing left, and nothing else changed.
pub open spec fn state_kept(
    before: SyncManagerView<TabsStore>,
    i: int,
    state: Option<Seq<char>>,
    after: SyncManagerView<TabsStore>,
) -> bool {
    &&& store_of(before, i) matches Some(was) && store_of(after, i) matches Some(now)
        && now.storage.same_but_state(was.storage, state)
    &&& after == before.with_store(i, after.stores[i].value.unwrap())
}

/// Whether `r` is what the application is told of a run that handed back
/// `result`: the report, unless the run was aborted or the tabs engine
/// failed.
pub open spec fn sync_outcome(result: SyncResult, r: Result<SyncTelemetryPing, TabsError>) -> bool {
    match escalation_of(result.result, results_view(result.engine_results@), COLLECTION_NAME@) {
        Escalation::Report => r matches Ok(t) && t == result.telemetry,
        Escalation::Run(f) => r matches Err(TabsError::Sync(SyncFailure::Run(g))) && g == f,
        Escalation::Engine(reason) => r matches Err(TabsError::Sync(SyncFailure::Engine(g))) && g@
            == reason,
    }
}

/// Called by the sync manager to get a sync engine through the store that
/// was registered last. There is none where no store is registered or the
/// registered store is gone.
///
/// To ask for another engine than that of tabs is a programming error,
/// unless it is certain that no store can be reached.
pub fn get_registered_sync_engine(stores: &mut TabsStores, engine_id: &SyncEngineId) -> (r: Option<
    TabsEngine,
>)
    requires
        old(stores).wf(),
        old(stores)@.resolved().is_some() ==> *engine_id == SyncEngineId::Tabs,
    ensures
        final(stores).wf(),
        r.is_some() <==> old(stores)@.resolved().is_some(),
        r matches Some(engine) ==> Some(engine.store.id()) == old(stores)@.resolved()
            && engine.local_id@ == Seq::<char>::empty() && final(stores)@ == old(stores)@.acquired(
            engine.store.id(),
        ),
        r is None ==> final(stores)@ == old(stores)@,
{
    match stores.upgrade() {
        None => None,
        Some(store) => Some(TabsEngine::new(store)),
    }
}

/// Whether the sync manager can reach a store at present.
pub fn is_sync_engine_registered(stores: &TabsStores) -> (r: bool)
    ensures
        r == stores@.resolved().is_some(),
{
    stores.resolves()
}

impl TabsStore {
    /// A store on the database at `db_path`.
    pub fn new(db_path: &str) -> (r: Self)
        ensures
            r.storage.db_path@ == db_path@,
            r.storage.local_tabs is None,
            r.storage.remote_tabs is None,
            r.storage.association@ == AssociationView::Disconnected,
            r.storage.global_state is None,
    {
        TabsStore { storage: TabsStorage::new(db_path) }
    }

    /// A store on the shared database in memory called `db_path`.
    pub fn new_with_mem_path(db_path: &str) -> (r: Self)
        ensures
            r.storage.db_path@ == db_path@,
            r.storage.local_tabs is None,
            r.storage.remote_tabs is None,
            r.storage.association@ == AssociationView::Disconnected,
            r.storage.global_state is None,
    {
        TabsStore { storage: TabsStorage::new(db_path) }
    }

    /// Takes `local_state` as the tabs of this device.
    pub fn set_local_tabs(&mut self, local_state: Vec<RemoteTab>)
        ensures
            final(self).storage.local_tabs == Some(local_state),
            final(self).storage.db_path == old(self).storage.db_path,
            final(self).storage.remote_tabs == old(self).storage.remote_tabs,
            final(self).storage.association == old(self).storage.association,
            final(self).storage.global_state == old(self).storage.global_state,
    {
        self.storage.update_local_state(local_state);
    }

    /// Cuts the tie of the store to its collection of the remote service.
    pub fn reset(&mut self)
        ensures
            final(self).storage.association@ == AssociationView::Disconnected,
            final(self).storage.db_path == old(self).storage.db_path,
            final(self).storage.local_tabs == old(self).storage.local_tabs,
            final(self).storage.remote_tabs == old(self).storage.remote_tabs,
            final(self).storage.global_state == old(self).storage.global_state,
    {
        self.storage.reset(&EngineSyncAssociation::Disconnected);
    }

    /// The engine of the store of `this` for a sync that the application
    /// drives itself.
    pub fn bridged_engine(this: StrongRef) -> (r: BridgedEngine)
        ensures
            r.store == this,
    {
        BridgedEngine::new(this)
    }

    /// The tabs of the other devices: none where no sync has brought any.
    pub fn get_all(&self) -> (r: &[ClientRemoteTabs])
        ensures
            r@ == (match self.storage.remote_tabs {
                Some(list) => list@,
                None => Seq::<ClientRemoteTabs>::empty(),
            }),
    {
        match self.remote_tabs() {
            Some(list) => list.as_slice(),
            None => &[],
        }
    }

    /// The tabs of the other devices, if a sync has brought any.
    pub fn remote_tabs(&self) -> (r: Option<&Vec<ClientRemoteTabs>>)
        ensures
            r.is_some() == self.storage.remote_tabs.is_some(),
            r matches Some(list) ==> Some(*list) == self.storage.remote_tabs,
    {
        self.storage.get_remote_tabs()
    }

    /// Makes the store of `this` available to the sync manager, in place of
    /// whatever was registered before. The store is offered, so that it
    /// need not know the sync manager.
    pub fn register_with_sync_manager(stores: &mut TabsStores, this: &StrongRef)
        requires
            old(stores).wf(),
        ensures
            final(stores).wf(),
            final(stores)@ == old(stores)@.registered(this.id()),
    {
        stores.register(this);
    }

    /// Begins a sync of the store of `this` alone, without the sync manager:
    /// checks what the application handed over, reads what the store kept
    /// from its last run, and makes the engine, which gets `local_id` as the
    /// id of this device since nothing else will tell it. Fails with
    /// `UrlParseError`, and gives `this` back to the stores, where
    /// `tokenserver_url` is no URL; fails with `StoreGone` where no store
    /// lives at `this`.
    pub fn sync(
        stores: &mut TabsStores,
        this: StrongRef,
        key_id: String,
        access_token: String,
        sync_key: String,
        tokenserver_url: String,
        local_id: String,
    ) -> (r: Result<TabsSyncRequest, TabsError>)
        requires
            old(stores).wf(),
        ensures
            final(stores).wf(),
            match parsed_url(tokenserver_url@) {
                Some((_, text)) => match store_of(old(stores)@, this.id()) {
                    Some(store) => r matches Ok(request) && request.key_id == key_id
                        && request.access_token == access_token && request.sync_key == sync_key
                        && request.tokenserver_url@ == text && request.engine.store == this
                        && request.engine.local_id == local_id && opt_view(
                        request.persisted_state,
                    ) == opt_view(store.storage.global_state) && final(stores)@ == old(stores)@,
                    None => r matches Err(e) && e == TabsError::StoreGone && final(stores)@ == old(
                        stores,
                    )@,
                },
                None => r matches Err(e) && e matches TabsError::UrlParseError(m) && m@
                    == url_error_text(tokenserver_url@) && final(stores)@ == old(
                    stores,
                )@.released(this.id()),
            },
    {
        let mut engine = TabsEngine::new(this);
        engine.local_id = local_id;
        match url_parse(tokenserver_url.as_str()) {
            Ok((_, text)) => {
                let persisted_state = match stores.get(&engine.store) {
                    Some(store) => store.storage.get_global_state(),
                    None => {
                        return Err(TabsError::StoreGone);
                    },
                };
                Ok(
                    TabsSyncRequest {
                        key_id,
                        access_token,
                        sync_key,
                        tokenserver_url: text,
                        engine,
                        persisted_state,
                    },
                )
            },
            Err(m) => {
                let _ = stores.release(engine.store);
                Err(TabsError::UrlParseError(m))
            },
        }
    }

    /// Ends a sync of the store of `this` alone: `result` is what the run
    /// handed back, with the state that it left for the next run.
    ///
    /// The state is kept in every case, whether the run succeeded or not.
    /// Then the application is told what the policy of escalation says, with
    /// the tabs engine as the one whose failure counts. Fails with
    /// `StoreGone`, keeping nothing, where no store lives at `this`.
    pub fn sync_finished(stores: &mut TabsStores, this: &StrongRef, result: SyncResult) -> (r:
        Result<SyncTelemetryPing, TabsError>)
        requires
            old(stores).wf(),
        ensures
            final(stores).wf(),
            match store_of(old(stores)@, this.id()) {
                Some(_) => state_kept(
                    old(stores)@,
                    this.id(),
                    opt_view(result.persisted_state),
                    final(stores)@,
                ) && sync_outcome(result, r),
                None => r matches Err(e) && e == TabsError::StoreGone && final(stores)@ == old(
                    stores,
                )@,
            },
    {
        match stores.get_mut(this) {
            Some(store) => {
                store.storage.set_global_state(&result.persisted_state);
            },
            None => {
                return Err(TabsError::StoreGone);
            },
        }
        match escalate(result, COLLECTION_NAME) {
            Ok(telemetry) => Ok(telemetry),
            Err(e) => Err(TabsError::Sync(e)),
        }
    }
}

/// What is kept for the next run of syncing is what the last run left,
/// character for character, whether that run succeeded or not, and the next
/// run begins with it.
pub proof fn lemma_state_is_read_back(
    before: SyncManagerView<TabsStore>,
    i: int,
    state: Option<Seq<char>>,
    after: SyncManagerView<TabsStore>,
)
    requires
        state_kept(before, i, state, after),
    ensures
        store_of(after, i) matches Some(store) && opt_view(store.storage.global_state) == state,
{
}

} // verus!
