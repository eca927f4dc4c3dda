//! The logins store: a table of login records and the facade around it.
//!
//! [`LoginDb`] is the table as the process sees it: the records by id, the
//! key they are kept under, and the state that syncing leaves behind between
//! runs. [`LoginStoreImpl`] bundles the table for the sync engine, and
//! [`LoginStore`] is the handle that an application holds on a shared
//! `LoginStoreImpl`. What the clock says, and what a fresh id is, comes from
//! the caller.

use crate::arena::StrongRef;
use crate::hosts::{host_in, host_of, is_host_in, parse_host, url_host, url_host_of};
use crate::interrupt::{interrupted_between, SqlInterruptHandle, SqlInterruptScope};
use crate::orchestrator::{
    escalate, escalation_of, results_view, AssociationView, EngineSyncAssociation, Escalation,
    SyncFailure, SyncResult, SyncTelemetryPing,
};
use crate::sync_manager::{SyncManagerRegistry, SyncManagerView};
use std::sync::atomic::AtomicUsize;
use std::sync::Arc;
use vstd::prelude::*;

verus! {

/// The name of the collection that the logins engine syncs.
pub const COLLECTION_NAME: &'static str = "passwords";

/// Why an operation on the logins store failed.
#[derive(Debug, Clone, PartialEq, Eq)]
pub enum LoginsError {
    /// A record with this id exists already.
    DuplicateGuid(String),
    /// No record has this id.
    NoSuchRecord(String),
    /// The operation was cancelled through an interrupt handle.
    Interrupted,
    /// The handle refers to no store that lives.
    StoreGone,
    /// The record cannot be stored as it is.
    InvalidLogin(InvalidLogin),
    /// Records can be imported into an empty table only.
    NonEmptyTable,
    /// Syncing failed.
    Sync(SyncFailure),
}

/// Why a record cannot be stored as it is.
#[derive(Debug, Clone, Copy, PartialEq, Eq, Structural)]
pub enum InvalidLogin {
    /// It names no origin.
    EmptyOrigin,
    /// It has no password.
    EmptyPassword,
    /// It names both a form to submit to and a realm.
    BothTargets,
    /// It names neither a form to submit to nor a realm.
    NoTarget,
    /// Another record is for the same origin, target and user.
    DuplicateLogin,
}

/// A [`LoginsError`] as a mathematical value.
pub enum LoginsErrorView {
    DuplicateGuid(Seq<char>),
    NoSuchRecord(Seq<char>),
    Interrupted,
    StoreGone,
    InvalidLogin(InvalidLogin),
    NonEmptyTable,
    Sync(SyncFailure),
}

impl View for LoginsError {
    type V = LoginsErrorView;

    open spec fn view(&self) -> LoginsErrorView {
        match self {
            LoginsError::DuplicateGuid(g) => LoginsErrorView::DuplicateGuid(g@),
            LoginsError::NoSuchRecord(g) => LoginsErrorView::NoSuchRecord(g@),
            LoginsError::Interrupted => LoginsErrorView::Interrupted,
            LoginsError::StoreGone => LoginsErrorView::StoreGone,
            LoginsError::InvalidLogin(d) => LoginsErrorView::InvalidLogin(*d),
            LoginsError::NonEmptyTable => LoginsErrorView::NonEmptyTable,
            LoginsError::Sync(f) => LoginsErrorView::Sync(*f),
        }
    }
}

/// One login record.
#[derive(Debug, Clone, PartialEq, Eq, Default)]
pub struct Login {
    pub id: String,
    pub hostname: String,
    pub form_submit_url: Option<String>,
    pub http_realm: Option<String>,
    pub username: String,
    pub password: String,
    pub username_field: String,
    pub password_field: String,
    pub time_created: i64,
    pub time_password_changed: i64,
    pub time_last_used: i64,
    pub times_used: i64,
}

/// A [`Login`] as a mathematical value.
pub struct LoginView {
    pub id: Seq<char>,
    pub hostname: Seq<char>,
    pub form_submit_url: Option<Seq<char>>,
    pub http_realm: Option<Seq<char>>,
    pub username: Seq<char>,
    pub password: Seq<char>,
    pub username_field: Seq<char>,
    pub password_field: Seq<char>,
    pub time_created: i64,
    pub time_password_changed: i64,
    pub time_last_used: i64,
    pub times_used: i64,
}

/// The view of a text that may be absent.
pub open spec fn opt_view(s: Option<String>) -> Option<Seq<char>> {
    match s {
        Some(t) => Some(t@),
        None => None,
    }
}

impl View for Login {
    type V = LoginView;

    open spec fn view(&self) -> LoginView {
        LoginView {
            id: self.id@,
            hostname: self.hostname@,
            form_submit_url: opt_view(self.form_submit_url),
            http_realm: opt_view(self.http_realm),
            username: self.username@,
            password: self.password@,
            username_field: self.username_field@,
            password_field: self.password_field@,
            time_created: self.time_created,
            time_password_changed: self.time_password_changed,
            time_last_used: self.time_last_used,
            times_used: self.times_used,
        }
    }
}

fn same_opt(a: &Option<String>, b: &Option<String>) -> (r: bool)
    ensures
        r == (opt_view(*a) == opt_view(*b)),
{
    match (a, b) {
        (Some(x), Some(y)) => *x == *y,
        (None, None) => true,
        _ => false,
    }
}

fn is_potential_dupe(row: &Login, login: &Login) -> (r: bool)
    ensures
        r == potential_dupe(row@, login@),
{
    let same_form = row.form_submit_url.is_some() && same_opt(
        &row.form_submit_url,
        &login.form_submit_url,
    );
    let same_realm = row.http_realm.is_some() && same_opt(&row.http_realm, &login.http_realm);
    row.id != login.id && row.hostname == login.hostname && (same_form || same_realm)
}

fn find_defect(login: &Login) -> (r: Option<InvalidLogin>)
    ensures
        r == defect_of(login@),
{
    if login.hostname.as_str().unicode_len() == 0 {
        Some(InvalidLogin::EmptyOrigin)
    } else if login.password.as_str().unicode_len() == 0 {
        Some(InvalidLogin::EmptyPassword)
    } else if login.form_submit_url.is_some() && login.http_realm.is_some() {
        Some(InvalidLogin::BothTargets)
    } else if login.form_submit_url.is_none() && login.http_realm.is_none() {
        Some(InvalidLogin::NoTarget)
    } else {
        None
    }
}

/// A copy of `s`.
pub(crate) fn copy_opt(s: &Option<String>) -> (r: Option<String>)
    ensures
        opt_view(r) == opt_view(*s),
{
    match s {
        Some(t) => Some(t.clone()),
        None => None,
    }
}

impl Login {
    /// The id of this record.
    pub fn guid(&self) -> (r: &String)
        ensures
            r@ == self@.id,
    {
        &self.id
    }

    /// A second record with the same content.
    pub fn copy(&self) -> (r: Login)
        ensures
            r@ == self@,
    {
        Login {
            id: self.id.clone(),
            hostname: self.hostname.clone(),
            form_submit_url: copy_opt(&self.form_submit_url),
            http_realm: copy_opt(&self.http_realm),
            username: self.username.clone(),
            password: self.password.clone(),
            username_field: self.username_field.clone(),
            password_field: self.password_field.clone(),
            time_created: self.time_created,
            time_password_changed: self.time_password_changed,
            time_last_used: self.time_last_used,
            times_used: self.times_used,
        }
    }
}

/// The records in `rows`, each taken by its view.
pub open spec fn rows_view(rows: Seq<Login>) -> Seq<LoginView> {
    rows.map_values(|l: Login| l@)
}

/// No two records share an id.
pub open spec fn ids_distinct(rows: Seq<LoginView>) -> bool {
    forall|j: int, k: int|
        0 <= j < rows.len() && 0 <= k < rows.len() && j != k ==> (#[trigger] rows[j]).id != (
        #[trigger] rows[k]).id
}

/// Whether `rows` holds a record with the id `id`.
pub open spec fn has_id(rows: Seq<LoginView>, id: Seq<char>) -> bool {
    exists|k: int| 0 <= k < rows.len() && (#[trigger] rows[k]).id == id
}

/// Whether `k` is the first place in `rows` of a record with the id `id`.
pub open spec fn is_place_of(rows: Seq<LoginView>, id: Seq<char>, k: int) -> bool {
    &&& 0 <= k < rows.len()
    &&& rows[k].id == id
    &&& forall|j: int| 0 <= j < k ==> (#[trigger] rows[j]).id != id
}

/// The place of the record with the id `id`, where there is one: the first,
/// should there be several.
pub open spec fn place_of(rows: Seq<LoginView>, id: Seq<char>) -> int {
    choose|k: int| is_place_of(rows, id, k)
}

/// The record with the id `id`, if there is one.
pub open spec fn record_of(rows: Seq<LoginView>, id: Seq<char>) -> Option<LoginView> {
    if has_id(rows, id) {
        Some(rows[place_of(rows, id)])
    } else {
        None
    }
}

/// Whether a login for the origin `hostname` belongs to the base domain
/// `base_domain`: the host of the origin is the base domain or lies below
/// it. What names no host has no logins.
pub open spec fn in_base_domain(hostname: Seq<char>, base_domain: Seq<char>) -> bool {
    match host_of(base_domain) {
        Some(base) => host_in(url_host_of(hostname), base),
        None => false,
    }
}

/// The records of `rows` that belong to the base domain `base_domain`, in
/// their order.
pub open spec fn rows_in_base_domain(rows: Seq<LoginView>, base_domain: Seq<char>) -> Seq<
    LoginView,
>
    decreases rows.len(),
{
    if rows.len() == 0 {
        rows
    } else {
        let before = rows_in_base_domain(rows.drop_last(), base_domain);
        if in_base_domain(rows.last().hostname, base_domain) {
            before.push(rows.last())
        } else {
            before
        }
    }
}

/// Whether `a` and `b` are for the same place: the same origin, and the
/// same form to submit to or the same realm.
pub open spec fn same_target(a: LoginView, b: LoginView) -> bool {
    &&& a.hostname == b.hostname
    &&& (a.form_submit_url is Some && a.form_submit_url == b.form_submit_url) || (a.http_realm
        is Some && a.http_realm == b.http_realm)
}

/// Whether `row` may stand for the same login as `login`, whoever the user
/// is: another record for the same place.
pub open spec fn potential_dupe(row: LoginView, login: LoginView) -> bool {
    row.id != login.id && same_target(row, login)
}

/// The records of `rows` that may stand for the same login as `login`,
/// whoever the user is, in their order.
pub open spec fn dupes_of(rows: Seq<LoginView>, login: LoginView) -> Seq<LoginView>
    decreases rows.len(),
{
    if rows.len() == 0 {
        rows
    } else {
        let before = dupes_of(rows.drop_last(), login);
        if potential_dupe(rows.last(), login) {
            before.push(rows.last())
        } else {
            before
        }
    }
}

/// Whether `rows` holds another record for the place and the user of
/// `login`.
pub open spec fn has_duplicate(rows: Seq<LoginView>, login: LoginView) -> bool {
    exists|k: int|
        0 <= k < rows.len() && potential_dupe(#[trigger] rows[k], login) && rows[k].username
            == login.username
}

/// What is wrong with `login` taken by itself, if anything: the first of
/// no origin, no password, two targets, no target.
pub open spec fn defect_of(login: LoginView) -> Option<InvalidLogin> {
    if login.hostname.len() == 0 {
        Some(InvalidLogin::EmptyOrigin)
    } else if login.password.len() == 0 {
        Some(InvalidLogin::EmptyPassword)
    } else if login.form_submit_url is Some && login.http_realm is Some {
        Some(InvalidLogin::BothTargets)
    } else if login.form_submit_url is None && login.http_realm is None {
        Some(InvalidLogin::NoTarget)
    } else {
        None
    }
}

/// Whether `login` can be stored beside `rows`: it must have no defect of
/// its own, and no other record may be for the same place and user.
pub open spec fn check_of(rows: Seq<LoginView>, login: LoginView) -> Result<(), LoginsErrorView> {
    match defect_of(login) {
        Some(d) => Err(LoginsErrorView::InvalidLogin(d)),
        None => if has_duplicate(rows, login) {
            Err(LoginsErrorView::InvalidLogin(InvalidLogin::DuplicateLogin))
        } else {
            Ok(())
        },
    }
}

/// What an import counted: the records that it went through, those that
/// it stored, and those that it left out.
#[derive(Debug, Clone, Copy, PartialEq, Eq, Structural)]
pub struct ImportMetrics {
    pub num_processed: usize,
    pub num_succeeded: usize,
    pub num_failed: usize,
}

/// The ids of `guids` as mathematical values.
pub open spec fn guids_view(guids: Seq<String>) -> Seq<Seq<char>> {
    guids.map_values(|g: String| g@)
}

/// The id at hand for the record at place `k` of an import, should it come
/// without one: that at place `k` of `guids`, or none.
pub open spec fn guid_at(guids: Seq<Seq<char>>, k: int) -> Seq<char> {
    if 0 <= k < guids.len() {
        guids[k]
    } else {
        Seq::empty()
    }
}

/// A use count after one more use: it stops at the top of its range.
pub open spec fn used_once_more(times_used: i64) -> i64 {
    if times_used == i64::MAX {
        times_used
    } else {
        (times_used + 1) as i64
    }
}

/// The record that is stored when `login` is added at the time `now` under
/// the id `id`: it is new, and has been used once.
pub open spec fn stored_on_add(login: LoginView, id: Seq<char>, now: i64) -> LoginView {
    LoginView {
        id,
        time_created: now,
        time_password_changed: now,
        time_last_used: now,
        times_used: 1,
        ..login
    }
}

/// The id under which `login` is added: its own, or `fresh_guid` where it
/// has none.
pub open spec fn id_for_add(login: LoginView, fresh_guid: Seq<char>) -> Seq<char> {
    if login.id.len() == 0 {
        fresh_guid
    } else {
        login.id
    }
}

/// The record that is stored when `former` is updated to `login` at the time
/// `now`: the time of creation stays, the password counts as changed where it
/// differs, and the update counts as a use.
pub open spec fn stored_on_update(former: LoginView, login: LoginView, now: i64) -> LoginView {
    LoginView {
        time_created: former.time_created,
        time_password_changed: if login.password == former.password {
            former.time_password_changed
        } else {
            now
        },
        time_last_used: now,
        times_used: used_once_more(former.times_used),
        ..login
    }
}

/// The record `former` after it was used at the time `now`.
pub open spec fn stored_on_touch(former: LoginView, now: i64) -> LoginView {
    LoginView { time_last_used: now, times_used: used_once_more(former.times_used), ..former }
}

/// The table of logins of one store.
pub struct LoginDb {
    path: Option<String>,
    rows: Vec<Login>,
    encryption_key: Option<String>,
    salt: Option<String>,
    mem_security: bool,
    global_state: Option<String>,
    association: EngineSyncAssociation,
    interrupt_counter: Arc<AtomicUsize>,
}

/// A [`LoginDb`] as a mathematical value.
pub struct LoginDbView {
    /// Where the database is; nowhere for one in memory.
    pub path: Option<Seq<char>>,
    /// The records, in the order in which they were added.
    pub rows: Seq<LoginView>,
    /// The key that the records are kept under, if any.
    pub encryption_key: Option<Seq<char>>,
    /// The salt that goes with the key, if one was given.
    pub salt: Option<Seq<char>>,
    /// Whether memory that held secrets is locked and wiped.
    pub mem_security: bool,
    /// What syncing left behind for its next run.
    pub global_state: Option<Seq<char>>,
    /// The collection of the remote service that the table is tied to.
    pub association: AssociationView,
}

/// The view of a borrowed text that may be absent.
pub open spec fn opt_str_view(s: Option<&str>) -> Option<Seq<char>> {
    match s {
        Some(t) => Some(t@),
        None => None,
    }
}

impl LoginDbView {
    /// The table of a database that was just opened: without records,
    /// with memory guarded, tied to no collection, and with nothing left by
    /// a sync.
    pub open spec fn empty(
        path: Option<Seq<char>>,
        encryption_key: Option<Seq<char>>,
        salt: Option<Seq<char>>,
    ) -> Self {
        LoginDbView {
            path,
            rows: Seq::empty(),
            encryption_key,
            salt,
            mem_security: true,
            global_state: None,
            association: AssociationView::Disconnected,
        }
    }

    /// The table with other records.
    pub open spec fn with_rows(self, rows: Seq<LoginView>) -> Self {
        LoginDbView { rows, ..self }
    }

    /// The record with the id `id`, if there is one.
    pub open spec fn get(self, id: Seq<char>) -> Option<LoginView> {
        record_of(self.rows, id)
    }

    /// What adding `login` at the time `now` gives, with `fresh_guid` at
    /// hand for a login without id: the record as stored, or `DuplicateGuid`
    /// where the id is taken.
    pub open spec fn add_result(self, login: LoginView, fresh_guid: Seq<char>, now: i64) -> Result<
        LoginView,
        LoginsErrorView,
    > {
        let id = id_for_add(login, fresh_guid);
        if has_id(self.rows, id) {
            Err(LoginsErrorView::DuplicateGuid(id))
        } else {
            Ok(stored_on_add(login, id, now))
        }
    }

    /// The table after `login` was added: it has one more record at its end,
    /// unless the id is taken.
    pub open spec fn added(self, login: LoginView, fresh_guid: Seq<char>, now: i64) -> Self {
        match self.add_result(login, fresh_guid, now) {
            Ok(stored) => self.with_rows(self.rows.push(stored)),
            Err(_) => self,
        }
    }

    /// Whether an import stores `login`: the record can be stored beside
    /// those that are there, it has an id or one is at hand, and that id is
    /// free.
    pub open spec fn takes(self, login: LoginView, fresh_guid: Seq<char>, now: i64) -> bool {
        &&& check_of(self.rows, login) is Ok
        &&& login.id.len() > 0 || fresh_guid.len() > 0
        &&& self.add_result(login, fresh_guid, now) is Ok
    }

    /// The table after `logins` were imported at the time `now`, one after
    /// the other: each that can be stored beside what is there by then is
    /// added, and the others are left out.
    pub open spec fn imported(self, logins: Seq<LoginView>, guids: Seq<Seq<char>>, now: i64) -> Self
        decreases logins.len(),
    {
        if logins.len() == 0 {
            self
        } else {
            let before = self.imported(logins.drop_last(), guids, now);
            let guid = guid_at(guids, logins.len() - 1);
            if before.takes(logins.last(), guid, now) {
                before.added(logins.last(), guid, now)
            } else {
                before
            }
        }
    }

    /// How many of `logins` an import stores.
    pub open spec fn import_count(self, logins: Seq<LoginView>, guids: Seq<Seq<char>>, now: i64)
        -> nat
        decreases logins.len(),
    {
        if logins.len() == 0 {
            0
        } else {
            let before = self.imported(logins.drop_last(), guids, now);
            let count = self.import_count(logins.drop_last(), guids, now);
            if before.takes(logins.last(), guid_at(guids, logins.len() - 1), now) {
                count + 1
            } else {
                count
            }
        }
    }

    /// What an operation on the record with the id `id` gives: nothing, or
    /// `NoSuchRecord` where there is none.
    pub open spec fn found(self, id: Seq<char>) -> Result<(), LoginsErrorView> {
        if has_id(self.rows, id) {
            Ok(())
        } else {
            Err(LoginsErrorView::NoSuchRecord(id))
        }
    }

    /// The table after the record with the id of `login` was updated to
    /// `login` at the time `now`; the same table where there is none.
    pub open spec fn updated(self, login: LoginView, now: i64) -> Self {
        if has_id(self.rows, login.id) {
            let k = place_of(self.rows, login.id);
            self.with_rows(self.rows.update(k, stored_on_update(self.rows[k], login, now)))
        } else {
            self
        }
    }

    /// The table after the record with the id `id` was used at the time
    /// `now`; the same table where there is none.
    pub open spec fn touched(self, id: Seq<char>, now: i64) -> Self {
        if has_id(self.rows, id) {
            let k = place_of(self.rows, id);
            self.with_rows(self.rows.update(k, stored_on_touch(self.rows[k], now)))
        } else {
            self
        }
    }

    /// The table after the record with the id `id` was removed; the same
    /// table where there is none.
    pub open spec fn deleted(self, id: Seq<char>) -> Self {
        if has_id(self.rows, id) {
            self.with_rows(self.rows.remove(place_of(self.rows, id)))
        } else {
            self
        }
    }

    /// What bringing in the stored record `login` gives: nothing, or
    /// `DuplicateGuid` where its id is taken.
    pub open spec fn restore_result(self, login: LoginView) -> Result<(), LoginsErrorView> {
        if has_id(self.rows, login.id) {
            Err(LoginsErrorView::DuplicateGuid(login.id))
        } else {
            Ok(())
        }
    }

    /// The table after the stored record `login` was brought in: it has the
    /// record at its end, as it is, unless the id is taken.
    pub open spec fn restored(self, login: LoginView) -> Self {
        if has_id(self.rows, login.id) {
            self
        } else {
            self.with_rows(self.rows.push(login))
        }
    }

    /// The table after all records were removed.
    pub open spec fn wiped(self) -> Self {
        self.with_rows(Seq::empty())
    }

    /// The table after the wiping of memory was switched off.
    pub open spec fn without_mem_security(self) -> Self {
        LoginDbView { mem_security: false, ..self }
    }

    /// The table kept under another key.
    pub open spec fn rekeyed(self, key: Seq<char>) -> Self {
        LoginDbView { encryption_key: Some(key), ..self }
    }

    /// The table with `state` kept for the next run of syncing.
    pub open spec fn with_global_state(self, state: Option<Seq<char>>) -> Self {
        LoginDbView { global_state: state, ..self }
    }

    /// The table tied to another collection, or to none.
    pub open spec fn reset_to(self, association: AssociationView) -> Self {
        LoginDbView { association, ..self }
    }
}

/// The view of the outcome of an operation that returns a record.
pub open spec fn login_result_view(r: Result<Login, LoginsError>) -> Result<
    LoginView,
    LoginsErrorView,
> {
    match r {
        Ok(l) => Ok(l@),
        Err(e) => Err(e@),
    }
}

/// The view of the outcome of an operation that returns nothing.
pub open spec fn unit_result_view(r: Result<(), LoginsError>) -> Result<(), LoginsErrorView> {
    match r {
        Ok(_) => Ok(()),
        Err(e) => Err(e@),
    }
}

/// The view of a record that may be absent.
pub open spec fn opt_login_view(l: Option<Login>) -> Option<LoginView> {
    match l {
        Some(x) => Some(x@),
        None => None,
    }
}

impl View for LoginDb {
    type V = LoginDbView;

    closed spec fn view(&self) -> LoginDbView {
        LoginDbView {
            path: opt_view(self.path),
            rows: rows_view(self.rows@),
            encryption_key: opt_view(self.encryption_key),
            salt: opt_view(self.salt),
            mem_security: self.mem_security,
            global_state: opt_view(self.global_state),
            association: self.association@,
        }
    }
}

proof fn lemma_place(rows: Seq<LoginView>, id: Seq<char>, k: int)
    requires
        is_place_of(rows, id, k),
    ensures
        has_id(rows, id),
        place_of(rows, id) == k,
        record_of(rows, id) == Some(rows[k]),
{
}

impl LoginDb {
    /// No two records share an id.
    pub closed spec fn wf(&self) -> bool {
        ids_distinct(rows_view(self.rows@))
    }

    /// What the invariant says of the view.
    pub proof fn lemma_wf(&self)
        requires
            self.wf(),
        ensures
            ids_distinct(self@.rows),
    {
    }

    fn empty(path: Option<String>, encryption_key: Option<String>, salt: Option<String>) -> (r: Self)
        ensures
            r.wf(),
            r@ == LoginDbView::empty(opt_view(path), opt_view(encryption_key), opt_view(salt)),
    {
        let r = LoginDb {
            path,
            rows: Vec::new(),
            encryption_key,
            salt,
            mem_security: true,
            global_state: None,
            association: EngineSyncAssociation::Disconnected,
            interrupt_counter: Arc::new(AtomicUsize::new(0)),
        };
        assert(r@.rows =~= Seq::<LoginView>::empty());
        r
    }

    /// The table of the database at `path`, kept under `encryption_key`. It
    /// begins without records: what the file holds is for the caller to
    /// bring in with [`LoginDb::restore`].
    pub fn open(path: &str, encryption_key: Option<&str>) -> (r: Self)
        ensures
            r.wf(),
            r@ == LoginDbView::empty(Some(path@), opt_str_view(encryption_key), None),
    {
        let key = match encryption_key {
            Some(k) => Some(k.to_owned()),
            None => None,
        };
        Self::empty(Some(path.to_owned()), key, None)
    }

    /// The table of the database at `path`, kept under `encryption_key`
    /// with the salt `salt`. It begins without records.
    pub fn open_with_salt(path: &str, encryption_key: &str, salt: &str) -> (r: Self)
        ensures
            r.wf(),
            r@ == LoginDbView::empty(Some(path@), Some(encryption_key@), Some(salt@)),
    {
        Self::empty(Some(path.to_owned()), Some(encryption_key.to_owned()), Some(salt.to_owned()))
    }

    /// An empty table in memory, kept under `encryption_key`.
    pub fn open_in_memory(encryption_key: Option<&str>) -> (r: Self)
        ensures
            r.wf(),
            r@ == LoginDbView::empty(None, opt_str_view(encryption_key), None),
    {
        let key = match encryption_key {
            Some(k) => Some(k.to_owned()),
            None => None,
        };
        Self::empty(None, key, None)
    }

    fn find(&self, id: &String) -> (r: Option<usize>)
        ensures
            r matches Some(k) ==> k < self@.rows.len() && self@.rows[k as int].id == id@
                && place_of(self@.rows, id@) == k,
            r.is_some() == has_id(self@.rows, id@),
    {
        let mut k: usize = 0;
        while k < self.rows.len()
            invariant
                k <= self.rows@.len(),
                forall|j: int| 0 <= j < k ==> (#[trigger] rows_view(self.rows@)[j]).id != id@,
            decreases self.rows@.len() - k,
        {
            if self.rows[k].id == *id {
                proof {
                    lemma_place(rows_view(self.rows@), id@, k as int);
                }
                return Some(k);
            }
            k = k + 1;
        }
        None
    }

    /// All records.
    pub fn get_all(&self) -> (r: Vec<Login>)
        ensures
            rows_view(r@) == self@.rows,
    {
        let mut r: Vec<Login> = Vec::new();
        let mut k: usize = 0;
        while k < self.rows.len()
            invariant
                k <= self.rows@.len(),
                r@.len() == k,
                forall|j: int| 0 <= j < k ==> (#[trigger] r@[j])@ == self.rows@[j]@,
            decreases self.rows@.len() - k,
        {
            r.push(self.rows[k].copy());
            k = k + 1;
        }
        r
    }

    /// The record with the id `id`, if there is one.
    pub fn get_by_id(&self, id: &str) -> (r: Option<Login>)
        ensures
            opt_login_view(r) == self@.get(id@),
    {
        let id = id.to_owned();
        match self.find(&id) {
            Some(k) => Some(self.rows[k].copy()),
            None => None,
        }
    }

    /// The records that belong to the base domain `base_domain`.
    pub fn get_by_base_domain(&self, base_domain: &str) -> (r: Vec<Login>)
        ensures
            rows_view(r@) == rows_in_base_domain(self@.rows, base_domain@),
    {
        let mut r: Vec<Login> = Vec::new();
        let base = parse_host(base_domain);
        let ghost rows = rows_view(self.rows@);
        let mut k: usize = 0;
        while k < self.rows.len()
            invariant
                k <= self.rows@.len(),
                rows == rows_view(self.rows@),
                base.is_some() == host_of(base_domain@).is_some(),
                base matches Some(h) ==> Some((h.0, h.1@)) == host_of(base_domain@),
                rows_view(r@) == rows_in_base_domain(rows.take(k as int), base_domain@),
            decreases self.rows@.len() - k,
        {
            let belongs = match &base {
                Some(b) => {
                    let look = url_host(self.rows[k].hostname.as_str());
                    is_host_in(&look, b)
                },
                None => false,
            };
            proof {
                assert(rows.take(k + 1).drop_last() =~= rows.take(k as int));
            }
            if belongs {
                r.push(self.rows[k].copy());
            }
            k = k + 1;
        }
        assert(rows.take(k as int) =~= rows);
        r
    }

    /// The other records for the place of `login`, whoever their user is.
    pub fn potential_dupes_ignoring_username(&self, login: &Login) -> (r: Vec<Login>)
        ensures
            rows_view(r@) == dupes_of(self@.rows, login@),
    {
        let mut r: Vec<Login> = Vec::new();
        let ghost rows = rows_view(self.rows@);
        let mut k: usize = 0;
        while k < self.rows.len()
            invariant
                k <= self.rows@.len(),
                rows == rows_view(self.rows@),
                rows_view(r@) == dupes_of(rows.take(k as int), login@),
            decreases self.rows@.len() - k,
        {
            proof {
                assert(rows.take(k + 1).drop_last() =~= rows.take(k as int));
            }
            if is_potential_dupe(&self.rows[k], login) {
                r.push(self.rows[k].copy());
            }
            k = k + 1;
        }
        assert(rows.take(k as int) =~= rows);
        r
    }

    /// Checks that `login` can be stored: fails with `InvalidLogin` and the
    /// first defect that the record has of its own, or with `DuplicateLogin`
    /// where another record is for the same place and user.
    pub fn check_valid_with_no_dupes(&self, login: &Login) -> (r: Result<(), LoginsError>)
        ensures
            unit_result_view(r) == check_of(self@.rows, login@),
    {
        match find_defect(login) {
            Some(d) => {
                return Err(LoginsError::InvalidLogin(d));
            },
            None => {},
        }
        let ghost rows = rows_view(self.rows@);
        let mut k: usize = 0;
        while k < self.rows.len()
            invariant
                k <= self.rows@.len(),
                rows == rows_view(self.rows@),
                rows == self@.rows,
                defect_of(login@) is None,
                forall|j: int|
                    0 <= j < k ==> !(potential_dupe(#[trigger] rows[j], login@) && rows[j].username
                        == login@.username),
            decreases self.rows@.len() - k,
        {
            if is_potential_dupe(&self.rows[k], login) && self.rows[k].username == login.username {
                assert(potential_dupe(rows[k as int], login@) && rows[k as int].username
                    == login@.username);
                return Err(LoginsError::InvalidLogin(InvalidLogin::DuplicateLogin));
            }
            k = k + 1;
        }
        Ok(())
    }

    /// Imports `logins` into an empty table at the time `now`, one after
    /// the other, and counts: a record that can be stored beside those that
    /// are there by then is added, with the id at its place in `fresh_guids`
    /// where it has none, and any other is left out, as is one for which
    /// there is no id at all. Fails with
    /// `NonEmptyTable`, changing nothing, where the table holds a record.
    pub fn import_multiple(&mut self, logins: &Vec<Login>, fresh_guids: &Vec<String>, now: i64) -> (r:
        Result<ImportMetrics, LoginsError>)
        ensures
            old(self).wf() ==> final(self).wf(),
            match r {
                Ok(m) => {
                    &&& old(self)@.rows.len() == 0
                    &&& final(self)@ == old(self)@.imported(
                        rows_view(logins@),
                        guids_view(fresh_guids@),
                        now,
                    )
                    &&& m.num_processed == logins@.len()
                    &&& m.num_succeeded == old(self)@.import_count(
                        rows_view(logins@),
                        guids_view(fresh_guids@),
                        now,
                    )
                    &&& m.num_failed == m.num_processed - m.num_succeeded
                },
                Err(e) => old(self)@.rows.len() > 0 && e@ == LoginsErrorView::NonEmptyTable
                    && final(self)@ == old(self)@,
            },
    {
        if self.rows.len() > 0 {
            return Err(LoginsError::NonEmptyTable);
        }
        let ghost all = rows_view(logins@);
        let ghost guids = guids_view(fresh_guids@);
        let mut num_succeeded: usize = 0;
        let mut k: usize = 0;
        assert(all.take(0) =~= Seq::<LoginView>::empty());
        while k < logins.len()
            invariant
                k <= logins@.len(),
                all == rows_view(logins@),
                guids == guids_view(fresh_guids@),
                old(self)@.rows.len() == 0,
                old(self).wf() ==> self.wf(),
                self@ == old(self)@.imported(all.take(k as int), guids, now),
                num_succeeded == old(self)@.import_count(all.take(k as int), guids, now),
                num_succeeded <= k,
            decreases logins@.len() - k,
        {
            proof {
                assert(all.take(k + 1).drop_last() =~= all.take(k as int));
                assert(all.take(k + 1).last() == logins@[k as int]@);
            }
            let login = logins[k].copy();
            let guid = if k < fresh_guids.len() {
                fresh_guids[k].clone()
            } else {
                String::new()
            };
            assert(guid@ == guid_at(guids, k as int));
            let named = login.id.as_str().unicode_len() > 0 || guid.as_str().unicode_len() > 0;
            if named && self.check_valid_with_no_dupes(&login).is_ok() {
                match self.add(login, guid, now) {
                    Ok(_) => {
                        num_succeeded = num_succeeded + 1;
                    },
                    Err(_) => {},
                }
            }
            k = k + 1;
        }
        assert(all.take(k as int) =~= all);
        Ok(
            ImportMetrics {
                num_processed: k,
                num_succeeded,
                num_failed: k - num_succeeded,
            },
        )
    }

    /// Adds `login` at the time `now`, under its own id or, where it has
    /// none, under `fresh_guid`. Fails with `DuplicateGuid`, changing nothing,
    /// if that id is taken. Returns the record as stored.
    pub fn add(&mut self, login: Login, fresh_guid: String, now: i64) -> (r: Result<
        Login,
        LoginsError,
    >)
        ensures
            old(self).wf() ==> final(self).wf(),
            login_result_view(r) == old(self)@.add_result(login@, fresh_guid@, now),
            final(self)@ == old(self)@.added(login@, fresh_guid@, now),
    {
        let mut login = login;
        let id = if login.id.as_str().unicode_len() == 0 {
            fresh_guid
        } else {
            login.id.clone()
        };
        if self.find(&id).is_some() {
            return Err(LoginsError::DuplicateGuid(id));
        }
        login.id = id;
        login.time_created = now;
        login.time_password_changed = now;
        login.time_last_used = now;
        login.times_used = 1;
        let stored = login.copy();
        self.rows.push(login);
        proof {
            let before = rows_view(old(self).rows@);
            let after = rows_view(self.rows@);
            assert(after =~= before.push(stored@));
            if old(self).wf() {
                assert forall|j: int, k: int|
                    0 <= j < after.len() && 0 <= k < after.len() && j != k implies (
                #[trigger] after[j]).id != (#[trigger] after[k]).id by {
                }
            }
        }
        Ok(stored)
    }

    /// Brings in `login` as a record that was stored before, with the times
    /// and the use count that it holds. Fails with `DuplicateGuid`, changing
    /// nothing, if its id is taken.
    pub fn restore(&mut self, login: Login) -> (r: Result<(), LoginsError>)
        ensures
            old(self).wf() ==> final(self).wf(),
            unit_result_view(r) == old(self)@.restore_result(login@),
            final(self)@ == old(self)@.restored(login@),
    {
        if self.find(&login.id).is_some() {
            return Err(LoginsError::DuplicateGuid(login.id));
        }
        self.rows.push(login);
        proof {
            let before = rows_view(old(self).rows@);
            let after = rows_view(self.rows@);
            assert(after =~= before.push(login@));
            if old(self).wf() {
                assert forall|j: int, k: int|
                    0 <= j < after.len() && 0 <= k < after.len() && j != k implies (
                #[trigger] after[j]).id != (#[trigger] after[k]).id by {
                }
            }
        }
        Ok(())
    }

    /// Replaces the record that has the id of `login` by `login`, at the time
    /// `now`. Fails with `NoSuchRecord`, changing nothing, if there is none.
    pub fn update(&mut self, login: Login, now: i64) -> (r: Result<(), LoginsError>)
        ensures
            old(self).wf() ==> final(self).wf(),
            unit_result_view(r) == old(self)@.found(login@.id),
            final(self)@ == old(self)@.updated(login@, now),
    {
        let mut login = login;
        match self.find(&login.id) {
            None => Err(LoginsError::NoSuchRecord(login.id)),
            Some(k) => {
                let former = &self.rows[k];
                login.time_created = former.time_created;
                login.time_password_changed = if login.password == former.password {
                    former.time_password_changed
                } else {
                    now
                };
                login.time_last_used = now;
                login.times_used = if former.times_used == i64::MAX {
                    former.times_used
                } else {
                    former.times_used + 1
                };
                let ghost stored = login@;
                self.rows[k] = login;
                proof {
                    let before = rows_view(old(self).rows@);
                    let after = rows_view(self.rows@);
                    assert(after =~= before.update(k as int, stored));
                    if old(self).wf() {
                        assert forall|i: int, j: int|
                            0 <= i < after.len() && 0 <= j < after.len() && i != j implies (
                        #[trigger] after[i]).id != (#[trigger] after[j]).id by {
                        }
                    }
                }
                Ok(())
            },
        }
    }

    /// Records a use of the record with the id `id` at the time `now`. Fails
    /// with `NoSuchRecord`, changing nothing, if there is none.
    pub fn touch(&mut self, id: &str, now: i64) -> (r: Result<(), LoginsError>)
        ensures
            old(self).wf() ==> final(self).wf(),
            unit_result_view(r) == old(self)@.found(id@),
            final(self)@ == old(self)@.touched(id@, now),
    {
        let id = id.to_owned();
        match self.find(&id) {
            None => Err(LoginsError::NoSuchRecord(id)),
            Some(k) => {
                let times_used = self.rows[k].times_used;
                self.rows[k].time_last_used = now;
                self.rows[k].times_used = if times_used == i64::MAX {
                    times_used
                } else {
                    times_used + 1
                };
                proof {
                    let before = rows_view(old(self).rows@);
                    let after = rows_view(self.rows@);
                    assert(after =~= before.update(k as int, stored_on_touch(before[k as int], now)));
                    if old(self).wf() {
                        assert forall|i: int, j: int|
                            0 <= i < after.len() && 0 <= j < after.len() && i != j implies (
                        #[trigger] after[i]).id != (#[trigger] after[j]).id by {
                        }
                    }
                }
                Ok(())
            },
        }
    }

    /// Removes the record with the id `id`, and says whether there was one.
    pub fn delete(&mut self, id: &str) -> (r: bool)
        ensures
            old(self).wf() ==> final(self).wf(),
            r == has_id(old(self)@.rows, id@),
            final(self)@ == old(self)@.deleted(id@),
            old(self).wf() ==> !has_id(final(self)@.rows, id@),
    {
        let id = id.to_owned();
        match self.find(&id) {
            None => false,
            Some(k) => {
                let _ = self.rows.remove(k);
                proof {
                    let before = rows_view(old(self).rows@);
                    let after = rows_view(self.rows@);
                    assert(after =~= before.remove(k as int));
                    if old(self).wf() {
                        assert forall|i: int| 0 <= i < after.len() implies (#[trigger] after[i]).id
                            != id@ by {
                        }
                        assert forall|i: int, j: int|
                            0 <= i < after.len() && 0 <= j < after.len() && i != j implies (
                        #[trigger] after[i]).id != (#[trigger] after[j]).id by {
                        }
                    }
                }
                true
            },
        }
    }

    /// Removes all records, unless the operation was interrupted since
    /// `scope` began: then it fails with `Interrupted` and changes nothing.
    /// The counter of the scope is read once.
    pub fn wipe(&mut self, scope: &SqlInterruptScope) -> (r: Result<(), LoginsError>)
        ensures
            old(self).wf() ==> final(self).wf(),
            r is Ok ==> final(self)@ == old(self)@.wiped(),
            r matches Err(e) ==> final(self)@ == old(self)@ && e@ == LoginsErrorView::Interrupted,
    {
        let current = scope.counter_value();
        self.wipe_at(scope, current)
    }

    /// Removes all records, unless the operation was interrupted between
    /// the beginning of `scope` and the moment at which its counter read
    /// `current`: then it fails with `Interrupted` and changes nothing.
    pub fn wipe_at(&mut self, scope: &SqlInterruptScope, current: usize) -> (r: Result<
        (),
        LoginsError,
    >)
        ensures
            old(self).wf() ==> final(self).wf(),
            r is Ok <==> !interrupted_between(scope.start_value(), current),
            r is Ok ==> final(self)@ == old(self)@.wiped(),
            r matches Err(e) ==> final(self)@ == old(self)@ && e@ == LoginsErrorView::Interrupted,
    {
        if scope.was_interrupted_at(current) {
            return Err(LoginsError::Interrupted);
        }
        self.wipe_local();
        Ok(())
    }

    /// Removes all records.
    pub fn wipe_local(&mut self)
        ensures
            old(self).wf() ==> final(self).wf(),
            final(self)@ == old(self)@.wiped(),
    {
        self.rows.clear();
        assert(rows_view(self.rows@) =~= Seq::<LoginView>::empty());
    }

    /// Stops the locking and wiping of memory that held secrets.
    pub fn disable_mem_security(&mut self)
        ensures
            final(self)@ == old(self)@.without_mem_security(),
            old(self).wf() ==> final(self).wf(),
    {
        self.mem_security = false;
    }

    /// Keeps the records under `new_encryption_key` from now on.
    pub fn rekey_database(&mut self, new_encryption_key: &str)
        ensures
            final(self)@ == old(self)@.rekeyed(new_encryption_key@),
            old(self).wf() ==> final(self).wf(),
    {
        self.encryption_key = Some(new_encryption_key.to_owned());
    }

    /// Ties the table to the collection that `association` names, or to
    /// none. The records and what syncing left behind stay.
    pub fn reset(&mut self, association: &EngineSyncAssociation)
        ensures
            final(self)@ == old(self)@.reset_to(association@),
            old(self).wf() ==> final(self).wf(),
    {
        self.association = association.copy();
    }

    /// The collection that the table is tied to.
    pub fn get_sync_assoc(&self) -> (r: EngineSyncAssociation)
        ensures
            r@ == self@.association,
    {
        self.association.copy()
    }

    /// What syncing left behind for its next run.
    pub fn get_global_state(&self) -> (r: Option<String>)
        ensures
            opt_view(r) == self@.global_state,
    {
        copy_opt(&self.global_state)
    }

    /// Keeps `state` for the next run of syncing, in place of what was kept.
    pub fn set_global_state(&mut self, state: &Option<String>)
        ensures
            final(self)@ == old(self)@.with_global_state(opt_view(*state)),
            old(self).wf() ==> final(self).wf(),
    {
        self.global_state = copy_opt(state);
    }

    /// The counter through which operations on this table are interrupted.
    pub closed spec fn counter(&self) -> Arc<AtomicUsize> {
        self.interrupt_counter
    }

    /// A handle through which another thread can interrupt the operation
    /// that runs on this table.
    pub fn new_interrupt_handle(&self) -> (r: SqlInterruptHandle)
        ensures
            r.counter() == self.counter(),
    {
        SqlInterruptHandle::new(self.interrupt_counter.clone())
    }

    /// Begins the scope of one logical operation on this table.
    pub fn begin_interrupt_scope(&self) -> (r: SqlInterruptScope)
        ensures
            r.counter() == self.counter(),
    {
        SqlInterruptScope::new(self.interrupt_counter.clone())
    }
}

/// The state that belongs to one logins store: the table, bundled for the
/// sync engine and the sync manager.
pub struct LoginStoreImpl {
    pub db: LoginDb,
}

impl View for LoginStoreImpl {
    type V = LoginDbView;

    open spec fn view(&self) -> LoginDbView {
        self.db@
    }
}

impl LoginStoreImpl {
    /// A store on the database at `path`, kept under `encryption_key`.
    pub fn new(path: &str, encryption_key: &str) -> (r: Result<Self, LoginsError>)
        ensures
            r matches Ok(store) && store.db.wf() && store@ == LoginDbView::empty(
                Some(path@),
                Some(encryption_key@),
                None,
            ),
    {
        let db = LoginDb::open(path, Some(encryption_key));
        Ok(LoginStoreImpl { db })
    }

    /// A store on the database at `path`, kept under `encryption_key` with
    /// the salt `salt`.
    pub fn new_with_salt(path: &str, encryption_key: &str, salt: &str) -> (r: Result<
        Self,
        LoginsError,
    >)
        ensures
            r matches Ok(store) && store.db.wf() && store@ == LoginDbView::empty(
                Some(path@),
                Some(encryption_key@),
                Some(salt@),
            ),
    {
        let db = LoginDb::open_with_salt(path, encryption_key, salt);
        Ok(LoginStoreImpl { db })
    }

    /// A store on an empty table in memory, kept under `encryption_key`.
    pub fn new_in_memory(encryption_key: Option<&str>) -> (r: Result<Self, LoginsError>)
        ensures
            r matches Ok(store) && store.db.wf() && store@ == LoginDbView::empty(
                None,
                opt_str_view(encryption_key),
                None,
            ),
    {
        let db = LoginDb::open_in_memory(encryption_key);
        Ok(LoginStoreImpl { db })
    }

    /// All records.
    pub fn list(&self) -> (r: Result<Vec<Login>, LoginsError>)
        ensures
            r matches Ok(v) && rows_view(v@) == self@.rows,
    {
        Ok(self.db.get_all())
    }

    /// The record with the id `id`, if there is one.
    pub fn get(&self, id: &str) -> (r: Result<Option<Login>, LoginsError>)
        ensures
            r matches Ok(l) && opt_login_view(l) == self@.get(id@),
    {
        Ok(self.db.get_by_id(id))
    }

    /// The records that belong to the base domain `base_domain`.
    pub fn get_by_base_domain(&self, base_domain: &str) -> (r: Result<Vec<Login>, LoginsError>)
        ensures
            r matches Ok(v) && rows_view(v@) == rows_in_base_domain(self@.rows, base_domain@),
    {
        Ok(self.db.get_by_base_domain(base_domain))
    }

    /// The other records for the place of `login`, whoever their user is.
    pub fn potential_dupes_ignoring_username(&self, login: Login) -> (r: Result<
        Vec<Login>,
        LoginsError,
    >)
        ensures
            r matches Ok(v) && rows_view(v@) == dupes_of(self@.rows, login@),
    {
        Ok(self.db.potential_dupes_ignoring_username(&login))
    }

    /// Checks that `login` can be stored: see
    /// [`LoginDb::check_valid_with_no_dupes`].
    pub fn check_valid_with_no_dupes(&self, login: &Login) -> (r: Result<(), LoginsError>)
        ensures
            unit_result_view(r) == check_of(self@.rows, login@),
    {
        self.db.check_valid_with_no_dupes(login)
    }

    /// Imports `logins` into an empty table: see
    /// [`LoginDb::import_multiple`].
    pub fn import_multiple(&mut self, logins: Vec<Login>, fresh_guids: Vec<String>, now: i64) -> (r:
        Result<ImportMetrics, LoginsError>)
        ensures
            old(self).db.wf() ==> final(self).db.wf(),
            import_outcome(old(self)@, rows_view(logins@), guids_view(fresh_guids@), now, r),
            final(self)@ == import_of(old(self)@, rows_view(logins@), guids_view(fresh_guids@), now),
    {
        self.db.import_multiple(&logins, &fresh_guids, now)
    }

    /// Records a use of the record with the id `id` at the time `now`.
    pub fn touch(&mut self, id: &str, now: i64) -> (r: Result<(), LoginsError>)
        ensures
            unit_result_view(r) == old(self)@.found(id@),
            final(self)@ == old(self)@.touched(id@, now),
            old(self).db.wf() ==> final(self).db.wf(),
    {
        self.db.touch(id, now)
    }

    /// Removes the record with the id `id`, and says whether there was one.
    pub fn delete(&mut self, id: &str) -> (r: Result<bool, LoginsError>)
        ensures
            r matches Ok(existed) && existed == has_id(old(self)@.rows, id@),
            final(self)@ == old(self)@.deleted(id@),
            old(self).db.wf() ==> final(self).db.wf(),
    {
        Ok(self.db.delete(id))
    }

    /// Removes all records, as one operation that can be interrupted: where
    /// it is, it fails with `Interrupted` and changes nothing.
    pub fn wipe(&mut self) -> (r: Result<(), LoginsError>)
        ensures
            r is Ok ==> final(self)@ == old(self)@.wiped(),
            r matches Err(e) ==> final(self)@ == old(self)@ && e@ == LoginsErrorView::Interrupted,
            old(self).db.wf() ==> final(self).db.wf(),
    {
        let scope = self.db.begin_interrupt_scope();
        self.db.wipe(&scope)
    }

    /// Removes all records.
    pub fn wipe_local(&mut self) -> (r: Result<(), LoginsError>)
        ensures
            r is Ok,
            final(self)@ == old(self)@.wiped(),
            old(self).db.wf() ==> final(self).db.wf(),
    {
        self.db.wipe_local();
        Ok(())
    }

    /// Cuts the tie of the store to its collection of the remote service.
    pub fn reset(&mut self) -> (r: Result<(), LoginsError>)
        ensures
            r is Ok,
            final(self)@ == old(self)@.reset_to(AssociationView::Disconnected),
            old(self).db.wf() ==> final(self).db.wf(),
    {
        self.db.reset(&EngineSyncAssociation::Disconnected);
        Ok(())
    }

    /// Replaces the record that has the id of `login` by `login`, at the time
    /// `now`.
    pub fn update(&mut self, login: Login, now: i64) -> (r: Result<(), LoginsError>)
        ensures
            unit_result_view(r) == old(self)@.found(login@.id),
            final(self)@ == old(self)@.updated(login@, now),
            old(self).db.wf() ==> final(self).db.wf(),
    {
        self.db.update(login, now)
    }

    /// Adds `login` at the time `now` and returns the id of the record,
    /// which is `fresh_guid` where the login came without one.
    pub fn add(&mut self, login: Login, fresh_guid: String, now: i64) -> (r: Result<
        String,
        LoginsError,
    >)
        ensures
            guid_result_view(r) == guid_of_added(old(self)@.add_result(login@, fresh_guid@, now)),
            final(self)@ == old(self)@.added(login@, fresh_guid@, now),
            old(self).db.wf() ==> final(self).db.wf(),
    {
        match self.db.add(login, fresh_guid, now) {
            Ok(record) => Ok(record.id),
            Err(e) => Err(e),
        }
    }

    /// Stops the locking and wiping of memory that held secrets.
    pub fn disable_mem_security(&mut self) -> (r: Result<(), LoginsError>)
        ensures
            r is Ok,
            final(self)@ == old(self)@.without_mem_security(),
            old(self).db.wf() ==> final(self).db.wf(),
    {
        self.db.disable_mem_security();
        Ok(())
    }

    /// A handle through which another thread can interrupt the operation
    /// that runs on this store.
    pub fn new_interrupt_handle(&self) -> (r: SqlInterruptHandle)
        ensures
            r.counter() == self.db.counter(),
    {
        self.db.new_interrupt_handle()
    }

    /// Keeps the records under `new_encryption_key` from now on.
    pub fn rekey_database(&mut self, new_encryption_key: &str) -> (r: Result<(), LoginsError>)
        ensures
            r is Ok,
            final(self)@ == old(self)@.rekeyed(new_encryption_key@),
            old(self).db.wf() ==> final(self).db.wf(),
    {
        self.db.rekey_database(new_encryption_key);
        Ok(())
    }
}

/// The view of the outcome of an operation that returns an id.
pub open spec fn guid_result_view(r: Result<String, LoginsError>) -> Result<
    Seq<char>,
    LoginsErrorView,
> {
    match r {
        Ok(g) => Ok(g@),
        Err(e) => Err(e@),
    }
}

/// The id of the record that an addition stored.
pub open spec fn guid_of_added(r: Result<LoginView, LoginsErrorView>) -> Result<
    Seq<char>,
    LoginsErrorView,
> {
    match r {
        Ok(l) => Ok(l.id),
        Err(e) => Err(e),
    }
}

/// The table after an import of `logins` at the time `now`: nothing changes
/// where the table holds a record.
pub open spec fn import_of(
    db: LoginDbView,
    logins: Seq<LoginView>,
    guids: Seq<Seq<char>>,
    now: i64,
) -> LoginDbView {
    if db.rows.len() == 0 {
        db.imported(logins, guids, now)
    } else {
        db
    }
}

/// Whether `r` is what an import of `logins` into `db` at the time `now`
/// gives: the counts, or `NonEmptyTable` where the table holds a record.
pub open spec fn import_outcome(
    db: LoginDbView,
    logins: Seq<LoginView>,
    guids: Seq<Seq<char>>,
    now: i64,
    r: Result<ImportMetrics, LoginsError>,
) -> bool {
    match r {
        Ok(m) => {
            &&& db.rows.len() == 0
            &&& m.num_processed == logins.len()
            &&& m.num_succeeded == db.import_count(logins, guids, now)
            &&& m.num_failed == m.num_processed - m.num_succeeded
        },
        Err(e) => db.rows.len() > 0 && e@ == LoginsErrorView::NonEmptyTable,
    }
}

/// The stores of a process, and the one that is offered to the sync manager.
pub type LoginStores = SyncManagerRegistry<LoginStoreImpl>;

/// The table of the store in slot `i`, while that store lives.
pub open spec fn table_of(stores: SyncManagerView<LoginStoreImpl>, i: int) -> Option<LoginDbView> {
    if 0 <= i < stores.stores.len() {
        match stores.stores[i].value {
            Some(s) => Some(s@),
            None => None,
        }
    } else {
        None
    }
}

/// Whether `after` is `before` with the table of the store in slot `i`
/// changed to `db`, and nothing else.
pub open spec fn table_became(
    before: SyncManagerView<LoginStoreImpl>,
    i: int,
    db: LoginDbView,
    after: SyncManagerView<LoginStoreImpl>,
) -> bool {
    &&& table_of(after, i) == Some(db)
    &&& after == before.with_store(i, after.stores[i].value.unwrap())
}

/// Whether `r` is the handle on a new store with the table `db`, which
/// `after` holds in a fresh slot beside all that `before` held.
pub open spec fn opened(
    before: SyncManagerView<LoginStoreImpl>,
    db: LoginDbView,
    after: SyncManagerView<LoginStoreImpl>,
    r: Result<LoginStore, LoginsError>,
) -> bool {
    &&& r matches Ok(handle) && handle.store_impl.id() == before.stores.len()
    &&& after.stores.len() == before.stores.len() + 1
    &&& after == before.inserted(after.stores.last().value.unwrap())
    &&& table_of(after, before.stores.len() as int) == Some(db)
}

/// What an operation on a store that is gone gives.
pub open spec fn gone<T>(r: Result<T, LoginsError>) -> bool {
    r matches Err(e) && e@ == LoginsErrorView::StoreGone
}

/// The handle that an application holds on a logins store. The store itself
/// is shared: the sync manager and the sync engine hold it too.
pub struct LoginStore {
    pub store_impl: StrongRef,
}

impl LoginStore {
    /// Makes the store available to the sync manager, in place of whatever
    /// was registered before.
    pub fn register_with_sync_manager(&self, stores: &mut LoginStores)
        requires
            old(stores).wf(),
        ensures
            final(stores).wf(),
            final(stores)@ == old(stores)@.registered(self.store_impl.id()),
    {
        stores.register(&self.store_impl);
    }

    fn share(stores: &mut LoginStores, made: Result<LoginStoreImpl, LoginsError>) -> (r: Result<
        Self,
        LoginsError,
    >)
        requires
            old(stores).wf(),
        ensures
            final(stores).wf(),
            match made {
                Ok(store) => r matches Ok(handle) && handle.store_impl.id() == old(
                    stores,
                )@.stores.len() && final(stores)@ == old(stores)@.inserted(store),
                Err(e) => r matches Err(f) && f == e && final(stores)@ == old(stores)@,
            },
    {
        match made {
            Ok(store) => Ok(LoginStore { store_impl: stores.insert(store) }),
            Err(e) => Err(e),
        }
    }

    /// A store on the database at `path`, kept under `encryption_key`.
    pub fn new(stores: &mut LoginStores, path: &str, encryption_key: &str) -> (r: Result<
        Self,
        LoginsError,
    >)
        requires
            old(stores).wf(),
        ensures
            final(stores).wf(),
            opened(
                old(stores)@,
                LoginDbView::empty(Some(path@), Some(encryption_key@), None),
                final(stores)@,
                r,
            ),
    {
        Self::share(stores, LoginStoreImpl::new(path, encryption_key))
    }

    /// A store on the database at `path`, kept under `encryption_key` with
    /// the salt `salt`.
    pub fn new_with_salt(stores: &mut LoginStores, path: &str, encryption_key: &str, salt: &str) -> (r:
        Result<Self, LoginsError>)
        requires
            old(stores).wf(),
        ensures
            final(stores).wf(),
            opened(
                old(stores)@,
                LoginDbView::empty(Some(path@), Some(encryption_key@), Some(salt@)),
                final(stores)@,
                r,
            ),
    {
        Self::share(stores, LoginStoreImpl::new_with_salt(path, encryption_key, salt))
    }

    /// A store on an empty table in memory, kept under `encryption_key`.
    pub fn new_in_memory(stores: &mut LoginStores, encryption_key: Option<&str>) -> (r: Result<
        Self,
        LoginsError,
    >)
        requires
            old(stores).wf(),
        ensures
            final(stores).wf(),
            opened(
                old(stores)@,
                LoginDbView::empty(None, opt_str_view(encryption_key), None),
                final(stores)@,
                r,
            ),
    {
        Self::share(stores, LoginStoreImpl::new_in_memory(encryption_key))
    }

    /// Gives the handle back. With the last handle on it the store ends, and
    /// with it any registration with the sync manager.
    pub fn close(self, stores: &mut LoginStores)
        requires
            old(stores).wf(),
        ensures
            final(stores).wf(),
            final(stores)@ == old(stores)@.released(self.store_impl.id()),
    {
        let _ = stores.release(self.store_impl);
    }

    /// All records.
    pub fn list(&self, stores: &LoginStores) -> (r: Result<Vec<Login>, LoginsError>)
        ensures
            match table_of(stores@, self.store_impl.id()) {
                Some(db) => r matches Ok(v) && rows_view(v@) == db.rows,
                None => gone(r),
            },
    {
        match stores.get(&self.store_impl) {
            Some(store) => store.list(),
            None => Err(LoginsError::StoreGone),
        }
    }

    /// The record with the id `id`, if there is one.
    pub fn get(&self, stores: &LoginStores, id: &str) -> (r: Result<Option<Login>, LoginsError>)
        ensures
            match table_of(stores@, self.store_impl.id()) {
                Some(db) => r matches Ok(l) && opt_login_view(l) == db.get(id@),
                None => gone(r),
            },
    {
        match stores.get(&self.store_impl) {
            Some(store) => store.get(id),
            None => Err(LoginsError::StoreGone),
        }
    }

    /// The records that belong to the base domain `base_domain`.
    pub fn get_by_base_domain(&self, stores: &LoginStores, base_domain: &str) -> (r: Result<
        Vec<Login>,
        LoginsError,
    >)
        ensures
            match table_of(stores@, self.store_impl.id()) {
                Some(db) => r matches Ok(v) && rows_view(v@) == rows_in_base_domain(
                    db.rows,
                    base_domain@,
                ),
                None => gone(r),
            },
    {
        match stores.get(&self.store_impl) {
            Some(store) => store.get_by_base_domain(base_domain),
            None => Err(LoginsError::StoreGone),
        }
    }

    /// The other records for the place of `login`, whoever their user is.
    pub fn potential_dupes_ignoring_username(&self, stores: &LoginStores, login: Login) -> (r:
        Result<Vec<Login>, LoginsError>)
        ensures
            match table_of(stores@, self.store_impl.id()) {
                Some(db) => r matches Ok(v) && rows_view(v@) == dupes_of(db.rows, login@),
                None => gone(r),
            },
    {
        match stores.get(&self.store_impl) {
            Some(store) => store.potential_dupes_ignoring_username(login),
            None => Err(LoginsError::StoreGone),
        }
    }

    /// Checks that `login` can be stored: see
    /// [`LoginDb::check_valid_with_no_dupes`].
    pub fn check_valid_with_no_dupes(&self, stores: &LoginStores, login: &Login) -> (r: Result<
        (),
        LoginsError,
    >)
        ensures
            match table_of(stores@, self.store_impl.id()) {
                Some(db) => unit_result_view(r) == check_of(db.rows, login@),
                None => gone(r),
            },
    {
        match stores.get(&self.store_impl) {
            Some(store) => store.check_valid_with_no_dupes(login),
            None => Err(LoginsError::StoreGone),
        }
    }

    /// Records a use of the record with the id `id` at the time `now`.
    pub fn touch(&self, stores: &mut LoginStores, id: &str, now: i64) -> (r: Result<
        (),
        LoginsError,
    >)
        requires
            old(stores).wf(),
        ensures
            final(stores).wf(),
            match table_of(old(stores)@, self.store_impl.id()) {
                Some(db) => unit_result_view(r) == db.found(id@) && table_became(
                    old(stores)@,
                    self.store_impl.id(),
                    db.touched(id@, now),
                    final(stores)@,
                ),
                None => gone(r) && final(stores)@ == old(stores)@,
            },
    {
        match stores.get_mut(&self.store_impl) {
            Some(store) => store.touch(id, now),
            None => Err(LoginsError::StoreGone),
        }
    }

    /// Removes the record with the id `id`, and says whether there was one.
    pub fn delete(&self, stores: &mut LoginStores, id: &str) -> (r: Result<bool, LoginsError>)
        requires
            old(stores).wf(),
        ensures
            final(stores).wf(),
            match table_of(old(stores)@, self.store_impl.id()) {
                Some(db) => r matches Ok(existed) && existed == has_id(db.rows, id@)
                    && table_became(
                    old(stores)@,
                    self.store_impl.id(),
                    db.deleted(id@),
                    final(stores)@,
                ),
                None => gone(r) && final(stores)@ == old(stores)@,
            },
    {
        match stores.get_mut(&self.store_impl) {
            Some(store) => store.delete(id),
            None => Err(LoginsError::StoreGone),
        }
    }

    /// Removes all records, as one operation that can be interrupted: where
    /// it is, it fails with `Interrupted` and the table stays as it is.
    pub fn wipe(&self, stores: &mut LoginStores) -> (r: Result<(), LoginsError>)
        requires
            old(stores).wf(),
        ensures
            final(stores).wf(),
            match table_of(old(stores)@, self.store_impl.id()) {
                Some(db) => table_became(
                    old(stores)@,
                    self.store_impl.id(),
                    if r is Ok {
                        db.wiped()
                    } else {
                        db
                    },
                    final(stores)@,
                ) && (r matches Err(e) ==> e@ == LoginsErrorView::Interrupted),
                None => gone(r) && final(stores)@ == old(stores)@,
            },
    {
        match stores.get_mut(&self.store_impl) {
            Some(store) => store.wipe(),
            None => Err(LoginsError::StoreGone),
        }
    }

    /// Removes all records.
    pub fn wipe_local(&self, stores: &mut LoginStores) -> (r: Result<(), LoginsError>)
        requires
            old(stores).wf(),
        ensures
            final(stores).wf(),
            match table_of(old(stores)@, self.store_impl.id()) {
                Some(db) => r is Ok && table_became(
                    old(stores)@,
                    self.store_impl.id(),
                    db.wiped(),
                    final(stores)@,
                ),
                None => gone(r) && final(stores)@ == old(stores)@,
            },
    {
        match stores.get_mut(&self.store_impl) {
            Some(store) => store.wipe_local(),
            None => Err(LoginsError::StoreGone),
        }
    }

    /// Cuts the tie of the store to its collection of the remote service.
    pub fn reset(&self, stores: &mut LoginStores) -> (r: Result<(), LoginsError>)
        requires
            old(stores).wf(),
        ensures
            final(stores).wf(),
            match table_of(old(stores)@, self.store_impl.id()) {
                Some(db) => r is Ok && table_became(
                    old(stores)@,
                    self.store_impl.id(),
                    db.reset_to(AssociationView::Disconnected),
                    final(stores)@,
                ),
                None => gone(r) && final(stores)@ == old(stores)@,
            },
    {
        match stores.get_mut(&self.store_impl) {
            Some(store) => store.reset(),
            None => Err(LoginsError::StoreGone),
        }
    }

    /// Replaces the record that has the id of `login` by `login`, at the time
    /// `now`.
    pub fn update(&self, stores: &mut LoginStores, login: Login, now: i64) -> (r: Result<
        (),
        LoginsError,
    >)
        requires
            old(stores).wf(),
        ensures
            final(stores).wf(),
            match table_of(old(stores)@, self.store_impl.id()) {
                Some(db) => unit_result_view(r) == db.found(login@.id) && table_became(
                    old(stores)@,
                    self.store_impl.id(),
                    db.updated(login@, now),
                    final(stores)@,
                ),
                None => gone(r) && final(stores)@ == old(stores)@,
            },
    {
        match stores.get_mut(&self.store_impl) {
            Some(store) => store.update(login, now),
            None => Err(LoginsError::StoreGone),
        }
    }

    /// Adds `login` at the time `now` and returns the id of the record,
    /// which is `fresh_guid` where the login came without one.
    pub fn add(
        &self,
        stores: &mut LoginStores,
        login: Login,
        fresh_guid: String,
        now: i64,
    ) -> (r: Result<String, LoginsError>)
        requires
            old(stores).wf(),
        ensures
            final(stores).wf(),
            match table_of(old(stores)@, self.store_impl.id()) {
                Some(db) => guid_result_view(r) == guid_of_added(
                    db.add_result(login@, fresh_guid@, now),
                ) && table_became(
                    old(stores)@,
                    self.store_impl.id(),
                    db.added(login@, fresh_guid@, now),
                    final(stores)@,
                ),
                None => gone(r) && final(stores)@ == old(stores)@,
            },
    {
        match stores.get_mut(&self.store_impl) {
            Some(store) => store.add(login, fresh_guid, now),
            None => Err(LoginsError::StoreGone),
        }
    }

    /// Imports `logins` into the empty table of this store: see
    /// [`LoginDb::import_multiple`].
    pub fn import_multiple(
        &self,
        stores: &mut LoginStores,
        logins: Vec<Login>,
        fresh_guids: Vec<String>,
        now: i64,
    ) -> (r: Result<ImportMetrics, LoginsError>)
        requires
            old(stores).wf(),
        ensures
            final(stores).wf(),
            match table_of(old(stores)@, self.store_impl.id()) {
                Some(db) => import_outcome(
                    db,
                    rows_view(logins@),
                    guids_view(fresh_guids@),
                    now,
                    r,
                ) && table_became(
                    old(stores)@,
                    self.store_impl.id(),
                    import_of(db, rows_view(logins@), guids_view(fresh_guids@), now),
                    final(stores)@,
                ),
                None => gone(r) && final(stores)@ == old(stores)@,
            },
    {
        match stores.get_mut(&self.store_impl) {
            Some(store) => store.import_multiple(logins, fresh_guids, now),
            None => Err(LoginsError::StoreGone),
        }
    }

    /// Stops the locking and wiping of memory that held secrets.
    pub fn disable_mem_security(&self, stores: &mut LoginStores) -> (r: Result<(), LoginsError>)
        requires
            old(stores).wf(),
        ensures
            final(stores).wf(),
            match table_of(old(stores)@, self.store_impl.id()) {
                Some(db) => r is Ok && table_became(
                    old(stores)@,
                    self.store_impl.id(),
                    db.without_mem_security(),
                    final(stores)@,
                ),
                None => gone(r) && final(stores)@ == old(stores)@,
            },
    {
        match stores.get_mut(&self.store_impl) {
            Some(store) => store.disable_mem_security(),
            None => Err(LoginsError::StoreGone),
        }
    }

    /// A handle through which another thread can interrupt the operation
    /// that runs on this store; `None` where the store is gone.
    pub fn new_interrupt_handle(&self, stores: &LoginStores) -> (r: Option<SqlInterruptHandle>)
        ensures
            r.is_some() == table_of(stores@, self.store_impl.id()).is_some(),
            r matches Some(handle) ==> handle.counter() == stores@.stores[self.store_impl.id()]
                .value.unwrap().db.counter(),
    {
        match stores.get(&self.store_impl) {
            Some(store) => Some(store.new_interrupt_handle()),
            None => None,
        }
    }

    /// Keeps the records under `new_encryption_key` from now on.
    pub fn rekey_database(&self, stores: &mut LoginStores, new_encryption_key: &str) -> (r: Result<
        (),
        LoginsError,
    >)
        requires
            old(stores).wf(),
        ensures
            final(stores).wf(),
            match table_of(old(stores)@, self.store_impl.id()) {
                Some(db) => r is Ok && table_became(
                    old(stores)@,
                    self.store_impl.id(),
                    db.rekeyed(new_encryption_key@),
                    final(stores)@,
                ),
                None => gone(r) && final(stores)@ == old(stores)@,
            },
    {
        match stores.get_mut(&self.store_impl) {
            Some(store) => store.rekey_database(new_encryption_key),
            None => Err(LoginsError::StoreGone),
        }
    }

    /// What the last run of syncing left for the next, to begin a run with.
    pub fn get_global_state(&self, stores: &LoginStores) -> (r: Result<Option<String>, LoginsError>)
        ensures
            match table_of(stores@, self.store_impl.id()) {
                Some(db) => r matches Ok(state) && opt_view(state) == db.global_state,
                None => gone(r),
            },
    {
        match stores.get(&self.store_impl) {
            Some(store) => Ok(store.db.get_global_state()),
            None => Err(LoginsError::StoreGone),
        }
    }

    /// Ends a sync of this store alone: `result` is what the run handed
    /// back, with the state that it left for the next run.
    ///
    /// The state is kept in every case, whether the run succeeded or not.
    /// Then the application is told what the policy of escalation says, with
    /// the logins engine as the one whose failure counts: see
    /// [`escalation_of`].
    pub fn sync(&self, stores: &mut LoginStores, result: SyncResult) -> (r: Result<
        SyncTelemetryPing,
        LoginsError,
    >)
        requires
            old(stores).wf(),
        ensures
            final(stores).wf(),
            match table_of(old(stores)@, self.store_impl.id()) {
                Some(db) => table_became(
                    old(stores)@,
                    self.store_impl.id(),
                    db.with_global_state(opt_view(result.persisted_state)),
                    final(stores)@,
                ) && sync_outcome(result, r),
                None => gone(r) && final(stores)@ == old(stores)@,
            },
    {
        match stores.get_mut(&self.store_impl) {
            Some(store) => {
                store.db.set_global_state(&result.persisted_state);
            },
            None => {
                return Err(LoginsError::StoreGone);
            },
        }
        match escalate(result, COLLECTION_NAME) {
            Ok(telemetry) => Ok(telemetry),
            Err(e) => Err(LoginsError::Sync(e)),
        }
    }
}

/// Whether `r` is what the application is told of a run that handed back
/// `result`: the report, unless the run was aborted or the logins engine
/// failed.
pub open spec fn sync_outcome(result: SyncResult, r: Result<SyncTelemetryPing, LoginsError>) -> bool {
    match escalation_of(result.result, results_view(result.engine_results@), COLLECTION_NAME@) {
        Escalation::Report => r matches Ok(t) && t == result.telemetry,
        Escalation::Run(f) => r matches Err(LoginsError::Sync(SyncFailure::Run(g))) && g == f,
        Escalation::Engine(reason) => r matches Err(LoginsError::Sync(SyncFailure::Engine(g)))
            && g@ == reason,
    }
}

/// What is kept for the next run of syncing is what the last run left,
/// character for character, whatever is done to the records in between.
pub proof fn lemma_global_state_round_trip(
    db: LoginDbView,
    state: Option<Seq<char>>,
    login: LoginView,
    fresh_guid: Seq<char>,
    id: Seq<char>,
    now: i64,
)
    ensures
        db.with_global_state(state).global_state == state,
        db.with_global_state(state).added(login, fresh_guid, now).global_state == state,
        db.with_global_state(state).updated(login, now).global_state == state,
        db.with_global_state(state).touched(id, now).global_state == state,
        db.with_global_state(state).deleted(id).global_state == state,
        db.with_global_state(state).wiped().global_state == state,
        db.with_global_state(state).rekeyed(id).global_state == state,
        db.with_global_state(state).without_mem_security().global_state == state,
{
}

/// A record that was added is found under its id, as it was stored, and a
/// record that was deleted is found no more.
pub proof fn lemma_add_get_delete(db: LoginDbView, login: LoginView, fresh_guid: Seq<char>, now: i64)
    requires
        ids_distinct(db.rows),
    ensures
        db.add_result(login, fresh_guid, now) matches Ok(stored) ==> {
            &&& stored.id == id_for_add(login, fresh_guid)
            &&& db.added(login, fresh_guid, now).get(stored.id) == Some(stored)
            &&& db.added(login, fresh_guid, now).deleted(stored.id) == db
            &&& ids_distinct(db.added(login, fresh_guid, now).rows)
        },
{
    if db.add_result(login, fresh_guid, now) is Ok {
        let stored = stored_on_add(login, id_for_add(login, fresh_guid), now);
        let after = db.added(login, fresh_guid, now);
        let k = db.rows.len() as int;
        assert forall|j: int| 0 <= j < k implies (#[trigger] after.rows[j]).id != stored.id by {
        }
        lemma_place(after.rows, stored.id, k);
        assert(after.rows.remove(k) =~= db.rows);
        assert forall|i: int, j: int|
            0 <= i < after.rows.len() && 0 <= j < after.rows.len() && i != j implies (
        #[trigger] after.rows[i]).id != (#[trigger] after.rows[j]).id by {
        }
    }
}

} // verus!
