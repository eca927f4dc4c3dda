//! The suggestions store: what was ingested from remote records, looked up
//! by keyword.
//!
//! Each suggestion comes with the keywords that lead to it, in the order of
//! their rank. A lookup by keyword yields at most one suggestion: the one
//! ingested first among those that have the keyword.

use crate::interrupt::{interrupted_between, SqlInterruptHandle, SqlInterruptScope};
use std::sync::atomic::AtomicUsize;
use std::sync::Arc;
use vstd::prelude::*;

verus! {

/// The key under which the time of the last fetch is kept.
pub const LAST_FETCH_META_KEY: &'static str = "last_fetch";

/// The kind of a connection to a suggestions database.
#[derive(Debug, Clone, Copy, PartialEq, Eq, Structural)]
pub enum ConnectionType {
    ReadOnly,
    ReadWrite,
}

/// Why an operation on the suggestions store failed.
#[derive(Debug, Clone, Copy, PartialEq, Eq, Structural)]
pub enum SuggestError {
    /// The operation was cancelled through an interrupt handle.
    Interrupted,
}

/// The id of the remote record that a suggestion came with.
#[derive(Debug, Clone, PartialEq, Eq)]
pub struct RemoteRecordId(pub String);

impl RemoteRecordId {
    /// The id as text.
    pub fn as_str(&self) -> (r: &str)
        ensures
            r@ == self.0@,
    {
        self.0.as_str()
    }
}

/// A suggestion as a remote record holds it.
#[derive(Debug, Clone, PartialEq, Eq)]
pub struct RemoteSuggestion {
    pub block_id: i64,
    pub advertiser: String,
    pub iab_category: String,
    pub keywords: Vec<String>,
    pub title: String,
    pub url: String,
    pub impression_url: String,
    pub click_url: String,
}

/// A suggestion as a lookup returns it.
#[derive(Debug, Clone, PartialEq, Eq)]
pub struct Suggestion {
    pub block_id: i64,
    pub advertiser: String,
    pub iab_category: String,
    pub title: String,
    pub url: String,
    pub full_keyword: String,
    pub impression_url: String,
    pub click_url: String,
}

/// A suggestion in the store, as a mathematical value.
pub struct StoredView {
    pub record_id: Seq<char>,
    pub block_id: i64,
    pub advertiser: Seq<char>,
    pub iab_category: Seq<char>,
    pub keywords: Seq<Seq<char>>,
    pub title: Seq<char>,
    pub url: Seq<char>,
    pub impression_url: Seq<char>,
    pub click_url: Seq<char>,
}

/// A [`Suggestion`] as a mathematical value.
pub struct SuggestionView {
    pub block_id: i64,
    pub advertiser: Seq<char>,
    pub iab_category: Seq<char>,
    pub title: Seq<char>,
    pub url: Seq<char>,
    pub full_keyword: Seq<char>,
    pub impression_url: Seq<char>,
    pub click_url: Seq<char>,
}

impl View for Suggestion {
    type V = SuggestionView;

    open spec fn view(&self) -> SuggestionView {
        SuggestionView {
            block_id: self.block_id,
            advertiser: self.advertiser@,
            iab_category: self.iab_category@,
            title: self.title@,
            url: self.url@,
            full_keyword: self.full_keyword@,
            impression_url: self.impression_url@,
            click_url: self.click_url@,
        }
    }
}

/// The texts in `texts`, each taken by its view.
pub open spec fn texts_view(texts: Seq<String>) -> Seq<Seq<char>> {
    texts.map_values(|t: String| t@)
}

/// What the store holds of `suggestion` when it came with the record
/// `record_id`.
pub open spec fn stored_view(record_id: Seq<char>, suggestion: RemoteSuggestion) -> StoredView {
    StoredView {
        record_id,
        block_id: suggestion.block_id,
        advertiser: suggestion.advertiser@,
        iab_category: suggestion.iab_category@,
        keywords: texts_view(suggestion.keywords@),
        title: suggestion.title@,
        url: suggestion.url@,
        impression_url: suggestion.impression_url@,
        click_url: suggestion.click_url@,
    }
}

/// What the store holds of `suggestions`, in their order, when they came
/// with the record `record_id`.
pub open spec fn staged_view(record_id: Seq<char>, suggestions: Seq<RemoteSuggestion>) -> Seq<
    StoredView,
> {
    suggestions.map_values(|s: RemoteSuggestion| stored_view(record_id, s))
}

/// Whether one of the first `n` of `readings` shows a signal for a scope
/// that began at the counter value `start`.
pub open spec fn interrupted_in(start: usize, readings: Seq<usize>, n: int) -> bool {
    exists|i: int|
        0 <= i < n && i < readings.len() && interrupted_between(start, #[trigger] readings[i])
}

/// The rank of `keyword` among `keywords`: its first place, or the number of
/// keywords where it is not among them.
pub open spec fn rank_of(keywords: Seq<Seq<char>>, keyword: Seq<char>) -> int
    decreases keywords.len(),
{
    if keywords.len() == 0 {
        0
    } else if keywords.first() == keyword {
        0
    } else {
        1 + rank_of(keywords.drop_first(), keyword)
    }
}

/// Whether `keyword` leads to `stored`.
pub open spec fn has_keyword(stored: StoredView, keyword: Seq<char>) -> bool {
    rank_of(stored.keywords, keyword) < stored.keywords.len()
}

/// The suggestion that a lookup returns for `stored`, found by `keyword`.
/// Its full keyword is the one of the rank at which `keyword` was found.
pub open spec fn found_view(stored: StoredView, keyword: Seq<char>) -> SuggestionView {
    SuggestionView {
        block_id: stored.block_id,
        advertiser: stored.advertiser,
        iab_category: stored.iab_category,
        title: stored.title,
        url: stored.url,
        full_keyword: stored.keywords[rank_of(stored.keywords, keyword)],
        impression_url: stored.impression_url,
        click_url: stored.click_url,
    }
}

/// What a lookup by `keyword` returns: the first of `rows` that has the
/// keyword, or nothing.
pub open spec fn fetched(rows: Seq<StoredView>, keyword: Seq<char>) -> Seq<SuggestionView>
    decreases rows.len(),
{
    if rows.len() == 0 {
        Seq::empty()
    } else if has_keyword(rows.first(), keyword) {
        seq![found_view(rows.first(), keyword)]
    } else {
        fetched(rows.drop_first(), keyword)
    }
}

/// The rows that did not come with the record `record_id`, in their order.
pub open spec fn without_record(rows: Seq<StoredView>, record_id: Seq<char>) -> Seq<StoredView>
    decreases rows.len(),
{
    if rows.len() == 0 {
        rows
    } else {
        let before = without_record(rows.drop_last(), record_id);
        if rows.last().record_id == record_id {
            before
        } else {
            before.push(rows.last())
        }
    }
}

/// A value that the store keeps beside the suggestions: a whole number, a
/// text or a run of bytes.
#[derive(Debug, Clone, PartialEq, Eq)]
pub enum MetaValue {
    Integer(i64),
    Text(String),
    Blob(Vec<u8>),
}

/// A [`MetaValue`] as a mathematical value.
pub enum MetaValueView {
    Integer(i64),
    Text(Seq<char>),
    Blob(Seq<u8>),
}

impl View for MetaValue {
    type V = MetaValueView;

    open spec fn view(&self) -> MetaValueView {
        match *self {
            MetaValue::Integer(n) => MetaValueView::Integer(n),
            MetaValue::Text(t) => MetaValueView::Text(t@),
            MetaValue::Blob(b) => MetaValueView::Blob(b@),
        }
    }
}

impl MetaValue {
    /// A copy of this value.
    pub fn copy(&self) -> (r: Self)
        ensures
            r@ == self@,
    {
        match self {
            MetaValue::Integer(n) => MetaValue::Integer(*n),
            MetaValue::Text(t) => MetaValue::Text(t.clone()),
            MetaValue::Blob(b) => {
                let mut bytes: Vec<u8> = Vec::new();
                let mut k: usize = 0;
                while k < b.len()
                    invariant
                        k <= b@.len(),
                        bytes@ == b@.take(k as int),
                    decreases b@.len() - k,
                {
                    bytes.push(b[k]);
                    assert(b@.take(k + 1) =~= b@.take(k as int).push(b@[k as int]));
                    k = k + 1;
                }
                assert(b@.take(k as int) =~= b@);
                MetaValue::Blob(bytes)
            },
        }
    }
}

/// The value kept under `key`: that of the last entry with this key.
pub open spec fn meta_of(meta: Seq<(Seq<char>, MetaValueView)>, key: Seq<char>) -> Option<
    MetaValueView,
>
    decreases meta.len(),
{
    if meta.len() == 0 {
        None
    } else if meta.last().0 == key {
        Some(meta.last().1)
    } else {
        meta_of(meta.drop_last(), key)
    }
}

/// A suggestion as the store holds it, with the record that it came with.
struct StoredSuggestion {
    record_id: String,
    suggestion: RemoteSuggestion,
}

impl View for StoredSuggestion {
    type V = StoredView;

    closed spec fn view(&self) -> StoredView {
        stored_view(self.record_id@, self.suggestion)
    }
}

/// The suggestions store.
pub struct SuggestDb {
    rows: Vec<StoredSuggestion>,
    meta: Vec<(String, MetaValue)>,
    path: String,
    pub type_: ConnectionType,
    interrupt_counter: Arc<AtomicUsize>,
}

/// A [`SuggestDb`] as a mathematical value.
pub struct SuggestDbView {
    /// The suggestions, in the order in which they were ingested.
    pub rows: Seq<StoredView>,
    /// What is kept beside them, as keys and values in the order in which
    /// they were put.
    pub meta: Seq<(Seq<char>, MetaValueView)>,
    /// Where the database of the store is.
    pub path: Seq<char>,
    /// The kind of the connection behind the store.
    pub type_: ConnectionType,
}

impl View for SuggestDb {
    type V = SuggestDbView;

    closed spec fn view(&self) -> SuggestDbView {
        SuggestDbView {
            rows: self.rows@.map_values(|r: StoredSuggestion| r@),
            meta: self.meta@.map_values(|e: (String, MetaValue)| (e.0@, e.1@)),
            path: self.path@,
            type_: self.type_,
        }
    }
}

fn copy_texts(texts: &Vec<String>) -> (r: Vec<String>)
    ensures
        texts_view(r@) == texts_view(texts@),
{
    let mut r: Vec<String> = Vec::new();
    let mut k: usize = 0;
    while k < texts.len()
        invariant
            k <= texts@.len(),
            r@.len() == k,
            forall|j: int| 0 <= j < k ==> (#[trigger] r@[j])@ == texts@[j]@,
        decreases texts@.len() - k,
    {
        r.push(texts[k].clone());
        k = k + 1;
    }
    r
}

fn copy_suggestion(s: &RemoteSuggestion) -> (r: RemoteSuggestion)
    ensures
        forall|id: Seq<char>| stored_view(id, r) == #[trigger] stored_view(id, *s),
{
    RemoteSuggestion {
        block_id: s.block_id,
        advertiser: s.advertiser.clone(),
        iab_category: s.iab_category.clone(),
        keywords: copy_texts(&s.keywords),
        title: s.title.clone(),
        url: s.url.clone(),
        impression_url: s.impression_url.clone(),
        click_url: s.click_url.clone(),
    }
}

fn find_rank(keywords: &Vec<String>, keyword: &String) -> (r: usize)
    ensures
        r == rank_of(texts_view(keywords@), keyword@),
        r <= keywords@.len(),
{
    let ghost all = texts_view(keywords@);
    let mut k: usize = 0;
    assert(all.skip(0) =~= all);
    while k < keywords.len()
        invariant
            k <= keywords@.len(),
            all == texts_view(keywords@),
            rank_of(all, keyword@) == k + rank_of(all.skip(k as int), keyword@),
        decreases keywords@.len() - k,
    {
        assert(all.skip(k as int).drop_first() =~= all.skip(k + 1));
        if keywords[k] == *keyword {
            return k;
        }
        k = k + 1;
    }
    k
}

impl SuggestDb {
    /// An empty store on the database at `path`, behind a connection of
    /// kind `type_`.
    pub fn open(path: &str, type_: ConnectionType) -> (r: Self)
        ensures
            r@.rows.len() == 0,
            r@.meta.len() == 0,
            r@.path == path@,
            r@.type_ == type_,
    {
        SuggestDb {
            rows: Vec::new(),
            meta: Vec::new(),
            path: path.to_owned(),
            type_,
            interrupt_counter: Arc::new(AtomicUsize::new(0)),
        }
    }

    /// Where the database of the store is.
    pub fn path(&self) -> (r: &str)
        ensures
            r@ == self@.path,
    {
        self.path.as_str()
    }

    /// The counter through which operations on this store are interrupted.
    pub closed spec fn counter(&self) -> Arc<AtomicUsize> {
        self.interrupt_counter
    }

    /// A handle through which another thread can interrupt the operation
    /// that runs on this store.
    pub fn interrupt_handle(&self) -> (r: SqlInterruptHandle)
        ensures
            r.counter() == self.counter(),
    {
        SqlInterruptHandle::new(self.interrupt_counter.clone())
    }

    /// Begins the scope of one logical operation on this store.
    pub fn begin_interrupt_scope(&self) -> (r: SqlInterruptScope)
        ensures
            r.counter() == self.counter(),
    {
        SqlInterruptScope::new(self.interrupt_counter.clone())
    }

    /// The suggestion that `keyword` leads to: at most one, the first that
    /// was ingested with this keyword.
    pub fn fetch_by_keyword(&self, keyword: &str) -> (r: Vec<Suggestion>)
        ensures
            r@.map_values(|s: Suggestion| s@) == fetched(self@.rows, keyword@),
    {
        let target = keyword.to_owned();
        let ghost rows = self@.rows;
        let mut r: Vec<Suggestion> = Vec::new();
        let mut k: usize = 0;
        assert(rows.skip(0) =~= rows);
        while k < self.rows.len()
            invariant
                k <= self.rows@.len(),
                rows == self@.rows,
                target@ == keyword@,
                fetched(rows, keyword@) == fetched(rows.skip(k as int), keyword@),
                r@.len() == 0,
            decreases self.rows@.len() - k,
        {
            assert(rows.skip(k as int).drop_first() =~= rows.skip(k + 1));
            let stored = &self.rows[k].suggestion;
            let rank = find_rank(&stored.keywords, &target);
            if rank < stored.keywords.len() {
                r.push(
                    Suggestion {
                        block_id: stored.block_id,
                        advertiser: stored.advertiser.clone(),
                        iab_category: stored.iab_category.clone(),
                        title: stored.title.clone(),
                        url: stored.url.clone(),
                        full_keyword: stored.keywords[rank].clone(),
                        impression_url: stored.impression_url.clone(),
                        click_url: stored.click_url.clone(),
                    },
                );
                return r;
            }
            k = k + 1;
        }
        r
    }

    /// Takes in the suggestions of the record `record_id`, all of them or,
    /// where the operation is interrupted on the way, none. A signal is
    /// looked for before each suggestion is taken, so with no suggestion to
    /// take the operation succeeds, signal or not.
    pub fn ingest(&mut self, record_id: &RemoteRecordId, suggestions: &Vec<RemoteSuggestion>) -> (r:
        Result<(), SuggestError>)
        ensures
            final(self)@.meta == old(self)@.meta,
            final(self)@.path == old(self)@.path,
            final(self)@.type_ == old(self)@.type_,
            r is Ok ==> final(self)@.rows == old(self)@.rows + staged_view(
                record_id.0@,
                suggestions@,
            ),
            r is Err ==> final(self)@ == old(self)@,
            suggestions@.len() == 0 ==> r is Ok,
    {
        let scope = self.begin_interrupt_scope();
        self.ingest_in_scope(record_id, suggestions, &scope)
    }

    /// Takes in the suggestions of the record `record_id` as the operation
    /// that `scope` stands for: all of them or, where a signal arrives for
    /// the scope before the last one is taken, none. The counter is read
    /// before each suggestion is taken; [`SuggestDb::ingest_at`] says what
    /// follows from what it read.
    pub fn ingest_in_scope(
        &mut self,
        record_id: &RemoteRecordId,
        suggestions: &Vec<RemoteSuggestion>,
        scope: &SqlInterruptScope,
    ) -> (r: Result<(), SuggestError>)
        ensures
            final(self)@.meta == old(self)@.meta,
            final(self)@.path == old(self)@.path,
            final(self)@.type_ == old(self)@.type_,
            r is Ok ==> final(self)@.rows == old(self)@.rows + staged_view(
                record_id.0@,
                suggestions@,
            ),
            r is Err ==> final(self)@ == old(self)@,
            suggestions@.len() == 0 ==> r is Ok,
    {
        self.ingest_with(record_id, suggestions, scope, None)
    }

    /// Takes in the suggestions of the record `record_id` as the operation
    /// that `scope` stands for, where `readings` holds what the counter
    /// read before each suggestion was taken, in order. The operation
    /// succeeds, and takes in all suggestions, exactly if none of these
    /// readings shows a signal for the scope; otherwise it fails and the
    /// store is as before. A suggestion for which there is no reading is
    /// taken without a look at the counter.
    pub fn ingest_at(
        &mut self,
        record_id: &RemoteRecordId,
        suggestions: &Vec<RemoteSuggestion>,
        scope: &SqlInterruptScope,
        readings: &Vec<usize>,
    ) -> (r: Result<(), SuggestError>)
        ensures
            r is Err <==> interrupted_in(scope.start_value(), readings@, suggestions@.len() as int),
            r is Ok ==> final(self)@ == (SuggestDbView {
                rows: old(self)@.rows + staged_view(record_id.0@, suggestions@),
                ..old(self)@
            }),
            r is Err ==> final(self)@ == old(self)@,
    {
        self.ingest_with(record_id, suggestions, scope, Some(readings))
    }

    /// Takes in the suggestions of the record `record_id`, all or none.
    /// Before each, a signal for `scope` is looked for: in the reading of
    /// `readings` for that suggestion where readings are given, and in the
    /// counter itself where they are not.
    fn ingest_with(
        &mut self,
        record_id: &RemoteRecordId,
        suggestions: &Vec<RemoteSuggestion>,
        scope: &SqlInterruptScope,
        readings: Option<&Vec<usize>>,
    ) -> (r: Result<(), SuggestError>)
        ensures
            final(self)@.meta == old(self)@.meta,
            final(self)@.path == old(self)@.path,
            final(self)@.type_ == old(self)@.type_,
            r is Ok ==> final(self)@.rows == old(self)@.rows + staged_view(
                record_id.0@,
                suggestions@,
            ),
            r is Err ==> final(self)@ == old(self)@,
            suggestions@.len() == 0 ==> r is Ok,
            readings matches Some(given) ==> (r is Err <==> interrupted_in(
                scope.start_value(),
                given@,
                suggestions@.len() as int,
            )),
    {
        let mut staged: Vec<StoredSuggestion> = Vec::new();
        let mut k: usize = 0;
        while k < suggestions.len()
            invariant
                k <= suggestions@.len(),
                staged@.len() == k,
                forall|j: int|
                    0 <= j < k ==> (#[trigger] staged@[j])@ == stored_view(
                        record_id.0@,
                        suggestions@[j],
                    ),
                readings matches Some(given) ==> !interrupted_in(
                    scope.start_value(),
                    given@,
                    k as int,
                ),
            decreases suggestions@.len() - k,
        {
            let interrupted = match readings {
                Some(given) => k < given.len() && scope.was_interrupted_at(given[k]),
                None => scope.was_interrupted(),
            };
            if interrupted {
                return Err(SuggestError::Interrupted);
            }
            staged.push(
                StoredSuggestion {
                    record_id: record_id.0.clone(),
                    suggestion: copy_suggestion(&suggestions[k]),
                },
            );
            k = k + 1;
        }
        self.rows.append(&mut staged);
        Ok(())
    }

    /// Removes the suggestions that came with the record `record_id`.
    pub fn drop(&mut self, record_id: &RemoteRecordId)
        ensures
            final(self)@.rows == without_record(old(self)@.rows, record_id.0@),
            final(self)@.meta == old(self)@.meta,
            final(self)@.path == old(self)@.path,
            final(self)@.type_ == old(self)@.type_,
    {
        let ghost before = self@.rows;
        let mut kept: Vec<StoredSuggestion> = Vec::new();
        let mut k: usize = 0;
        while k < self.rows.len()
            invariant
                k <= self.rows@.len(),
                before == self@.rows,
                *self == *old(self),
                kept@.map_values(|r: StoredSuggestion| r@) == without_record(
                    before.take(k as int),
                    record_id.0@,
                ),
            decreases self.rows@.len() - k,
        {
            let row = &self.rows[k];
            proof {
                assert(before.take(k + 1).drop_last() =~= before.take(k as int));
            }
            if row.record_id != record_id.0 {
                kept.push(
                    StoredSuggestion {
                        record_id: row.record_id.clone(),
                        suggestion: copy_suggestion(&row.suggestion),
                    },
                );
            }
            k = k + 1;
        }
        assert(before.take(k as int) =~= before);
        self.rows = kept;
    }

    /// Removes all suggestions and all that is kept beside them.
    pub fn clear(&mut self)
        ensures
            final(self)@.rows.len() == 0,
            final(self)@.meta.len() == 0,
            final(self)@.path == old(self)@.path,
            final(self)@.type_ == old(self)@.type_,
    {
        self.rows.clear();
        self.meta.clear();
    }

    /// The value kept under `key`, if there is one.
    pub fn get_meta(&self, key: &str) -> (r: Option<MetaValue>)
        ensures
            (match r {
                Some(v) => Some(v@),
                None => None,
            }) == meta_of(self@.meta, key@),
    {
        let target = key.to_owned();
        let ghost meta = self@.meta;
        let mut k: usize = self.meta.len();
        assert(meta.take(k as int) =~= meta);
        while k > 0
            invariant
                k <= self.meta@.len(),
                meta == self@.meta,
                target@ == key@,
                meta_of(meta, key@) == meta_of(meta.take(k as int), key@),
            decreases k,
        {
            assert(meta.take(k as int).drop_last() =~= meta.take(k - 1));
            if self.meta[k - 1].0 == target {
                let v = self.meta[k - 1].1.copy();
                return Some(v);
            }
            k = k - 1;
        }
        None
    }

    /// Keeps `value` under `key`, in place of what was kept under it.
    pub fn put_meta(&mut self, key: &str, value: MetaValue)
        ensures
            final(self)@.meta == old(self)@.meta.push((key@, value@)),
            final(self)@.rows == old(self)@.rows,
            final(self)@.path == old(self)@.path,
            final(self)@.type_ == old(self)@.type_,
            meta_of(final(self)@.meta, key@) == Some(value@),
    {
        self.meta.push((key.to_owned(), value));
    }
}

/// What is put under a key is what is got from it afterwards, whatever is
/// put under other keys in between.
pub proof fn lemma_meta_round_trip(
    meta: Seq<(Seq<char>, MetaValueView)>,
    key: Seq<char>,
    value: MetaValueView,
    other_key: Seq<char>,
    other_value: MetaValueView,
)
    requires
        other_key != key,
    ensures
        meta_of(meta.push((key, value)), key) == Some(value),
        meta_of(meta.push((key, value)).push((other_key, other_value)), key) == Some(value),
        meta_of(meta.push((other_key, other_value)), key) == meta_of(meta, key),
{
    let once = meta.push((key, value));
    let twice = once.push((other_key, other_value));
    assert(twice.drop_last() =~= once);
    let other = meta.push((other_key, other_value));
    assert(other.drop_last() =~= meta);
}

} // verus!
