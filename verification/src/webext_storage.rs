//! Storage for extensions: one JSON object per extension, read and changed
//! key by key.
//!
//! JSON values are kept as this library's own [`JsonValue`]. An object holds
//! its entries in the order in which their keys were first set.
use vstd::prelude::*;

verus! {

/// A JSON value. A number is held as its text.
#[derive(Debug)]
pub enum JsonValue {
    Null,
    Bool(bool),
    Number(String),
    String(String),
    Array(Vec<JsonValue>),
    Object(Vec<(String, JsonValue)>),
}

/// The entries of a JSON object, or the rows of a table keyed by text.
pub type JsonMap = Vec<(String, JsonValue)>;

/// A [`JsonValue`] as a mathematical value.
pub enum JsonView {
    Null,
    Bool(bool),
    Number(Seq<char>),
    String(Seq<char>),
    Array(Seq<JsonView>),
    Object(Seq<(Seq<char>, JsonView)>),
}

impl JsonValue {
    /// The value as a mathematical value.
    pub open spec fn view(&self) -> JsonView
        decreases self,
    {
        match self {
            JsonValue::Null => JsonView::Null,
            JsonValue::Bool(b) => JsonView::Bool(*b),
            JsonValue::Number(n) => JsonView::Number(n@),
            JsonValue::String(s) => JsonView::String(s@),
            JsonValue::Array(items) => JsonView::Array(
                Seq::new(
                    items@.len(),
                    |i: int|
                        if 0 <= i < items@.len() {
                            items@[i].view()
                        } else {
                            JsonView::Null
                        },
                ),
            ),
            JsonValue::Object(entries) => JsonView::Object(
                Seq::new(
                    entries@.len(),
                    |i: int|
                        if 0 <= i < entries@.len() {
                            (entries@[i].0@, entries@[i].1.view())
                        } else {
                            (Seq::empty(), JsonView::Null)
                        },
                ),
            ),
        }
    }

    /// A second value with the same content.
    pub fn copy(&self) -> (r: JsonValue)
        ensures
            r.view() == self.view(),
        decreases self,
    {
        match self {
            JsonValue::Null => JsonValue::Null,
            JsonValue::Bool(b) => JsonValue::Bool(*b),
            JsonValue::Number(n) => JsonValue::Number(n.clone()),
            JsonValue::String(s) => JsonValue::String(s.clone()),
            JsonValue::Array(items) => {
                let mut out: Vec<JsonValue> = Vec::new();
                let mut k: usize = 0;
                while k < items.len()
                    invariant
                        *self == JsonValue::Array(*items),
                        k <= items@.len(),
                        out@.len() == k,
                        forall|j: int| 0 <= j < k ==> (#[trigger] out@[j]).view() == items@[j].view(),
                    decreases items@.len() - k,
                {
                    assert(decreases_to!(self => self->Array_0));
                    out.push(items[k].copy());
                    k = k + 1;
                }
                let r = JsonValue::Array(out);
                assert(r.view()->Array_0 =~= self.view()->Array_0);
                r
            },
            JsonValue::Object(entries) => {
                let mut out: Vec<(String, JsonValue)> = Vec::new();
                let mut k: usize = 0;
                while k < entries.len()
                    invariant
                        *self == JsonValue::Object(*entries),
                        k <= entries@.len(),
                        out@.len() == k,
                        forall|j: int|
                            0 <= j < k ==> (#[trigger] out@[j]).0@ == entries@[j].0@
                                && out@[j].1.view() == entries@[j].1.view(),
                    decreases entries@.len() - k,
                {
                    assert(decreases_to!(self => self->Object_0));
                    out.push((entries[k].0.clone(), entries[k].1.copy()));
                    k = k + 1;
                }
                let r = JsonValue::Object(out);
                assert(r.view()->Object_0 =~= self.view()->Object_0);
                r
            },
        }
    }
}

impl JsonValue {
    /// Whether both values have the same content: objects with the same
    /// entries in the same order, lists with the same items in the same
    /// order, numbers with the same text.
    pub fn same_as(&self, other: &JsonValue) -> (r: bool)
        ensures
            r == (self.view() == other.view()),
        decreases self,
    {
        match (self, other) {
            (JsonValue::Null, JsonValue::Null) => true,
            (JsonValue::Bool(a), JsonValue::Bool(b)) => *a == *b,
            (JsonValue::Number(a), JsonValue::Number(b)) => *a == *b,
            (JsonValue::String(a), JsonValue::String(b)) => *a == *b,
            (JsonValue::Array(a), JsonValue::Array(b)) => {
                if a.len() != b.len() {
                    assert(self.view()->Array_0.len() != other.view()->Array_0.len());
                    return false;
                }
                let mut k: usize = 0;
                while k < a.len()
                    invariant
                        *self == JsonValue::Array(*a),
                        *other == JsonValue::Array(*b),
                        a@.len() == b@.len(),
                        k <= a@.len(),
                        forall|j: int| 0 <= j < k ==> (#[trigger] a@[j]).view() == b@[j].view(),
                    decreases a@.len() - k,
                {
                    if !a[k].same_as(&b[k]) {
                        assert(self.view()->Array_0[k as int] != other.view()->Array_0[k as int]);
                        return false;
                    }
                    k = k + 1;
                }
                assert(self.view()->Array_0 =~= other.view()->Array_0);
                true
            },
            (JsonValue::Object(a), JsonValue::Object(b)) => {
                if a.len() != b.len() {
                    assert(self.view()->Object_0.len() != other.view()->Object_0.len());
                    return false;
                }
                let mut k: usize = 0;
                while k < a.len()
                    invariant
                        *self == JsonValue::Object(*a),
                        *other == JsonValue::Object(*b),
                        a@.len() == b@.len(),
                        k <= a@.len(),
                        forall|j: int|
                            0 <= j < k ==> (#[trigger] a@[j]).0@ == b@[j].0@ && a@[j].1.view()
                                == b@[j].1.view(),
                    decreases a@.len() - k,
                {
                    if !(a[k].0 == b[k].0) || !a[k].1.same_as(&b[k].1) {
                        assert(self.view()->Object_0[k as int] != other.view()->Object_0[k as int]);
                        return false;
                    }
                    k = k + 1;
                }
                assert(self.view()->Object_0 =~= other.view()->Object_0);
                true
            },
            _ => false,
        }
    }
}

impl PartialEq for JsonValue {
    fn eq(&self, other: &JsonValue) -> (r: bool) {
        self.same_as(other)
    }
}

impl vstd::std_specs::cmp::PartialEqSpecImpl for JsonValue {
    open spec fn obeys_eq_spec() -> bool {
        true
    }

    open spec fn eq_spec(&self, other: &JsonValue) -> bool {
        self.view() == other.view()
    }
}

/// The views of entries.
pub type EntriesView = Seq<(Seq<char>, JsonView)>;

/// The entries in `entries`, each taken by its view.
pub open spec fn entries_view(entries: Seq<(String, JsonValue)>) -> EntriesView {
    Seq::new(entries.len(), |i: int| (entries[i].0@, entries[i].1.view()))
}

/// The first place of the key `key` in `entries`; their number where the
/// key is not among them.
pub open spec fn place_of(entries: EntriesView, key: Seq<char>) -> int
    decreases entries.len(),
{
    if entries.len() == 0 {
        0
    } else if entries.first().0 == key {
        0
    } else {
        1 + place_of(entries.drop_first(), key)
    }
}

/// The value under `key`, if there is one.
pub open spec fn value_of(entries: EntriesView, key: Seq<char>) -> Option<JsonView> {
    if place_of(entries, key) < entries.len() {
        Some(entries[place_of(entries, key)].1)
    } else {
        None
    }
}

/// The entries after `value` was set under `key`: in the place of the
/// former value where there was one, at the end where there was none.
pub open spec fn with_entry(entries: EntriesView, key: Seq<char>, value: JsonView) -> EntriesView {
    if place_of(entries, key) < entries.len() {
        entries.update(place_of(entries, key), (key, value))
    } else {
        entries.push((key, value))
    }
}

/// The entries without the one under `key`.
pub open spec fn without_key(entries: EntriesView, key: Seq<char>) -> EntriesView {
    if place_of(entries, key) < entries.len() {
        entries.remove(place_of(entries, key))
    } else {
        entries
    }
}

/// The entries of `existing` after each of `new` was set in turn, without
/// descending into values.
pub open spec fn merged(existing: EntriesView, new: EntriesView) -> EntriesView
    decreases new.len(),
{
    if new.len() == 0 {
        existing
    } else {
        merged(with_entry(existing, new.first().0, new.first().1), new.drop_first())
    }
}

/// The entries of a value that is an object; none for any other value.
pub open spec fn entries_of(value: JsonView) -> EntriesView {
    match value {
        JsonView::Object(entries) => entries,
        _ => Seq::empty(),
    }
}

/// The entries of `existing` that `keys` ask for, in the order of the keys.
/// A key that is no text is passed over, and so is a key that has no entry
/// or was asked for before.
pub open spec fn picked(existing: EntriesView, keys: Seq<JsonView>) -> EntriesView
    decreases keys.len(),
{
    if keys.len() == 0 {
        Seq::empty()
    } else {
        match keys.first() {
            JsonView::String(key) => match value_of(existing, key) {
                Some(value) => seq![(key, value)] + picked(
                    without_key(existing, key),
                    keys.drop_first(),
                ),
                None => picked(existing, keys.drop_first()),
            },
            _ => picked(existing, keys.drop_first()),
        }
    }
}

/// What a read of `existing` with the key `key` gives: nothing where the
/// extension has stored nothing; all of it for no key; the entries asked for
/// where the key is a text or a list; and nothing for any other key.
pub open spec fn got(existing: Option<EntriesView>, key: JsonView) -> JsonView {
    match existing {
        None => JsonView::Null,
        Some(entries) => match key {
            JsonView::Null => JsonView::Object(entries),
            JsonView::String(s) => JsonView::Object(picked(entries, seq![key])),
            JsonView::Array(keys) => JsonView::Object(picked(entries, keys)),
            _ => JsonView::Null,
        },
    }
}

/// The object that is the data of an extension, if the stored value is one.
pub open spec fn object_of(stored: Option<JsonView>) -> Option<EntriesView> {
    match stored {
        Some(JsonView::Object(entries)) => Some(entries),
        _ => None,
    }
}

/// The object after `val` was set into the data `existing`.
pub open spec fn after_set(existing: Option<EntriesView>, val: JsonView) -> EntriesView {
    match existing {
        Some(entries) => merged(entries, entries_of(val)),
        None => entries_of(val),
    }
}

fn find_key(entries: &JsonMap, key: &String) -> (r: usize)
    ensures
        r == place_of(entries_view(entries@), key@),
        r <= entries@.len(),
        r < entries@.len() ==> entries@[r as int].0@ == key@,
{
    let ghost all = entries_view(entries@);
    let mut k: usize = 0;
    assert(all.skip(0) =~= all);
    while k < entries.len()
        invariant
            k <= entries@.len(),
            all == entries_view(entries@),
            place_of(all, key@) == k + place_of(all.skip(k as int), key@),
        decreases entries@.len() - k,
    {
        assert(all.skip(k as int).drop_first() =~= all.skip(k + 1));
        if entries[k].0 == *key {
            return k;
        }
        k = k + 1;
    }
    k
}

fn put(entries: &mut JsonMap, key: String, value: JsonValue)
    ensures
        entries_view(final(entries)@) == with_entry(entries_view(old(entries)@), key@, value.view()),
{
    let k = find_key(entries, &key);
    if k < entries.len() {
        entries[k] = (key, value);
    } else {
        entries.push((key, value));
    }
}

fn take(entries: &mut JsonMap, key: &String) -> (r: Option<JsonValue>)
    ensures
        (match r {
            Some(v) => Some(v.view()),
            None => None,
        }) == value_of(entries_view(old(entries)@), key@),
        entries_view(final(entries)@) == without_key(entries_view(old(entries)@), key@),
{
    let k = find_key(entries, key);
    if k < entries.len() {
        let entry = entries.remove(k);
        Some(entry.1)
    } else {
        None
    }
}

fn copy_entries(entries: &JsonMap) -> (r: JsonMap)
    ensures
        entries_view(r@) == entries_view(entries@),
{
    let mut out: JsonMap = Vec::new();
    let mut k: usize = 0;
    while k < entries.len()
        invariant
            k <= entries@.len(),
            out@.len() == k,
            forall|j: int|
                0 <= j < k ==> (#[trigger] out@[j]).0@ == entries@[j].0@ && out@[j].1.view()
                    == entries@[j].1.view(),
        decreases entries@.len() - k,
    {
        out.push((entries[k].0.clone(), entries[k].1.copy()));
        k = k + 1;
    }
    out
}

fn into_entries(val: JsonValue) -> (r: JsonMap)
    ensures
        entries_view(r@) == entries_of(val.view()),
{
    match val {
        JsonValue::Object(m) => {
            m
        },
        _ => {
            let m: JsonMap = Vec::new();
            m
        },
    }
}

fn object(entries: JsonMap) -> (r: JsonValue)
    ensures
        r.view() == JsonView::Object(entries_view(entries@)),
{
    let r = JsonValue::Object(entries);
    assert(r.view()->Object_0 =~= entries_view(entries@));
    r
}

/// What changed in the data of an extension.
#[derive(Debug, PartialEq)]
pub struct StorageChange {
    pub old_value: Option<JsonValue>,
    pub new_value: Option<JsonValue>,
}

/// The view of a value that may be absent.
pub open spec fn opt_json_view(v: Option<JsonValue>) -> Option<JsonView> {
    match v {
        Some(x) => Some(x.view()),
        None => None,
    }
}

/// The table that holds the data of each extension under its id.
pub struct ExtensionData {
    rows: JsonMap,
}

impl View for ExtensionData {
    type V = EntriesView;

    closed spec fn view(&self) -> EntriesView {
        entries_view(self.rows@)
    }
}

impl ExtensionData {
    /// A table without data.
    pub fn new() -> (r: Self)
        ensures
            r@ == EntriesView::empty(),
    {
        ExtensionData { rows: Vec::new() }
    }
}

fn get_from_db(conn: &ExtensionData, ext_guid: &str) -> (r: Option<JsonMap>)
    ensures
        (match r {
            Some(m) => Some(entries_view(m@)),
            None => None,
        }) == object_of(value_of(conn@, ext_guid@)),
{
    let guid = ext_guid.to_owned();
    let k = find_key(&conn.rows, &guid);
    if k < conn.rows.len() {
        match &conn.rows[k].1 {
            JsonValue::Object(m) => {
                Some(copy_entries(m))
            },
            // a stored value that is no object is treated as no data
            _ => None,
        }
    } else {
        None
    }
}

fn save_to_db(conn: &mut ExtensionData, ext_guid: &str, val: JsonValue)
    ensures
        final(conn)@ == with_entry(old(conn)@, ext_guid@, val.view()),
{
    put(&mut conn.rows, ext_guid.to_owned(), val);
}

fn remove_from_db(conn: &mut ExtensionData, ext_guid: &str)
    ensures
        final(conn)@ == without_key(old(conn)@, ext_guid@),
{
    let guid = ext_guid.to_owned();
    let _ = take(&mut conn.rows, &guid);
}

/// Sets the entries of `val` into the data of the extension `ext_guid`,
/// each in place of the entry of the same key. A `val` that is no object
/// sets nothing. Returns the data as it was and as it is.
pub fn set(conn: &mut ExtensionData, ext_guid: &str, val: JsonValue) -> (r: StorageChange)
    ensures
        opt_json_view(r.old_value) == (match object_of(value_of(old(conn)@, ext_guid@)) {
            Some(entries) => Some(JsonView::Object(entries)),
            None => None,
        }),
        opt_json_view(r.new_value) == Some(
            JsonView::Object(after_set(object_of(value_of(old(conn)@, ext_guid@)), val.view())),
        ),
        final(conn)@ == with_entry(
            old(conn)@,
            ext_guid@,
            JsonView::Object(after_set(object_of(value_of(old(conn)@, ext_guid@)), val.view())),
        ),
{
    let existing = get_from_db(conn, ext_guid);
    let old_value = match &existing {
        Some(e) => Some(object(copy_entries(e))),
        None => None,
    };
    let new = into_entries(val);
    let new_map = match existing {
        Some(mut e) => {
            // set each new entry, without descending into values
            let mut k: usize = 0;
            let ghost start = entries_view(e@);
            let ghost all = entries_view(new@);
            assert(all.skip(0) =~= all);
            while k < new.len()
                invariant
                    k <= new@.len(),
                    all == entries_view(new@),
                    merged(start, all) == merged(entries_view(e@), all.skip(k as int)),
                decreases new@.len() - k,
            {
                assert(all.skip(k as int).drop_first() =~= all.skip(k + 1));
                put(&mut e, new[k].0.clone(), new[k].1.copy());
                k = k + 1;
            }
            e
        },
        None => new,
    };
    let new_value = object(copy_entries(&new_map));
    save_to_db(conn, ext_guid, object(new_map));
    StorageChange { old_value, new_value: Some(new_value) }
}

/// Reads from the data of the extension `ext_guid`: all of it for the key
/// `Null`, the entry of a key that is a text, the entries of the texts in a
/// key that is a list. Gives `Null` where the extension has no data and for
/// any other key.
pub fn get(conn: &ExtensionData, ext_guid: &str, key: JsonValue) -> (r: JsonValue)
    ensures
        r.view() == got(object_of(value_of(conn@, ext_guid@)), key.view()),
{
    let maybe_existing = get_from_db(conn, ext_guid);
    let mut existing = match maybe_existing {
        None => {
            return JsonValue::Null;
        },
        Some(v) => v,
    };
    let ghost start = entries_view(existing@);
    match key {
        JsonValue::Null => object(existing),
        JsonValue::String(s) => {
            let mut result: JsonMap = Vec::new();
            if let Some(v) = take(&mut existing, &s) {
                result.push((s, v));
            }
            proof {
                let keys = seq![key.view()];
                assert(picked(without_key(start, s@), keys.drop_first()) =~= EntriesView::empty());
                assert(entries_view(result@) =~= picked(start, keys));
            }
            object(result)
        },
        JsonValue::Array(keys) => {
            // each key may not be a text: any that is not is passed over
            let mut result: JsonMap = Vec::new();
            let ghost all = key.view()->Array_0;
            let mut k: usize = 0;
            assert(all.skip(0) =~= all);
            while k < keys.len()
                invariant
                    k <= keys@.len(),
                    all.len() == keys@.len(),
                    forall|j: int| 0 <= j < keys@.len() ==> all[j] == (#[trigger] keys@[j]).view(),
                    picked(start, all) == entries_view(result@) + picked(
                        entries_view(existing@),
                        all.skip(k as int),
                    ),
                decreases keys@.len() - k,
            {
                let ghost rest = all.skip(k as int);
                assert(rest.drop_first() =~= all.skip(k + 1));
                match &keys[k] {
                    JsonValue::String(s) => {
                        if let Some(v) = take(&mut existing, s) {
                            result.push((s.clone(), v));
                        }
                    },
                    _ => {},
                }
                k = k + 1;
            }
            object(result)
        },
        _ => JsonValue::Null,
    }
}

/// Removes the data of the extension `ext_guid`.
pub fn clear(conn: &mut ExtensionData, ext_guid: &str)
    ensures
        final(conn)@ == without_key(old(conn)@, ext_guid@),
{
    remove_from_db(conn, ext_guid)
}

} // verus!
