use vstd::prelude::*;

use crate::text::{decimal, u32_to_decimal};

verus! {

/// The mathematical value of a JSON document: numbers are kept as the text that writes them,
/// and an object is the sequence of its entries in order.
pub enum JsonView {
    Null,
    Bool(bool),
    Number(Seq<char>),
    Str(Seq<char>),
    Array(Seq<JsonView>),
    Object(Seq<(Seq<char>, JsonView)>),
}

/// A JSON value. An object holds its entries in order; a lookup by key finds the first entry
/// with that key (an object read from a JSON document has each key once).
#[derive(Debug)]
pub enum Json {
    Null,
    Bool(bool),
    Number(String),
    Str(String),
    Array(Vec<Json>),
    Object(Vec<(String, Json)>),
}

impl Json {
    pub open spec fn view_items(items: Seq<Json>) -> Seq<JsonView>
        decreases items,
    {
        if items.len() == 0 {
            Seq::empty()
        } else {
            Self::view_items(items.subrange(0, items.len() - 1)).push(items[items.len() - 1].view())
        }
    }

    pub open spec fn view_entries(entries: Seq<(String, Json)>) -> Seq<(Seq<char>, JsonView)>
        decreases entries,
    {
        if entries.len() == 0 {
            Seq::empty()
        } else {
            Self::view_entries(entries.subrange(0, entries.len() - 1)).push(
                (entries[entries.len() - 1].0@, entries[entries.len() - 1].1.view()),
            )
        }
    }

    pub open spec fn view(&self) -> JsonView
        decreases self,
    {
        match self {
            Json::Null => JsonView::Null,
            Json::Bool(b) => JsonView::Bool(*b),
            Json::Number(n) => JsonView::Number(n@),
            Json::Str(s) => JsonView::Str(s@),
            Json::Array(items) => JsonView::Array(Self::view_items(items@)),
            Json::Object(entries) => JsonView::Object(Self::view_entries(entries@)),
        }
    }
}

/// The value of the first entry of `entries` whose key is `key`.
pub open spec fn entries_get(entries: Seq<(Seq<char>, JsonView)>, key: Seq<char>) -> Option<JsonView>
    decreases entries.len(),
{
    if entries.len() == 0 {
        None
    } else if entries[0].0 == key {
        Some(entries[0].1)
    } else {
        entries_get(entries.drop_first(), key)
    }
}

impl JsonView {
    /// `value.get(key)`: the member `key` of an object, and nothing for any other value.
    pub open spec fn get(self, key: Seq<char>) -> Option<JsonView> {
        match self {
            JsonView::Object(entries) => entries_get(entries, key),
            _ => None,
        }
    }

    /// `value.as_str()`: the text of a string, and nothing for any other value.
    pub open spec fn as_str(self) -> Option<Seq<char>> {
        match self {
            JsonView::Str(s) => Some(s),
            _ => None,
        }
    }
}

/// The member `key` of `v`, where `v` is there.
pub open spec fn opt_get(v: Option<JsonView>, key: Seq<char>) -> Option<JsonView> {
    match v {
        Some(j) => j.get(key),
        None => None,
    }
}

/// The text of `v`, where `v` is there and is a string.
pub open spec fn opt_as_str(v: Option<JsonView>) -> Option<Seq<char>> {
    match v {
        Some(j) => j.as_str(),
        None => None,
    }
}

pub proof fn lemma_view_entries(entries: Seq<(String, Json)>)
    ensures
        Json::view_entries(entries).len() == entries.len(),
        forall|k: int|
            0 <= k < entries.len() ==> #[trigger] Json::view_entries(entries)[k] == (
                entries[k].0@,
                entries[k].1@,
            ),
    decreases entries.len(),
{
    if entries.len() > 0 {
        lemma_view_entries(entries.subrange(0, entries.len() - 1));
    }
}

pub proof fn lemma_view_entries_push(entries: Seq<(String, Json)>, e: (String, Json))
    ensures
        Json::view_entries(entries.push(e)) == Json::view_entries(entries).push((e.0@, e.1@)),
{
    assert(entries.push(e).subrange(0, entries.len() as int) =~= entries);
}

impl Json {
    /// The member `key` of an object (`serde_json::Value::get` with a string key).
    pub fn get(&self, key: &str) -> (r: Option<&Json>)
        ensures
            match r {
                Some(j) => self@.get(key@) == Some(j@),
                None => self@.get(key@) is None,
            },
    {
        match self {
            Json::Object(entries) => {
                let k = String::from_str(key);
                let n = entries.len();
                let mut i: usize = 0;
                proof {
                    lemma_view_entries(entries@);
                    assert(Json::view_entries(entries@).skip(0) =~= Json::view_entries(entries@));
                }
                while i < n
                    invariant
                        n == entries.len(),
                        i <= n,
                        k@ == key@,
                        self@ == JsonView::Object(Json::view_entries(entries@)),
                        Json::view_entries(entries@).len() == n,
                        forall|m: int|
                            0 <= m < n ==> #[trigger] Json::view_entries(entries@)[m] == (
                                entries@[m].0@,
                                entries@[m].1@,
                            ),
                        entries_get(Json::view_entries(entries@), key@) == entries_get(
                            Json::view_entries(entries@).skip(i as int),
                            key@,
                        ),
                    decreases n - i,
                {
                    let ghost rest = Json::view_entries(entries@).skip(i as int);
                    assert(rest[0] == Json::view_entries(entries@)[i as int]);
                    if entries[i].0 == k {
                        return Some(&entries[i].1);
                    }
                    assert(rest.drop_first() =~= Json::view_entries(entries@).skip(i + 1));
                    i += 1;
                }
                None
            },
            _ => None,
        }
    }

    /// The text of a string (`serde_json::Value::as_str`).
    pub fn as_str(&self) -> (r: Option<&str>)
        ensures
            match r {
                Some(s) => self@.as_str() == Some(s@),
                None => self@.as_str() is None,
            },
    {
        match self {
            Json::Str(s) => Some(s.as_str()),
            _ => None,
        }
    }
}

/// A JSON string holding `s`.
pub fn str_value(s: &str) -> (r: Json)
    ensures
        r@ == JsonView::Str(s@),
{
    Json::Str(String::from_str(s))
}

/// A JSON number holding `n`.
pub fn number_value(n: u32) -> (r: Json)
    ensures
        r@ == JsonView::Number(decimal(n as nat)),
{
    Json::Number(u32_to_decimal(n))
}

/// Appends the entry `key: value` to an object's entries.
pub fn push_entry(entries: &mut Vec<(String, Json)>, key: &str, value: Json)
    ensures
        Json::view_entries(final(entries)@) == Json::view_entries(old(entries)@).push(
            (key@, value@),
        ),
{
    let e = (String::from_str(key), value);
    proof {
        lemma_view_entries_push(entries@, e);
    }
    entries.push(e);
}


/// `x` and `y` are objects with the same keys in the same order, whose values are equal under
/// every key outside `keys`.
pub open spec fn agree_except(x: JsonView, y: JsonView, keys: Set<Seq<char>>) -> bool {
    match (x, y) {
        (JsonView::Object(a), JsonView::Object(b)) => {
            &&& a.len() == b.len()
            &&& forall|i: int|
                0 <= i < a.len() ==> #[trigger] a[i].0 == b[i].0 && (!keys.contains(a[i].0)
                    ==> a[i].1 == b[i].1)
        },
        _ => false,
    }
}

/// The first entry with key `k` is the one at `i` when no entry before it has that key.
pub proof fn lemma_entries_get_at(entries: Seq<(Seq<char>, JsonView)>, k: Seq<char>, i: int)
    requires
        0 <= i < entries.len(),
        entries[i].0 == k,
        forall|j: int| 0 <= j < i ==> #[trigger] entries[j].0 != k,
    ensures
        entries_get(entries, k) == Some(entries[i].1),
    decreases i,
{
    if i > 0 {
        assert(entries[0].0 != k);
        assert forall|j: int| 0 <= j < i - 1 implies #[trigger] entries.drop_first()[j].0 != k by {
            assert(entries.drop_first()[j] == entries[j + 1]);
        }
        lemma_entries_get_at(entries.drop_first(), k, i - 1);
    }
}


#[verifier::external_type_specification]
#[verifier::external_body]
pub struct ExJsonValue(serde_json::Value);

/// Converts a `serde_json::Value` into a `Json`, kind for kind (a number as the text that
/// `serde_json` writes for it, an object's entries in the map's order). Nothing is claimed of it
/// by itself: `read_json_text` names what the whole reading gives.
#[verifier::external_body]
fn json_of_value(v: &serde_json::Value) -> Json {
    match v {
        serde_json::Value::Null => Json::Null,
        serde_json::Value::Bool(b) => Json::Bool(*b),
        serde_json::Value::Number(n) => Json::Number(n.to_string()),
        serde_json::Value::String(s) => Json::Str(s.clone()),
        serde_json::Value::Array(a) => Json::Array(a.iter().map(json_of_value).collect()),
        serde_json::Value::Object(m) => Json::Object(
            m.iter().map(|(k, x)| (k.clone(), json_of_value(x))).collect(),
        ),
    }
}

/// A name for what reading the text `text` as a JSON document with `serde_json::from_str`
/// gives: the document, or the text of the error that `serde_json` reports.
pub uninterp spec fn json_text_reading(text: Seq<char>) -> Result<JsonView, Seq<char>>;

/// Calls `serde_json::from_str::<serde_json::Value>` and converts the document into a `Json`,
/// or the error into its text. Claimed: the result is `json_text_reading` of the text, a
/// function of the text alone (`serde_json` keeps an object's keys once each, sorted).
#[verifier::external_body]
pub fn read_json_text(text: &str) -> (r: Result<Json, String>)
    ensures
        match r {
            Ok(j) => json_text_reading(text@) == Ok::<JsonView, Seq<char>>(j@),
            Err(e) => json_text_reading(text@) == Err::<JsonView, Seq<char>>(e@),
        },
{
    serde_json::from_str::<serde_json::Value>(text).map(|v| json_of_value(&v)).map_err(
        |e| e.to_string(),
    )
}

} // verus!
