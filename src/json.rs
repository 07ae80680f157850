//! A plain-value model of JSON documents, as the protocol layer reads and
//! writes them.
use vstd::prelude::*;

verus! {

/// A JSON value. Object members keep the order in which they were written;
/// a lookup finds the first member with the given key.
#[derive(Debug)]
pub enum Json {
    Null,
    Bool(bool),
    /// A non-negative integer.
    UInt(u64),
    /// A negative integer (a non-negative one is accepted as well).
    Int(i64),
    /// Any other number, held as its decimal text.
    Float(String),
    Str(String),
    Array(Vec<Json>),
    Object(Vec<(String, Json)>),
}

/// The value of the first member named `key`, if any.
pub open spec fn lookup(entries: Seq<(String, Json)>, key: Seq<char>) -> Option<Json>
    decreases entries.len(),
{
    if entries.len() == 0 {
        None
    } else if entries[0].0@ == key {
        Some(entries[0].1)
    } else {
        lookup(entries.drop_first(), key)
    }
}

/// The member `key` of an object; `None` for a missing member or a non-object.
pub open spec fn field(j: Json, key: Seq<char>) -> Option<Json> {
    match j {
        Json::Object(entries) => lookup(entries@, key),
        _ => None,
    }
}

/// `true` when `j` is the string `s`.
pub open spec fn is_text(j: Json, s: Seq<char>) -> bool {
    match j {
        Json::Str(t) => t@ == s,
        _ => false,
    }
}

/// `true` when `j` is an object whose members are named `keys`, in order.
pub open spec fn has_keys(j: Json, keys: Seq<Seq<char>>) -> bool {
    match j {
        Json::Object(entries) => entries@.len() == keys.len() && forall|i: int|
            0 <= i < keys.len() ==> #[trigger] entries@[i].0@ == keys[i],
        _ => false,
    }
}

/// The value of the `i`-th member of an object.
pub open spec fn member(j: Json, i: int) -> Json
    recommends
        j is Object,
{
    match j {
        Json::Object(entries) => entries@[i].1,
        _ => Json::Null,
    }
}

proof fn lemma_lookup_from(entries: Seq<(String, Json)>, i: int, key: Seq<char>)
    requires
        0 <= i < entries.len(),
        entries[i].0@ != key,
    ensures
        lookup(entries.subrange(i, entries.len() as int), key) == lookup(
            entries.subrange(i + 1, entries.len() as int),
            key,
        ),
{
    assert(entries.subrange(i, entries.len() as int).drop_first() =~= entries.subrange(
        i + 1,
        entries.len() as int,
    ));
}

/// A string value with the text `s`.
pub fn text(s: &str) -> (r: Json)
    ensures
        is_text(r, s@),
{
    Json::Str(String::from_str(s))
}

/// An object member named `key`.
pub fn entry(key: &str, value: Json) -> (r: (String, Json))
    ensures
        r.0@ == key@,
        r.1 == value,
{
    (String::from_str(key), value)
}

/// `true` when `s` holds the text of `lit`.
pub fn text_eq(s: &String, lit: &str) -> (r: bool)
    ensures
        r == (s@ == lit@),
{
    let t = String::from_str(lit);
    *s == t
}

/// Index of the first member named `key`.
fn position(entries: &Vec<(String, Json)>, key: &str) -> (r: Option<usize>)
    ensures
        match r {
            Some(i) => i < entries@.len() && lookup(entries@, key@) == Some(entries@[i as int].1),
            None => lookup(entries@, key@) is None,
        },
{
    let mut i: usize = 0;
    assert(entries@.subrange(0, entries@.len() as int) =~= entries@);
    while i < entries.len()
        invariant
            i <= entries@.len(),
            lookup(entries@, key@) == lookup(entries@.subrange(i as int, entries@.len() as int), key@),
        decreases entries@.len() - i,
    {
        if text_eq(&entries[i].0, key) {
            return Some(i);
        }
        proof {
            lemma_lookup_from(entries@, i as int, key@);
        }
        i = i + 1;
    }
    None
}

impl Json {
    /// The member `key` of an object.
    pub fn get(&self, key: &str) -> (r: Option<&Json>)
        ensures
            match r {
                Some(v) => field(*self, key@) == Some(*v),
                None => field(*self, key@) is None,
            },
    {
        match self {
            Json::Object(entries) => {
                match position(entries, key) {
                    Some(i) => Some(&entries[i].1),
                    None => None,
                }
            },
            _ => None,
        }
    }

    /// Takes the member `key` out of an object, consuming it.
    pub fn into_field(self, key: &str) -> (r: Option<Json>)
        ensures
            r == field(self, key@),
    {
        match self {
            Json::Object(entries) => {
                match position(&entries, key) {
                    Some(i) => {
                        let mut entries = entries;
                        let (_, v) = entries.remove(i);
                        Some(v)
                    },
                    None => None,
                }
            },
            _ => None,
        }
    }

    /// `true` for `null`.
    pub fn is_null(&self) -> (r: bool)
        ensures
            r == (*self is Null),
    {
        match self {
            Json::Null => true,
            _ => false,
        }
    }
}

} // verus!
