//! A JSON document model: what the launch-configuration logic and the RPC
//! protocol read and build.
use vstd::prelude::*;

verus! {

/// A JSON value. Numbers keep their literal text; objects keep their entries in order.
#[derive(Debug)]
pub enum Json {
    Null,
    Bool(bool),
    Number(String),
    Str(String),
    Array(Vec<Json>),
    Object(Vec<(String, Json)>),
}

/// The mathematical form of a [`Json`] value.
pub enum JsonV {
    Null,
    Bool(bool),
    Number(Seq<char>),
    Str(Seq<char>),
    Array(Seq<JsonV>),
    Object(Seq<(Seq<char>, JsonV)>),
}

impl Json {
    /// The mathematical form of this value.
    pub open spec fn jv(self) -> JsonV
        decreases self,
    {
        match self {
            Json::Null => JsonV::Null,
            Json::Bool(b) => JsonV::Bool(b),
            Json::Number(n) => JsonV::Number(n@),
            Json::Str(s) => JsonV::Str(s@),
            Json::Array(items) => JsonV::Array(
                Seq::new(
                    items@.len(),
                    |i: int|
                        if 0 <= i < items@.len() {
                            proof {
                                assert(decreases_to!(items => items@));
                                assert(decreases_to!(items@ => items@[i]));
                            }
                            items@[i].jv()
                        } else {
                            JsonV::Null
                        },
                ),
            ),
            Json::Object(es) => JsonV::Object(
                Seq::new(
                    es@.len(),
                    |i: int|
                        if 0 <= i < es@.len() {
                            proof {
                                assert(decreases_to!(es => es@));
                                assert(decreases_to!(es@ => es@[i]));
                                assert(decreases_to!(es@[i] => es@[i].1));
                            }
                            (es@[i].0@, es@[i].1.jv())
                        } else {
                            (Seq::empty(), JsonV::Null)
                        },
                ),
            ),
        }
    }
}

impl View for Json {
    type V = JsonV;

    open spec fn view(&self) -> JsonV {
        self.jv()
    }
}

/// The value stored under `key` in an object's entries: the first entry with that key.
pub open spec fn entries_get(es: Seq<(Seq<char>, JsonV)>, key: Seq<char>) -> Option<JsonV>
    decreases es.len(),
{
    if es.len() == 0 {
        None
    } else if es[0].0 == key {
        Some(es[0].1)
    } else {
        entries_get(es.drop_first(), key)
    }
}

/// The value stored under `key` when `v` is an object (`Value::get` with a string key).
pub open spec fn get_field(v: JsonV, key: Seq<char>) -> Option<JsonV> {
    match v {
        JsonV::Object(es) => entries_get(es, key),
        _ => None,
    }
}

/// The entries with `key` bound to `value` when `key` is absent; unchanged otherwise
/// (`Map::entry(key).or_insert(value)`).
pub open spec fn entries_or_insert(
    es: Seq<(Seq<char>, JsonV)>,
    key: Seq<char>,
    value: JsonV,
) -> Seq<(Seq<char>, JsonV)> {
    if entries_get(es, key) is Some {
        es
    } else {
        es.push((key, value))
    }
}

/// The entries with the first entry under `key` given `value`, or `(key, value)` added
/// at the end when the key is absent (`Map::insert`).
pub open spec fn entries_set(
    es: Seq<(Seq<char>, JsonV)>,
    key: Seq<char>,
    value: JsonV,
) -> Seq<(Seq<char>, JsonV)>
    decreases es.len(),
{
    if es.len() == 0 {
        seq![(key, value)]
    } else if es[0].0 == key {
        es.update(0, (key, value))
    } else {
        seq![es[0]] + entries_set(es.drop_first(), key, value)
    }
}

/// A JSON string value.
pub open spec fn jstr(s: Seq<char>) -> JsonV {
    JsonV::Str(s)
}

impl Json {
    /// A JSON string holding a copy of `s`.
    pub fn string(s: &str) -> (r: Json)
        ensures
            r@ == JsonV::Str(s@),
    {
        Json::Str(String::from_str(s))
    }

    /// An object with the given entries, in order.
    pub fn object(entries: Vec<(String, Json)>) -> (r: Json)
        ensures
            r@ == JsonV::Object(entries_view(entries@)),
    {
        proof {
            lemma_entries_view(entries@);
        }
        Json::Object(entries)
    }

    /// An array with the given items, in order.
    pub fn array(items: Vec<Json>) -> (r: Json)
        ensures
            r@ == JsonV::Array(items_view(items@)),
    {
        proof {
            lemma_items_view(items@);
        }
        Json::Array(items)
    }

    /// The index of the first entry under `key`, if any.
    pub fn entry_index(es: &Vec<(String, Json)>, key: &str) -> (r: Option<usize>)
        ensures
            match r {
                Some(i) => i < es@.len() && es@[i as int].0@ == key@ && entries_get(
                    entries_view(es@),
                    key@,
                ) == Some(es@[i as int].1@) && forall|j: int|
                    0 <= j < i ==> (#[trigger] es@[j]).0@ != key@,
                None => entries_get(entries_view(es@), key@) is None && forall|j: int|
                    0 <= j < es@.len() ==> (#[trigger] es@[j]).0@ != key@,
            },
    {
        let mut i: usize = 0;
        assert(entries_view(es@).skip(0) =~= entries_view(es@));
        while i < es.len()
            invariant
                i <= es.len(),
                entries_get(entries_view(es@), key@) == entries_get(
                    entries_view(es@).skip(i as int),
                    key@,
                ),
                forall|j: int| 0 <= j < i ==> (#[trigger] es@[j]).0@ != key@,
            decreases es.len() - i,
        {
            let ghost t = entries_view(es@).skip(i as int);
            assert(t[0] == (es@[i as int].0@, es@[i as int].1@));
            if crate::text::str_eq(es[i].0.as_str(), key) {
                return Some(i);
            }
            assert(t.drop_first() =~= entries_view(es@).skip(i + 1));
            i = i + 1;
        }
        None
    }

    /// The value under `key` when this value is an object.
    pub fn get(&self, key: &str) -> (r: Option<&Json>)
        ensures
            match r {
                Some(v) => get_field(self@, key@) == Some(v@),
                None => get_field(self@, key@) is None,
            },
    {
        match self {
            Json::Object(es) => {
                proof {
                    lemma_entries_view(es@);
                }
                match Json::entry_index(es, key) {
                    Some(i) => Some(&es[i].1),
                    None => None,
                }
            },
            _ => None,
        }
    }

    /// The text of a string value (`Value::as_str`).
    pub fn as_str(&self) -> (r: Option<&str>)
        ensures
            match r {
                Some(s) => self@ == JsonV::Str(s@),
                None => !(self@ is Str),
            },
    {
        match self {
            Json::Str(s) => Some(s.as_str()),
            _ => None,
        }
    }

    /// The value of a boolean (`Value::as_bool`).
    pub fn as_bool(&self) -> (r: Option<bool>)
        ensures
            match r {
                Some(b) => self@ == JsonV::Bool(b),
                None => !(self@ is Bool),
            },
    {
        match self {
            Json::Bool(b) => Some(*b),
            _ => None,
        }
    }
}

/// The mathematical form of a list of object entries.
pub open spec fn entries_view(es: Seq<(String, Json)>) -> Seq<(Seq<char>, JsonV)> {
    Seq::new(es.len(), |i: int| (es[i].0@, es[i].1@))
}

/// The mathematical form of a list of values.
pub open spec fn items_view(items: Seq<Json>) -> Seq<JsonV> {
    Seq::new(items.len(), |i: int| items[i]@)
}

/// An object's view is the view of its entries; an array's is the view of its items.
pub proof fn lemma_entries_view(es: Seq<(String, Json)>)
    ensures
        forall|v: Vec<(String, Json)>| v@ == es ==> #[trigger] Json::Object(v)@ == JsonV::Object(
            entries_view(es),
        ),
{
    assert forall|v: Vec<(String, Json)>| v@ == es implies #[trigger] Json::Object(v)@
        == JsonV::Object(entries_view(es)) by {
        if let JsonV::Object(x) = Json::Object(v)@ {
            assert(x =~= entries_view(es));
        }
    }
}

/// An array's view is the view of its items.
pub proof fn lemma_items_view(items: Seq<Json>)
    ensures
        forall|v: Vec<Json>| v@ == items ==> #[trigger] Json::Array(v)@ == JsonV::Array(
            items_view(items),
        ),
{
    assert forall|v: Vec<Json>| v@ == items implies #[trigger] Json::Array(v)@ == JsonV::Array(
        items_view(items),
    ) by {
        if let JsonV::Array(x) = Json::Array(v)@ {
            assert(x =~= items_view(items));
        }
    }
}

/// Looking a key up after it has been set gives the value it was set to.
pub proof fn lemma_get_after_set(es: Seq<(Seq<char>, JsonV)>, k: Seq<char>, v: JsonV)
    ensures
        entries_get(entries_set(es, k, v), k) == Some(v),
    decreases es.len(),
{
    if es.len() > 0 && es[0].0 != k {
        lemma_get_after_set(es.drop_first(), k, v);
        assert((seq![es[0]] + entries_set(es.drop_first(), k, v)).drop_first() =~= entries_set(
            es.drop_first(),
            k,
            v,
        ));
    }
}

/// Setting one key leaves the others as they were.
pub proof fn lemma_get_after_set_other(
    es: Seq<(Seq<char>, JsonV)>,
    k: Seq<char>,
    v: JsonV,
    k2: Seq<char>,
)
    requires
        k2 != k,
    ensures
        entries_get(entries_set(es, k, v), k2) == entries_get(es, k2),
    decreases es.len(),
{
    if es.len() == 0 {
        assert(seq![(k, v)].drop_first() =~= Seq::<(Seq<char>, JsonV)>::empty());
        assert(entries_get(Seq::<(Seq<char>, JsonV)>::empty(), k2) is None);
    } else if es[0].0 == k {
        assert(es.update(0, (k, v)).drop_first() =~= es.drop_first());
    } else {
        lemma_get_after_set_other(es.drop_first(), k, v, k2);
        assert((seq![es[0]] + entries_set(es.drop_first(), k, v)).drop_first() =~= entries_set(
            es.drop_first(),
            k,
            v,
        ));
    }
}

/// Setting a key to the value it already has changes nothing.
pub proof fn lemma_set_existing_value(es: Seq<(Seq<char>, JsonV)>, k: Seq<char>, v: JsonV)
    requires
        entries_get(es, k) == Some(v),
    ensures
        entries_set(es, k, v) == es,
    decreases es.len(),
{
    if es[0].0 == k {
        assert(es.update(0, (k, v)) =~= es);
    } else {
        lemma_set_existing_value(es.drop_first(), k, v);
        assert(seq![es[0]] + es.drop_first() =~= es);
    }
}

/// Setting the first entry under a key is replacing that entry.
pub proof fn lemma_set_at_first_index(
    es: Seq<(Seq<char>, JsonV)>,
    k: Seq<char>,
    v: JsonV,
    i: int,
)
    requires
        0 <= i < es.len(),
        es[i].0 == k,
        forall|j: int| 0 <= j < i ==> (#[trigger] es[j]).0 != k,
    ensures
        entries_set(es, k, v) == es.update(i, (k, v)),
        entries_get(es, k) == Some(es[i].1),
    decreases i,
{
    if i > 0 {
        assert(es[0].0 != k);
        assert forall|j: int| 0 <= j < i - 1 implies (#[trigger] es.drop_first()[j]).0 != k by {
            assert(es.drop_first()[j] == es[j + 1]);
        }
        lemma_set_at_first_index(es.drop_first(), k, v, i - 1);
        assert(seq![es[0]] + es.drop_first().update(i - 1, (k, v)) =~= es.update(i, (k, v)));
    }
}

/// Looking a key up after an entry has been added at the end.
pub proof fn lemma_get_after_push(
    es: Seq<(Seq<char>, JsonV)>,
    k: Seq<char>,
    v: JsonV,
    k2: Seq<char>,
)
    ensures
        entries_get(es.push((k, v)), k2) == if entries_get(es, k2) is Some {
            entries_get(es, k2)
        } else if k == k2 {
            Some(v)
        } else {
            None
        },
    decreases es.len(),
{
    if es.len() == 0 {
        assert(es.push((k, v)).drop_first() =~= Seq::<(Seq<char>, JsonV)>::empty());
        assert(entries_get(Seq::<(Seq<char>, JsonV)>::empty(), k2) is None);
    } else {
        assert(es.push((k, v)).drop_first() =~= es.drop_first().push((k, v)));
        lemma_get_after_push(es.drop_first(), k, v, k2);
    }
}

} // verus!
