//! A generic JSON document tree, with a mathematical model.
//!
//! The message layer inspects and rewrites loosely shaped JSON messages
//! before structural decoding, so it works on a tree of key/value nodes,
//! arrays and scalars rather than on the final typed structs.

use vstd::prelude::*;

verus! {

/// The mathematical model of a JSON document tree.
///
/// Numbers that fit `i64` are modelled exactly; any other number is carried
/// opaquely as its decimal rendering (this layer never computes with one).
/// An object is a sequence of key/value pairs in document order; key lookup
/// takes the first occurrence.
#[verifier::ext_equal]
pub enum JsonSpec {
    /// JSON `null`.
    Null,
    /// A boolean.
    Bool(bool),
    /// An integer number.
    Int(i64),
    /// A number that does not fit `i64`, as its decimal rendering.
    Num(Seq<char>),
    /// A string.
    Str(Seq<char>),
    /// An array.
    Arr(Seq<JsonSpec>),
    /// An object: key/value pairs in document order.
    Obj(Seq<(Seq<char>, JsonSpec)>),
}

/// A JSON document tree.
#[derive(Debug)]
pub enum JsonValue {
    /// JSON `null`.
    Null,
    /// A boolean.
    Bool(bool),
    /// An integer number.
    Int(i64),
    /// A number that does not fit `i64`, as its decimal rendering.
    Num(String),
    /// A string.
    Str(String),
    /// An array.
    Arr(Vec<JsonValue>),
    /// An object: key/value pairs in document order.
    Obj(Vec<(String, JsonValue)>),
}

/// The model of a JSON document tree.
pub open spec fn json_view(v: JsonValue) -> JsonSpec
    decreases v,
{
    match v {
        JsonValue::Null => JsonSpec::Null,
        JsonValue::Bool(b) => JsonSpec::Bool(b),
        JsonValue::Int(i) => JsonSpec::Int(i),
        JsonValue::Num(s) => JsonSpec::Num(s@),
        JsonValue::Str(s) => JsonSpec::Str(s@),
        JsonValue::Arr(items) => JsonSpec::Arr(
            Seq::new(
                items@.len(),
                |i: int|
                    if 0 <= i < items@.len() {
                        json_view(items@[i])
                    } else {
                        JsonSpec::Null
                    },
            ),
        ),
        JsonValue::Obj(entries) => JsonSpec::Obj(
            Seq::new(
                entries@.len(),
                |i: int|
                    if 0 <= i < entries@.len() {
                        (entries@[i].0@, json_view(entries@[i].1))
                    } else {
                        (Seq::empty(), JsonSpec::Null)
                    },
            ),
        ),
    }
}

impl View for JsonValue {
    type V = JsonSpec;

    #[verifier::inline]
    open spec fn view(&self) -> JsonSpec {
        json_view(*self)
    }
}

/// The model of a sequence of object entries: each key/value pair, viewed.
pub open spec fn entries_view(entries: Seq<(String, JsonValue)>) -> Seq<(Seq<char>, JsonSpec)> {
    Seq::new(entries.len(), |i: int| (entries[i].0@, entries[i].1@))
}

/// The model of a sequence of array items: each item, viewed.
pub open spec fn items_view(items: Seq<JsonValue>) -> Seq<JsonSpec> {
    Seq::new(items.len(), |i: int| items[i]@)
}

/// Key lookup in an object's entry list: the first entry with the given key.
pub open spec fn spec_lookup(entries: Seq<(Seq<char>, JsonSpec)>, key: Seq<char>) -> Option<
    JsonSpec,
>
    decreases entries.len(),
{
    if entries.len() == 0 {
        None
    } else if entries[0].0 == key {
        Some(entries[0].1)
    } else {
        spec_lookup(entries.drop_first(), key)
    }
}

/// Whether an object's entry list carries the given key.
pub open spec fn spec_has_key(entries: Seq<(Seq<char>, JsonSpec)>, key: Seq<char>) -> bool {
    spec_lookup(entries, key) is Some
}

/// Look a key up in an object's entry list; the first match wins.
pub fn obj_lookup<'a>(entries: &'a Vec<(String, JsonValue)>, key: &String) -> (r: Option<
    &'a JsonValue,
>)
    ensures
        match spec_lookup(entries_view(entries@), key@) {
            Some(v) => r matches Some(x) && x@ == v,
            None => r is None,
        },
{
    let ghost full = entries_view(entries@);
    proof {
        assert(full.skip(0) =~= full);
    }
    let mut i: usize = 0;
    #[verifier::loop_isolation(false)]
    while i < entries.len()
        invariant
            i <= entries.len(),
            spec_lookup(full.skip(i as int), key@) == spec_lookup(full, key@),
        decreases entries.len() - i,
    {
        proof {
            assert(full.skip(i as int)[0] == full[i as int]);
        }
        if entries[i].0.eq(key) {
            return Some(&entries[i].1);
        }
        proof {
            assert(full.skip(i as int).drop_first() =~= full.skip(i as int + 1));
        }
        i += 1;
    }
    proof {
        assert(full.skip(entries@.len() as int).len() == 0);
    }
    None
}

/// Whether an object's entry list carries the given key.
pub fn obj_has_key(entries: &Vec<(String, JsonValue)>, key: &String) -> (r: bool)
    ensures
        r == spec_has_key(entries_view(entries@), key@),
{
    obj_lookup(entries, key).is_some()
}

/// Whether a node is the given string.
pub fn str_is(v: &JsonValue, s: &str) -> (r: bool)
    ensures
        r == (v@ matches JsonSpec::Str(t) && t == s@),
{
    match v {
        JsonValue::Str(t) => t.eq(&s.to_owned()),
        _ => false,
    }
}

/// An object built from an entry list has the entry list's model.
pub proof fn lemma_obj_view(entries: Vec<(String, JsonValue)>)
    ensures
        JsonValue::Obj(entries)@ == JsonSpec::Obj(entries_view(entries@)),
{
    assert(JsonValue::Obj(entries)@ matches JsonSpec::Obj(s) && s =~~= entries_view(entries@));
}

/// An array built from an item list has the item list's model.
pub proof fn lemma_arr_view(items: Vec<JsonValue>)
    ensures
        JsonValue::Arr(items)@ == JsonSpec::Arr(items_view(items@)),
{
    assert(JsonValue::Arr(items)@ matches JsonSpec::Arr(s) && s =~~= items_view(items@));
}

impl Clone for JsonValue {
    /// A structural copy of the whole tree.
    fn clone(&self) -> (r: Self)
        ensures
            r@ == self@,
        decreases self,
    {
        broadcast use vstd::std_specs::vec::axiom_vec_decreases_to_view;
        broadcast use vstd::seq::axiom_seq_index_decreases;

        match self {
            JsonValue::Null => JsonValue::Null,
            JsonValue::Bool(b) => JsonValue::Bool(*b),
            JsonValue::Int(i) => JsonValue::Int(*i),
            JsonValue::Num(s) => JsonValue::Num(s.clone()),
            JsonValue::Str(s) => JsonValue::Str(s.clone()),
            JsonValue::Arr(items) => {
                let mut out: Vec<JsonValue> = Vec::new();
                let mut i: usize = 0;
                #[verifier::loop_isolation(false)]
                while i < items.len()
                    invariant
                        i <= items.len(),
                        out@.len() == i as int,
                        forall|j: int| 0 <= j < i as int ==> out@[j]@ == items@[j]@,
                    decreases items.len() - i,
                {
                    proof {
                        assert(decreases_to!(*self => *items));
                        assert(decreases_to!(items@ => items@[i as int]));
                    }
                    out.push(items[i].clone());
                    i += 1;
                }
                let r = JsonValue::Arr(out);
                proof {
                    assert(r@ matches JsonSpec::Arr(s) && s =~= self@->Arr_0);
                }
                r
            },
            JsonValue::Obj(entries) => {
                let mut out: Vec<(String, JsonValue)> = Vec::new();
                let mut i: usize = 0;
                #[verifier::loop_isolation(false)]
                while i < entries.len()
                    invariant
                        i <= entries.len(),
                        out@.len() == i as int,
                        forall|j: int| 0 <= j < i as int ==> out@[j].0@ == entries@[j].0@
                            && out@[j].1@ == entries@[j].1@,
                    decreases entries.len() - i,
                {
                    proof {
                        assert(decreases_to!(*self => *entries));
                        assert(decreases_to!(entries@ => entries@[i as int]));
                        assert(decreases_to!(entries@[i as int] => entries@[i as int].1));
                    }
                    let key = entries[i].0.clone();
                    let val = entries[i].1.clone();
                    out.push((key, val));
                    i += 1;
                }
                let r = JsonValue::Obj(out);
                proof {
                    assert(r@ matches JsonSpec::Obj(s) && s =~= self@->Obj_0);
                }
                r
            },
        }
    }
}

} // verus!
