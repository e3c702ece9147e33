//! A JSON value model for the wire envelopes: numbers are carried as their
//! literal text, objects as ordered field lists, so every value the dispatcher
//! reads or builds is plain data that contracts can speak about.
use vstd::prelude::*;

verus! {

use vstd::string::StringExecFns;

/// A JSON value. Numbers keep their literal text so no floating point is
/// needed to carry them through unchanged.
pub enum Json {
    Null,
    Bool(bool),
    Num(String),
    Str(String),
    Arr(Vec<Json>),
    Obj(Vec<JsonField>),
}

/// One key/value pair of a JSON object.
pub struct JsonField {
    pub key: String,
    pub value: Json,
}

/// Deep equality of two JSON values: equal shape, equal text of every key,
/// string and number, equal elements in order.
pub open spec fn jeq(a: Json, b: Json) -> bool
    decreases a,
{
    match (a, b) {
        (Json::Null, Json::Null) => true,
        (Json::Bool(x), Json::Bool(y)) => x == y,
        (Json::Num(x), Json::Num(y)) => x@ == y@,
        (Json::Str(x), Json::Str(y)) => x@ == y@,
        (Json::Arr(x), Json::Arr(y)) => x@.len() == y@.len() && (forall|i: int|
            0 <= i < x@.len() ==> jeq(#[trigger] x@[i], y@[i])),
        (Json::Obj(x), Json::Obj(y)) => x@.len() == y@.len() && (forall|i: int|
            0 <= i < x@.len() ==> (#[trigger] x@[i]).key@ == y@[i].key@ && jeq(x@[i].value, y@[i].value)),
        _ => false,
    }
}

/// Every value is deep-equal to itself.
pub proof fn lemma_jeq_refl(a: Json)
    ensures
        jeq(a, a),
    decreases a,
{
    match a {
        Json::Arr(x) => {
            assert forall|i: int| 0 <= i < x@.len() implies jeq(#[trigger] x@[i], x@[i]) by {
                lemma_jeq_refl(x@[i]);
            }
        }
        Json::Obj(x) => {
            assert forall|i: int| 0 <= i < x@.len() implies (#[trigger] x@[i]).key@ == x@[i].key@
                && jeq(x@[i].value, x@[i].value) by {
                lemma_jeq_refl(x@[i].value);
            }
        }
        _ => {}
    }
}

/// Deep equality is transitive.
pub proof fn lemma_jeq_trans(a: Json, b: Json, c: Json)
    requires
        jeq(a, b),
        jeq(b, c),
    ensures
        jeq(a, c),
    decreases a,
{
    match (a, b, c) {
        (Json::Arr(x), Json::Arr(y), Json::Arr(z)) => {
            assert forall|i: int| 0 <= i < x@.len() implies jeq(#[trigger] x@[i], z@[i]) by {
                assert(jeq(x@[i], y@[i]));
                assert(jeq(y@[i], z@[i]));
                lemma_jeq_trans(x@[i], y@[i], z@[i]);
            }
        }
        (Json::Obj(x), Json::Obj(y), Json::Obj(z)) => {
            assert forall|i: int| 0 <= i < x@.len() implies (#[trigger] x@[i]).key@ == z@[i].key@
                && jeq(x@[i].value, z@[i].value) by {
                assert(jeq(x@[i].value, y@[i].value));
                assert(jeq(y@[i].value, z@[i].value));
                lemma_jeq_trans(x@[i].value, y@[i].value, z@[i].value);
            }
        }
        _ => {}
    }
}

/// The value under `key` in an ordered field list: the first field whose key
/// has that text, if any.
pub open spec fn field_lookup(fields: Seq<JsonField>, key: Seq<char>) -> Option<Json>
    decreases fields.len(),
{
    if fields.len() == 0 {
        None
    } else if fields[0].key@ == key {
        Some(fields[0].value)
    } else {
        field_lookup(fields.skip(1), key)
    }
}

/// The value under `key` of an object, `None` for any other shape.
pub open spec fn obj_lookup(v: Json, key: Seq<char>) -> Option<Json> {
    match v {
        Json::Obj(fields) => field_lookup(fields@, key),
        _ => None,
    }
}

/// Whether `a` equals the string literal `lit`, as texts.
pub fn str_is(a: &String, lit: &str) -> (r: bool)
    ensures
        r == (a@ == lit@),
{
    let l = String::from_str(lit);
    *a == l
}

/// Looks up `key` in a field list; returns the first match, as `field_lookup` says.
pub fn obj_get<'a>(fields: &'a Vec<JsonField>, key: &str) -> (r: Option<&'a Json>)
    ensures
        match r {
            Some(v) => field_lookup(fields@, key@) == Some(*v),
            None => field_lookup(fields@, key@) is None,
        },
{
    let mut i: usize = 0;
    proof {
        assert(fields@.skip(0) =~= fields@);
    }
    while i < fields.len()
        invariant
            i <= fields@.len(),
            field_lookup(fields@, key@) == field_lookup(fields@.skip(i as int), key@),
        decreases fields@.len() - i,
    {
        if str_is(&fields[i].key, key) {
            assert(fields@.skip(i as int)[0] == fields@[i as int]);
            return Some(&fields[i].value);
        }
        proof {
            assert(fields@.skip(i as int).skip(1) =~= fields@.skip(i as int + 1));
        }
        i += 1;
    }
    proof {
        assert(fields@.skip(i as int).len() == 0);
    }
    None
}

impl Json {
    /// A structurally equal copy of this value.
    #[verifier::loop_isolation(false)]
    pub fn deep_clone(&self) -> (r: Json)
        ensures
            jeq(r, *self),
        decreases *self,
    {
        match self {
            Json::Null => Json::Null,
            Json::Bool(b) => Json::Bool(*b),
            Json::Num(s) => Json::Num(s.clone()),
            Json::Str(s) => Json::Str(s.clone()),
            Json::Arr(items) => {
                let mut out: Vec<Json> = Vec::new();
                let mut i: usize = 0;
                while i < items.len()
                    invariant
                        i <= items@.len(),
                        out@.len() == i,
                        forall|j: int| 0 <= j < i ==> jeq(#[trigger] out@[j], items@[j]),
                    decreases items@.len() - i,
                {
                    proof {
                        assert(*items == self->Arr_0);
                        assert(decreases_to!(*self => self->Arr_0));
                        assert(decreases_to!(*items => items@[i as int]));
                    }
                    let c = items[i].deep_clone();
                    out.push(c);
                    i += 1;
                }
                Json::Arr(out)
            }
            Json::Obj(fields) => {
                let mut out: Vec<JsonField> = Vec::new();
                let mut i: usize = 0;
                while i < fields.len()
                    invariant
                        i <= fields@.len(),
                        out@.len() == i,
                        forall|j: int| 0 <= j < i ==> (#[trigger] out@[j]).key@ == fields@[j].key@
                            && jeq(out@[j].value, fields@[j].value),
                    decreases fields@.len() - i,
                {
                    proof {
                        assert(*fields == self->Obj_0);
                        assert(decreases_to!(*self => self->Obj_0));
                        assert(decreases_to!(*fields => fields@[i as int]));
                        assert(decreases_to!(fields@[i as int] => fields@[i as int].value));
                    }
                    let c = fields[i].value.deep_clone();
                    let k = fields[i].key.clone();
                    out.push(JsonField { key: k, value: c });
                    i += 1;
                }
                Json::Obj(out)
            }
        }
    }
}

/// Appending a field with a fresh key leaves every other key's lookup as it was.
pub proof fn lemma_lookup_push(fields: Seq<JsonField>, f: JsonField)
    ensures
        field_lookup(fields.push(f), f.key@) == (match field_lookup(fields, f.key@) {
            Some(v) => Some(v),
            None => Some(f.value),
        }),
        forall|k: Seq<char>| k != f.key@ ==> #[trigger] field_lookup(fields.push(f), k)
            == field_lookup(fields, k),
    decreases fields.len(),
{
    let p = fields.push(f);
    if fields.len() == 0 {
        assert(p[0] == f);
        assert(p.skip(1) =~= Seq::<JsonField>::empty());
        assert(field_lookup(p, f.key@) == Some(f.value));
        assert forall|k: Seq<char>| k != f.key@ implies #[trigger] field_lookup(p, k)
            == field_lookup(fields, k) by {
            assert(field_lookup(p.skip(1), k) is None);
            assert(field_lookup(p, k) is None);
        }
    } else {
        lemma_lookup_push(fields.skip(1), f);
        assert(p[0] == fields[0]);
        assert(p.skip(1) =~= fields.skip(1).push(f));
        if fields[0].key@ != f.key@ {
            assert(field_lookup(p, f.key@) == field_lookup(fields.skip(1).push(f), f.key@));
        }
        assert forall|k: Seq<char>| k != f.key@ implies #[trigger] field_lookup(p, k)
            == field_lookup(fields, k) by {
            if fields[0].key@ != k {
                assert(field_lookup(p, k) == field_lookup(fields.skip(1).push(f), k));
                assert(field_lookup(fields.skip(1).push(f), k) == field_lookup(fields.skip(1), k));
            }
        }
    }
}

/// Replacing the value at the first index whose key matches rewrites that key's
/// lookup and no other.
pub proof fn lemma_lookup_update(fields: Seq<JsonField>, i: int, f: JsonField)
    requires
        0 <= i < fields.len(),
        fields[i].key@ == f.key@,
        forall|j: int| 0 <= j < i ==> (#[trigger] fields[j]).key@ != f.key@,
    ensures
        field_lookup(fields.update(i, f), f.key@) == Some(f.value),
        forall|k: Seq<char>| k != f.key@ ==> #[trigger] field_lookup(fields.update(i, f), k)
            == field_lookup(fields, k),
    decreases i,
{
    let up = fields.update(i, f);
    if i == 0 {
        assert(up[0] == f);
        assert forall|k: Seq<char>| k != f.key@ implies #[trigger] field_lookup(up, k)
            == field_lookup(fields, k) by {
            assert(up.skip(1) =~= fields.skip(1));
        }
    } else {
        lemma_lookup_update(fields.skip(1), i - 1, f);
        assert(up[0] == fields[0]);
        assert(up.skip(1) =~= fields.skip(1).update(i - 1, f));
        assert(fields[0].key@ != f.key@);
        assert forall|k: Seq<char>| k != f.key@ implies #[trigger] field_lookup(up, k)
            == field_lookup(fields, k) by {
            if fields[0].key@ != k {
                assert(field_lookup(up, k) == field_lookup(up.skip(1), k));
                assert(field_lookup(fields.skip(1).update(i - 1, f), k)
                    == field_lookup(fields.skip(1), k));
            }
        }
    }
}

/// Sets `key` to `value` in a field list: replaces the first field with that
/// key, or appends one. Every other key keeps its value.
pub fn obj_set(fields: &mut Vec<JsonField>, key: &str, value: Json)
    ensures
        field_lookup(final(fields)@, key@) == Some(value),
        forall|k: Seq<char>| k != key@ ==> #[trigger] field_lookup(final(fields)@, k)
            == field_lookup(old(fields)@, k),
{
    let mut i: usize = 0;
    while i < fields.len()
        invariant
            i <= fields@.len(),
            *fields == *old(fields),
            forall|j: int| 0 <= j < i ==> (#[trigger] fields@[j]).key@ != key@,
        decreases fields@.len() - i,
    {
        if str_is(&fields[i].key, key) {
            let k = String::from_str(key);
            let f = JsonField { key: k, value };
            proof {
                lemma_lookup_update(fields@, i as int, f);
            }
            fields[i] = f;
            return;
        }
        i += 1;
    }
    let k = String::from_str(key);
    let f = JsonField { key: k, value };
    proof {
        lemma_lookup_push(fields@, f);
        assert(field_lookup(fields@, f.key@) is None) by {
            lemma_lookup_none(fields@, f.key@);
        }
    }
    fields.push(f);
}

/// Appends a field under a key that is not yet present, leaving every other
/// key's lookup as it was.
pub fn push_field(fields: &mut Vec<JsonField>, key: &str, value: Json)
    requires
        field_lookup(old(fields)@, key@) is None,
    ensures
        final(fields)@.len() == old(fields)@.len() + 1,
        field_lookup(final(fields)@, key@) == Some(value),
        forall|k: Seq<char>| k != key@ ==> #[trigger] field_lookup(final(fields)@, k)
            == field_lookup(old(fields)@, k),
{
    let f = JsonField { key: String::from_str(key), value };
    proof {
        lemma_lookup_push(fields@, f);
    }
    fields.push(f);
}

/// A field list with no field under `key` looks `key` up to `None`.
pub proof fn lemma_lookup_none(fields: Seq<JsonField>, key: Seq<char>)
    requires
        forall|j: int| 0 <= j < fields.len() ==> (#[trigger] fields[j]).key@ != key,
    ensures
        field_lookup(fields, key) is None,
    decreases fields.len(),
{
    if fields.len() > 0 {
        lemma_lookup_none(fields.skip(1), key);
    }
}

} // verus!
