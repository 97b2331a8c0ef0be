//! The untyped JSON value model that payloads are decoded from and encoded
//! into.
//!
//! The transport hands the dispatch core a method name together with one of
//! these values; everything the codec states about wire shapes is phrased
//! over the mathematical model [`JsonV`].

use vstd::prelude::*;

verus! {

/// Mathematical model of a JSON value.
///
/// Objects keep their fields in order; a lookup takes the first binding of a
/// key, so later duplicates are ignored. Numbers are modeled as integers:
/// every numeric field of the protocol is integral.
#[verifier::ext_equal]
pub enum JsonV {
    Null,
    Bool(bool),
    Int(int),
    Str(Seq<char>),
    Arr(Seq<JsonV>),
    Obj(Seq<(Seq<char>, JsonV)>),
}

/// A JSON value as exchanged with the transport.
///
/// Its mathematical content is given by [`Json::deep_view`].
#[derive(Debug)]
pub enum Json {
    Null,
    Bool(bool),
    Int(i128),
    Str(String),
    Arr(Vec<Json>),
    Obj(Vec<(String, Json)>),
}

/// The model of one JSON value.
pub open spec fn json_view(j: Json) -> JsonV
    decreases j,
    via json_view_decreases
{
    match j {
        Json::Null => JsonV::Null,
        Json::Bool(b) => JsonV::Bool(b),
        Json::Int(i) => JsonV::Int(i as int),
        Json::Str(s) => JsonV::Str(s@),
        Json::Arr(items) => JsonV::Arr(arr_views(items@)),
        Json::Obj(fields) => JsonV::Obj(obj_views(fields@)),
    }
}

/// The models of the elements of a JSON array.
pub open spec fn arr_views(s: Seq<Json>) -> Seq<JsonV>
    decreases s,
    via arr_views_decreases
{
    if s.len() == 0 {
        Seq::empty()
    } else {
        arr_views(s.drop_last()).push(json_view(s.last()))
    }
}

/// The models of the fields of a JSON object.
pub open spec fn obj_views(s: Seq<(String, Json)>) -> Seq<(Seq<char>, JsonV)>
    decreases s,
    via obj_views_decreases
{
    if s.len() == 0 {
        Seq::empty()
    } else {
        obj_views(s.drop_last()).push((s.last().0@, json_view(s.last().1)))
    }
}

#[via_fn]
proof fn json_view_decreases(j: Json) {
    broadcast use vstd::std_specs::vec::axiom_vec_decreases_to_view;

    match j {
        Json::Arr(items) => {
            assert(decreases_to!(j => items));
        },
        Json::Obj(fields) => {
            assert(decreases_to!(j => fields));
        },
        _ => {},
    }
}

#[via_fn]
proof fn arr_views_decreases(s: Seq<Json>) {
    broadcast use vstd::seq::group_seq_axioms, vstd::seq::axiom_seq_subrange_decreases;

    if s.len() != 0 {
        vstd::seq::axiom_seq_index_decreases(s, s.len() - 1);
        assert(s.drop_last() == s.subrange(0, s.len() - 1));
    }
}

#[via_fn]
proof fn obj_views_decreases(s: Seq<(String, Json)>) {
    broadcast use vstd::seq::group_seq_axioms, vstd::seq::axiom_seq_subrange_decreases;

    if s.len() != 0 {
        vstd::seq::axiom_seq_index_decreases(s, s.len() - 1);
        assert(s.drop_last() == s.subrange(0, s.len() - 1));
    }
}

impl DeepView for Json {
    type V = JsonV;

    open spec fn deep_view(&self) -> JsonV {
        json_view(*self)
    }
}

/// The elements of `arr_views(s)` are the views of the elements of `s`.
pub proof fn lemma_arr_views_index(s: Seq<Json>)
    ensures
        arr_views(s).len() == s.len(),
        forall|i: int| 0 <= i < s.len() ==> #[trigger] arr_views(s)[i] == json_view(s[i]),
    decreases s.len(),
{
    if s.len() != 0 {
        lemma_arr_views_index(s.drop_last());
    }
}

/// The elements of `obj_views(s)` are the views of the fields of `s`.
pub proof fn lemma_obj_views_index(s: Seq<(String, Json)>)
    ensures
        obj_views(s).len() == s.len(),
        forall|i: int|
            0 <= i < s.len() ==> #[trigger] obj_views(s)[i] == (s[i].0@, json_view(s[i].1)),
    decreases s.len(),
{
    if s.len() != 0 {
        lemma_obj_views_index(s.drop_last());
    }
}

/// The first binding of `key` among `fields`, if any.
pub open spec fn lookup_field(fields: Seq<(Seq<char>, JsonV)>, key: Seq<char>) -> Option<JsonV>
    decreases fields.len(),
{
    if fields.len() == 0 {
        None
    } else if fields[0].0 == key {
        Some(fields[0].1)
    } else {
        lookup_field(fields.drop_first(), key)
    }
}

/// The first binding of `key` in an object `j`; `None` if `j` is not an
/// object or has no such field.
pub open spec fn get_field(j: JsonV, key: Seq<char>) -> Option<JsonV> {
    match j {
        JsonV::Obj(fields) => lookup_field(fields, key),
        _ => None,
    }
}

/// The fields that encode an optional value: none when it is absent, one
/// binding when it is present. Optional fields are omitted, never null.
pub open spec fn opt_field_enc(key: Seq<char>, v: Option<JsonV>) -> Seq<(Seq<char>, JsonV)> {
    match v {
        Some(j) => seq![(key, j)],
        None => Seq::empty(),
    }
}

/// A required string field: its characters, or `None` when the field is
/// missing or not a string.
pub open spec fn req_str_field(j: JsonV, key: Seq<char>) -> Option<Seq<char>> {
    match get_field(j, key) {
        Some(JsonV::Str(s)) => Some(s),
        _ => None,
    }
}

/// An optional string field: `Some(None)` when absent, `Some(Some(s))` when
/// present as a string, and `None` when present with another shape.
pub open spec fn opt_str_field(j: JsonV, key: Seq<char>) -> Option<Option<Seq<char>>> {
    match get_field(j, key) {
        None => Some(None),
        Some(JsonV::Str(s)) => Some(Some(s)),
        Some(_) => None,
    }
}

/// The encoding of an optional string value.
pub open spec fn opt_str_enc(o: Option<Seq<char>>) -> Option<JsonV> {
    match o {
        Some(s) => Some(JsonV::Str(s)),
        None => None,
    }
}

/// An optional integer field: `Some(None)` when absent, `Some(Some(i))` when
/// present as a number, and `None` when present with another shape.
pub open spec fn opt_int_field(j: JsonV, key: Seq<char>) -> Option<Option<int>> {
    match get_field(j, key) {
        None => Some(None),
        Some(JsonV::Int(i)) => Some(Some(i)),
        Some(_) => None,
    }
}

/// Evaluates a lookup among the fields that encode one optional value.
pub broadcast proof fn lemma_lookup_opt_field(k: Seq<char>, o: Option<JsonV>, key: Seq<char>)
    ensures
        #[trigger] lookup_field(opt_field_enc(k, o), key) == if k == key {
            o
        } else {
            None::<JsonV>
        },
{
    match o {
        Some(v) => {
            lemma_lookup_singleton(k, v, key);
        },
        None => {
        },
    }
}

/// Relies on `str`'s `PartialEq`: equality of UTF-8 string slices coincides
/// with equality of their character sequences.
#[verifier::external_body]
pub(crate) fn str_eq(a: &str, b: &str) -> (r: bool)
    ensures
        r == (a@ == b@),
{
    a == b
}

proof fn lemma_lookup_skip_step(fields: Seq<(Seq<char>, JsonV)>, key: Seq<char>, i: int)
    requires
        0 <= i < fields.len(),
        fields[i].0 != key,
    ensures
        lookup_field(fields.skip(i), key) == lookup_field(fields.skip(i + 1), key),
{
    assert(fields.skip(i).drop_first() =~= fields.skip(i + 1));
}

/// Appending a field shifts the object's model by the field's model.
pub proof fn lemma_obj_views_push(s: Seq<(String, Json)>, p: (String, Json))
    ensures
        obj_views(s.push(p)) == obj_views(s).push((p.0@, json_view(p.1))),
{
    assert(s.push(p).drop_last() =~= s);
    assert(s.push(p).last() == p);
}

/// Appending an element shifts the array's model by the element's model.
pub proof fn lemma_arr_views_push(s: Seq<Json>, j: Json)
    ensures
        arr_views(s.push(j)) == arr_views(s).push(json_view(j)),
{
    assert(s.push(j).drop_last() =~= s);
    assert(s.push(j).last() == j);
}

/// A lookup in a concatenation takes the first list's binding when there is
/// one, and otherwise falls through to the second list.
pub broadcast proof fn lemma_lookup_concat(
    s1: Seq<(Seq<char>, JsonV)>,
    s2: Seq<(Seq<char>, JsonV)>,
    key: Seq<char>,
)
    ensures
        #[trigger] lookup_field(s1 + s2, key) == match lookup_field(s1, key) {
            Some(v) => Some(v),
            None => lookup_field(s2, key),
        },
    decreases s1.len(),
{
    if s1.len() == 0 {
        assert(s1 + s2 =~= s2);
    } else {
        assert((s1 + s2)[0] == s1[0]);
        assert((s1 + s2).drop_first() =~= s1.drop_first() + s2);
        lemma_lookup_concat(s1.drop_first(), s2, key);
    }
}

/// A lookup in a one-field list finds that field exactly when the key matches.
pub broadcast proof fn lemma_lookup_singleton(name: Seq<char>, v: JsonV, key: Seq<char>)
    ensures
        #[trigger] lookup_field(seq![(name, v)], key) == if name == key {
            Some(v)
        } else {
            None::<JsonV>
        },
{
    reveal_with_fuel(lookup_field, 2);
    let s = seq![(name, v)];
    assert(s[0] == (name, v));
    assert(s.drop_first() =~= Seq::<(Seq<char>, JsonV)>::empty());
}

/// Adds one field to an object under construction.
pub fn push_field(fields: &mut Vec<(String, Json)>, key: &str, value: Json)
    ensures
        obj_views(final(fields)@) == obj_views(old(fields)@).push((key@, json_view(value))),
{
    let k = key.to_owned();
    let ghost p = (k, value);
    fields.push((k, value));
    proof {
        lemma_obj_views_push(old(fields)@, p);
    }
}

/// Adds the field that encodes one optional value: nothing when it is
/// absent, one binding when it is present.
pub fn push_opt_field(fields: &mut Vec<(String, Json)>, key: &str, value: Option<Json>)
    ensures
        obj_views(final(fields)@) == obj_views(old(fields)@) + opt_field_enc(
            key@,
            match value {
                Some(v) => Some(json_view(v)),
                None => None,
            },
        ),
{
    match value {
        Some(v) => {
            let ghost gv = v;
            push_field(fields, key, v);
            proof {
                assert(obj_views(fields@) =~= obj_views(old(fields)@) + opt_field_enc(
                    key@,
                    Some(json_view(gv)),
                ));
            }
        },
        None => {
            proof {
                assert(obj_views(fields@) =~= obj_views(fields@) + Seq::<
                    (Seq<char>, JsonV),
                >::empty());
            }
        },
    }
}

impl Json {
    /// The field named `key` of this object, by first match; `None` if this
    /// is not an object or no field has that name.
    pub fn get<'a>(&'a self, key: &str) -> (r: Option<&'a Json>)
        ensures
            match r {
                Some(j) => get_field(self.deep_view(), key@) == Some(j.deep_view()),
                None => get_field(self.deep_view(), key@) is None,
            },
    {
        match self {
            Json::Obj(fields) => {
                let ghost dv = obj_views(fields@);
                proof {
                    lemma_obj_views_index(fields@);
                    assert(dv.skip(0) =~= dv);
                }
                let mut i: usize = 0;
                while i < fields.len()
                    invariant
                        0 <= i <= fields.len(),
                        dv == obj_views(fields@),
                        self.deep_view() == JsonV::Obj(dv),
                        dv.len() == fields@.len(),
                        forall|k: int|
                            0 <= k < dv.len() ==> #[trigger] dv[k] == (
                                fields@[k].0@,
                                json_view(fields@[k].1),
                            ),
                        lookup_field(dv, key@) == lookup_field(dv.skip(i as int), key@),
                    decreases fields@.len() - i,
                {
                    if str_eq(fields[i].0.as_str(), key) {
                        proof {
                            assert(dv.skip(i as int)[0] == dv[i as int]);
                            assert(lookup_field(dv.skip(i as int), key@) == Some(dv[i as int].1));
                        }
                        return Some(&fields[i].1);
                    }
                    proof {
                        assert(dv.skip(i as int)[0] == dv[i as int]);
                        lemma_lookup_skip_step(dv, key@, i as int);
                    }
                    i += 1;
                }
                proof {
                    assert(dv.skip(i as int) =~= Seq::<(Seq<char>, JsonV)>::empty());
                }
                None
            },
            _ => None,
        }
    }

    /// A structurally equal copy of this value.
    pub fn deep_clone(&self) -> (r: Json)
        ensures
            r.deep_view() == self.deep_view(),
        decreases *self,
    {
        match self {
            Json::Null => Json::Null,
            Json::Bool(b) => Json::Bool(*b),
            Json::Int(i) => Json::Int(*i),
            Json::Str(s) => Json::Str(s.clone()),
            Json::Arr(items) => {
                proof {
                    lemma_arr_views_index(items@);
                }
                let mut out: Vec<Json> = Vec::new();
                let mut i: usize = 0;
                while i < items.len()
                    invariant
                        i <= items.len(),
                        *self == Json::Arr(*items),
                        self.deep_view() == JsonV::Arr(arr_views(items@)),
                        out@.len() == i,
                        forall|k: int|
                            0 <= k < i ==> json_view(#[trigger] out@[k]) == json_view(items@[k]),
                    decreases items@.len() - i,
                {
                    proof {
                        broadcast use vstd::std_specs::vec::axiom_vec_index_decreases;

                        assert(decreases_to!(*self => *items));
                    }
                    let c = items[i].deep_clone();
                    out.push(c);
                    i += 1;
                }
                proof {
                    lemma_arr_views_index(out@);
                    assert(arr_views(out@) =~= arr_views(items@));
                }
                Json::Arr(out)
            },
            Json::Obj(fields) => {
                proof {
                    lemma_obj_views_index(fields@);
                }
                let mut out: Vec<(String, Json)> = Vec::new();
                let mut i: usize = 0;
                while i < fields.len()
                    invariant
                        i <= fields.len(),
                        *self == Json::Obj(*fields),
                        self.deep_view() == JsonV::Obj(obj_views(fields@)),
                        out@.len() == i,
                        forall|k: int|
                            0 <= k < i ==> (#[trigger] out@[k]).0@ == fields@[k].0@ && json_view(
                                out@[k].1,
                            ) == json_view(fields@[k].1),
                    decreases fields@.len() - i,
                {
                    proof {
                        broadcast use vstd::std_specs::vec::axiom_vec_index_decreases;

                        assert(decreases_to!(*self => *fields));
                    }
                    let k = fields[i].0.clone();
                    let v = fields[i].1.deep_clone();
                    out.push((k, v));
                    i += 1;
                }
                proof {
                    lemma_obj_views_index(out@);
                    assert(obj_views(out@) =~= obj_views(fields@));
                }
                Json::Obj(out)
            },
        }
    }

    /// The characters of the required string field `key`, or `None` when it
    /// is missing or not a string.
    pub fn get_string(&self, key: &str) -> (r: Option<String>)
        ensures
            match r {
                Some(s) => req_str_field(self.deep_view(), key@) == Some(s@),
                None => req_str_field(self.deep_view(), key@) is None,
            },
    {
        match self.get(key) {
            Some(Json::Str(s)) => Some(s.clone()),
            _ => None,
        }
    }

    /// The optional string field `key`: `Ok(None)` when absent, `Ok(Some(s))`
    /// when present as a string, `Err(())` when present with another shape.
    pub fn get_opt_string(&self, key: &str) -> (r: Result<Option<String>, ()>)
        ensures
            match r {
                Ok(o) => opt_str_field(self.deep_view(), key@) == Some(o.deep_view()),
                Err(_) => opt_str_field(self.deep_view(), key@) is None,
            },
    {
        match self.get(key) {
            None => Ok(None),
            Some(Json::Str(s)) => Ok(Some(s.clone())),
            Some(_) => Err(()),
        }
    }

    /// The optional integer field `key`: `Ok(None)` when absent, `Ok(Some(i))`
    /// when present as a number, `Err(())` when present with another shape.
    pub fn get_opt_int(&self, key: &str) -> (r: Result<Option<i128>, ()>)
        ensures
            match r {
                Ok(Some(i)) => opt_int_field(self.deep_view(), key@) == Some(Some(i as int)),
                Ok(None) => opt_int_field(self.deep_view(), key@) == Some(None::<int>),
                Err(_) => opt_int_field(self.deep_view(), key@) is None,
            },
    {
        match self.get(key) {
            None => Ok(None),
            Some(Json::Int(i)) => Ok(Some(*i)),
            Some(_) => Err(()),
        }
    }
}

} // verus!
