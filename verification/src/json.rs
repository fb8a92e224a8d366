//! A structured value, as a document or a key record carries it: the
//! shape of a JSON value, with objects kept as ordered entry lists so
//! that encodings are reproduced exactly.

use vstd::prelude::*;

verus! {

/// The mathematical model of a structured value.
///
/// Object entries are an ordered sequence of key/value pairs; a lookup
/// takes the first entry with a matching key.
pub enum JsonView {
    Null,
    Bool(bool),
    Int(int),
    Str(Seq<char>),
    Arr(Seq<JsonView>),
    Obj(Seq<(Seq<char>, JsonView)>),
}

/// A structured value: null, a boolean, an integer, a string, a list,
/// or an object whose entries keep their order.
#[derive(Debug, PartialEq)]
pub enum Json {
    Null,
    Bool(bool),
    Int(i64),
    Str(String),
    Arr(Vec<Json>),
    Obj(Vec<(String, Json)>),
}

/// The model of a structured value.
pub open spec fn json_view(j: Json) -> JsonView
    decreases j,
{
    match j {
        Json::Null => JsonView::Null,
        Json::Bool(b) => JsonView::Bool(b),
        Json::Int(i) => JsonView::Int(i as int),
        Json::Str(s) => JsonView::Str(s@),
        Json::Arr(v) => JsonView::Arr(arr_view(v@)),
        Json::Obj(v) => JsonView::Obj(entries_view(v@)),
    }
}

/// The models of the elements of a list.
pub open spec fn arr_view(s: Seq<Json>) -> Seq<JsonView>
    decreases s,
{
    if s.len() == 0 {
        Seq::empty()
    } else {
        seq![json_view(s[0])] + arr_view(s.drop_first())
    }
}

/// The models of the entries of an object.
pub open spec fn entries_view(s: Seq<(String, Json)>) -> Seq<(Seq<char>, JsonView)>
    decreases s,
{
    if s.len() == 0 {
        Seq::empty()
    } else {
        seq![(s[0].0@, json_view(s[0].1))] + entries_view(s.drop_first())
    }
}

/// A list's model has one element for each element of the list, the
/// model of that element.
pub broadcast proof fn lemma_arr_view_len(s: Seq<Json>)
    ensures
        #[trigger] arr_view(s).len() == s.len(),
    decreases s.len(),
{
    if s.len() > 0 {
        lemma_arr_view_len(s.drop_first());
    }
}

/// The model of a list's element stands at the element's position.
pub broadcast proof fn lemma_arr_view_index(s: Seq<Json>, i: int)
    requires
        0 <= i < s.len(),
    ensures
        arr_view(s).len() == s.len(),
        #[trigger] arr_view(s)[i] == json_view(s[i]),
    decreases i,
{
    lemma_arr_view_len(s);
    if i > 0 {
        lemma_arr_view_index(s.drop_first(), i - 1);
    }
}

/// An object's model has one entry for each entry of the object.
pub broadcast proof fn lemma_entries_view_len(s: Seq<(String, Json)>)
    ensures
        #[trigger] entries_view(s).len() == s.len(),
    decreases s.len(),
{
    if s.len() > 0 {
        lemma_entries_view_len(s.drop_first());
    }
}

/// The model of an object's entry stands at the entry's position.
pub broadcast proof fn lemma_entries_view_index(s: Seq<(String, Json)>, i: int)
    requires
        0 <= i < s.len(),
    ensures
        entries_view(s).len() == s.len(),
        #[trigger] entries_view(s)[i] == (s[i].0@, json_view(s[i].1)),
    decreases i,
{
    lemma_entries_view_len(s);
    if i > 0 {
        lemma_entries_view_index(s.drop_first(), i - 1);
    }
}

/// Appending an entry appends its model to the object's model.
pub broadcast proof fn lemma_entries_view_push(s: Seq<(String, Json)>, e: (String, Json))
    ensures
        #[trigger] entries_view(s.push(e)) == entries_view(s).push((e.0@, json_view(e.1))),
    decreases s.len(),
{
    if s.len() == 0 {
        assert(s.push(e).drop_first() =~= s);
        assert(seq![(e.0@, json_view(e.1))] + entries_view(s) =~= entries_view(s).push(
            (e.0@, json_view(e.1)),
        ));
    } else {
        assert(s.push(e).drop_first() =~= s.drop_first().push(e));
        lemma_entries_view_push(s.drop_first(), e);
        assert(seq![(s[0].0@, json_view(s[0].1))] + entries_view(s.drop_first()).push(
            (e.0@, json_view(e.1)),
        ) =~= (seq![(s[0].0@, json_view(s[0].1))] + entries_view(s.drop_first())).push(
            (e.0@, json_view(e.1)),
        ));
    }
}

impl DeepView for Json {
    type V = JsonView;

    open spec fn deep_view(&self) -> JsonView {
        json_view(*self)
    }
}

/// The value at or after position `i` under `key` in an object's entry
/// list: the first entry from `i` on whose key matches, if any.
pub open spec fn obj_lookup_from(
    entries: Seq<(Seq<char>, JsonView)>,
    key: Seq<char>,
    i: int,
) -> Option<JsonView>
    decreases entries.len() - i,
{
    if i < 0 || i >= entries.len() {
        None
    } else if entries[i].0 == key {
        Some(entries[i].1)
    } else {
        obj_lookup_from(entries, key, i + 1)
    }
}

/// The value under `key` in an object's entry list: the first entry
/// whose key matches, if any.
pub open spec fn obj_lookup(entries: Seq<(Seq<char>, JsonView)>, key: Seq<char>) -> Option<
    JsonView,
> {
    obj_lookup_from(entries, key, 0)
}

/// A lookup from position `j` lands on position `i` when every key in
/// between differs.
pub proof fn lemma_obj_lookup_from_at(
    entries: Seq<(Seq<char>, JsonView)>,
    key: Seq<char>,
    j: int,
    i: int,
)
    requires
        0 <= j <= i < entries.len(),
        forall|k: int| j <= k < i ==> entries[k].0 != key,
        entries[i].0 == key,
    ensures
        obj_lookup_from(entries, key, j) == Some(entries[i].1),
    decreases i - j,
{
    if j < i {
        lemma_obj_lookup_from_at(entries, key, j + 1, i);
    }
}

/// A lookup lands on position `i` when every earlier key differs.
pub proof fn lemma_obj_lookup_at(entries: Seq<(Seq<char>, JsonView)>, key: Seq<char>, i: int)
    requires
        0 <= i < entries.len(),
        forall|k: int| 0 <= k < i ==> entries[k].0 != key,
        entries[i].0 == key,
    ensures
        obj_lookup(entries, key) == Some(entries[i].1),
{
    lemma_obj_lookup_from_at(entries, key, 0, i);
}

/// A lookup from position `j` fails when no key from `j` on matches.
pub proof fn lemma_obj_lookup_from_none(
    entries: Seq<(Seq<char>, JsonView)>,
    key: Seq<char>,
    j: int,
)
    requires
        forall|k: int| j <= k < entries.len() ==> entries[k].0 != key,
    ensures
        obj_lookup_from(entries, key, j) is None,
    decreases entries.len() - j,
{
    if 0 <= j < entries.len() {
        lemma_obj_lookup_from_none(entries, key, j + 1);
    }
}

/// A lookup fails when no key matches.
pub proof fn lemma_obj_lookup_none(entries: Seq<(Seq<char>, JsonView)>, key: Seq<char>)
    requires
        forall|k: int| 0 <= k < entries.len() ==> entries[k].0 != key,
    ensures
        obj_lookup(entries, key) is None,
{
    lemma_obj_lookup_from_none(entries, key, 0);
}

impl Json {
    /// An independent copy of the value, equal to it in the model.
    pub fn deep_clone(&self) -> (r: Json)
        ensures
            r.deep_view() == self.deep_view(),
        decreases *self,
    {
        match self {
            Json::Null => Json::Null,
            Json::Bool(b) => Json::Bool(*b),
            Json::Int(i) => Json::Int(*i),
            Json::Str(s) => Json::Str(s.clone()),
            Json::Arr(v) => {
                proof {
                    assert(*self == Json::Arr(*v));
                }
                let mut out: Vec<Json> = Vec::new();
                let mut i: usize = 0;
                while i < v.len()
                    invariant
                        i <= v.len(),
                        out@.len() == i as int,
                        *self == Json::Arr(*v),
                        forall|k: int| 0 <= k < i ==> json_view(out@[k]) == json_view(v@[k]),
                    decreases v.len() - i,
                {
                    proof {
                        assert(decreases_to!(*self => self->Arr_0));
                        assert(self->Arr_0 == *v);
                        assert(decreases_to!(*self => *v));
                        assert(decreases_to!(*v => v@));
                        assert(decreases_to!(v@ => v@[i as int]));
                    }
                    out.push(v[i].deep_clone());
                    i = i + 1;
                }
                proof {
                    assert forall|k: int| 0 <= k < v@.len() implies arr_view(out@)[k] == arr_view(
                        v@,
                    )[k] by {
                        lemma_arr_view_index(out@, k);
                        lemma_arr_view_index(v@, k);
                    }
                    lemma_arr_view_len(out@);
                    lemma_arr_view_len(v@);
                    assert(arr_view(out@) =~= arr_view(v@));
                }
                Json::Arr(out)
            },
            Json::Obj(v) => {
                proof {
                    assert(*self == Json::Obj(*v));
                }
                let mut out: Vec<(String, Json)> = Vec::new();
                let mut i: usize = 0;
                while i < v.len()
                    invariant
                        i <= v.len(),
                        out@.len() == i as int,
                        *self == Json::Obj(*v),
                        forall|k: int|
                            0 <= k < i ==> out@[k].0@ == v@[k].0@ && json_view(out@[k].1)
                                == json_view(v@[k].1),
                    decreases v.len() - i,
                {
                    proof {
                        assert(decreases_to!(*self => self->Obj_0));
                        assert(self->Obj_0 == *v);
                        assert(decreases_to!(*self => *v));
                        assert(decreases_to!(*v => v@));
                        assert(decreases_to!(v@ => v@[i as int]));
                        assert(decreases_to!(v@[i as int] => v@[i as int].1));
                    }
                    let entry = &v[i];
                    out.push((entry.0.clone(), entry.1.deep_clone()));
                    i = i + 1;
                }
                proof {
                    assert forall|k: int| 0 <= k < v@.len() implies entries_view(out@)[k]
                        == entries_view(v@)[k] by {
                        lemma_entries_view_index(out@, k);
                        lemma_entries_view_index(v@, k);
                    }
                    lemma_entries_view_len(out@);
                    lemma_entries_view_len(v@);
                    assert(entries_view(out@) =~= entries_view(v@));
                }
                Json::Obj(out)
            },
        }
    }
}

impl Clone for Json {
    /// A clone is an independent copy, equal to the source in the model.
    fn clone(&self) -> (r: Json)
        ensures
            r.deep_view() == self.deep_view(),
    {
        self.deep_clone()
    }
}

/// The value under `key` in an object's entry list, or `None` where no
/// entry's key matches.
pub fn obj_get<'a>(entries: &'a Vec<(String, Json)>, key: &String) -> (r: Option<&'a Json>)
    ensures
        match r {
            Some(v) => obj_lookup(entries_view(entries@), key@) == Some(v.deep_view()),
            None => obj_lookup(entries_view(entries@), key@) is None,
        },
{
    let mut i: usize = 0;
    while i < entries.len()
        invariant
            i <= entries.len(),
            forall|k: int| 0 <= k < i ==> #[trigger] entries@[k].0@ != key@,
        decreases entries.len() - i,
    {
        if entries[i].0 == *key {
            proof {
                lemma_entries_view_len(entries@);
                assert forall|k: int| 0 <= k < i implies entries_view(entries@)[k].0 != key@ by {
                    lemma_entries_view_index(entries@, k);
                }
                lemma_entries_view_index(entries@, i as int);
                lemma_obj_lookup_at(entries_view(entries@), key@, i as int);
            }
            return Some(&entries[i].1);
        }
        i = i + 1;
    }
    proof {
        lemma_entries_view_none_helper(entries@, key@);
    }
    None
}

/// A lookup over an object's model fails when no entry's key matches.
proof fn lemma_entries_view_none_helper(s: Seq<(String, Json)>, key: Seq<char>)
    requires
        forall|k: int| 0 <= k < s.len() ==> #[trigger] s[k].0@ != key,
    ensures
        obj_lookup(entries_view(s), key) is None,
{
    lemma_entries_view_len(s);
    assert forall|k: int| 0 <= k < entries_view(s).len() implies entries_view(s)[k].0 != key by {
        lemma_entries_view_index(s, k);
    }
    lemma_obj_lookup_none(entries_view(s), key);
}

} // verus!
