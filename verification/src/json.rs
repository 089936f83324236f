//! JSON documents as the store hands them over: a tree of values whose
//! objects keep their members in order.

use vstd::prelude::*;
use crate::text::str_eq;

verus! {

/// A JSON value; a number is kept as its text.
#[derive(Debug, PartialEq)]
pub enum Json {
    Null,
    Bool(bool),
    Number(String),
    Str(String),
    Array(Vec<Json>),
    Object(Vec<(String, Json)>),
}

/// A JSON value with its text as character sequences.
pub enum JsonView {
    Null,
    Bool(bool),
    Number(Seq<char>),
    Str(Seq<char>),
    Array(Seq<JsonView>),
    Object(Seq<(Seq<char>, JsonView)>),
}

impl Json {
    /// The value as character sequences.
    pub open spec fn view_of(self) -> JsonView
        decreases self,
    {
        match self {
            Json::Null => JsonView::Null,
            Json::Bool(b) => JsonView::Bool(b),
            Json::Number(s) => JsonView::Number(s@),
            Json::Str(s) => JsonView::Str(s@),
            Json::Array(v) => JsonView::Array(
                Seq::new(
                    v@.len(),
                    |i: int|
                        if 0 <= i < v@.len() {
                            v@[i].view_of()
                        } else {
                            JsonView::Null
                        },
                ),
            ),
            Json::Object(v) => JsonView::Object(
                Seq::new(
                    v@.len(),
                    |i: int|
                        if 0 <= i < v@.len() {
                            (v@[i].0@, v@[i].1.view_of())
                        } else {
                            (Seq::empty(), JsonView::Null)
                        },
                ),
            ),
        }
    }
}

impl View for Json {
    type V = JsonView;

    open spec fn view(&self) -> JsonView {
        self.view_of()
    }
}

/// A sequence of values as character sequences.
pub open spec fn values_view(v: Seq<Json>) -> Seq<JsonView> {
    Seq::new(v.len(), |i: int| v[i].view_of())
}

/// The members of an object as character sequences.
pub open spec fn members_view(v: Seq<(String, Json)>) -> Seq<(Seq<char>, JsonView)> {
    Seq::new(v.len(), |i: int| (v[i].0@, v[i].1.view_of()))
}

/// The view of an array is the view of its elements.
pub proof fn lemma_array_view(v: Vec<Json>)
    ensures
        Json::Array(v)@ == JsonView::Array(values_view(v@)),
{
    let j = Json::Array(v);
    let w = j.view_of();
    assert(w is Array);
    let s = w->Array_0;
    assert(s.len() == v@.len());
    assert forall|i: int| 0 <= i < s.len() implies s[i] == values_view(v@)[i] by {}
    assert(s =~= values_view(v@));
}

/// The view of an object is the view of its members.
pub proof fn lemma_object_view(v: Vec<(String, Json)>)
    ensures
        Json::Object(v)@ == JsonView::Object(members_view(v@)),
{
    let j = Json::Object(v);
    let w = j.view_of();
    assert(w is Object);
    let s = w->Object_0;
    assert(s.len() == v@.len());
    assert forall|i: int| 0 <= i < s.len() implies s[i] == members_view(v@)[i] by {}
    assert(s =~= members_view(v@));
}

/// The value of the first member named `key`.
pub open spec fn member(m: Seq<(Seq<char>, JsonView)>, key: Seq<char>) -> Option<JsonView>
    decreases m.len(),
{
    if m.len() == 0 {
        None
    } else if m[0].0 == key {
        Some(m[0].1)
    } else {
        member(m.drop_first(), key)
    }
}

/// The text of a value that is a string.
pub open spec fn as_text(v: Option<JsonView>) -> Option<Seq<char>> {
    match v {
        Some(JsonView::Str(s)) => Some(s),
        _ => None,
    }
}

/// The text of the member named `key`, where it is a string.
pub open spec fn member_text(m: Seq<(Seq<char>, JsonView)>, key: Seq<char>) -> Option<Seq<char>> {
    as_text(member(m, key))
}

/// The members with the one named `key` given the value `val`: the first
/// such member has its value replaced, or the member is added at the end.
pub open spec fn with_member(
    m: Seq<(Seq<char>, JsonView)>,
    key: Seq<char>,
    val: JsonView,
) -> Seq<(Seq<char>, JsonView)>
    decreases m.len(),
{
    if m.len() == 0 {
        seq![(key, val)]
    } else if m[0].0 == key {
        m.update(0, (key, val))
    } else {
        seq![m[0]] + with_member(m.drop_first(), key, val)
    }
}

/// Index of the first member named `key` at or after `i`, if any.
pub open spec fn member_index(m: Seq<(Seq<char>, JsonView)>, key: Seq<char>, i: int) -> Option<int>
    decreases m.len() - i,
{
    if i < 0 || i >= m.len() {
        None
    } else if m[i].0 == key {
        Some(i)
    } else {
        member_index(m, key, i + 1)
    }
}

proof fn lemma_member_index(m: Seq<(Seq<char>, JsonView)>, key: Seq<char>, i: int)
    requires
        0 <= i <= m.len(),
    ensures
        member(m.skip(i), key) == match member_index(m, key, i) {
            Some(j) => Some(m[j].1),
            None => None,
        },
        member_index(m, key, i) matches Some(j) ==> i <= j < m.len() && m[j].0 == key,
        member_index(m, key, i) is None ==> forall|j: int| i <= j < m.len() ==> m[j].0 != key,
    decreases m.len() - i,
{
    if i < m.len() {
        lemma_member_index(m, key, i + 1);
        assert(m.skip(i).drop_first() =~= m.skip(i + 1));
    }
}

proof fn lemma_with_member_index(
    m: Seq<(Seq<char>, JsonView)>,
    key: Seq<char>,
    val: JsonView,
    i: int,
)
    requires
        0 <= i <= m.len(),
    ensures
        with_member(m.skip(i), key, val) == match member_index(m, key, i) {
            Some(j) => m.skip(i).update(j - i, (key, val)),
            None => m.skip(i).push((key, val)),
        },
    decreases m.len() - i,
{
    lemma_member_index(m, key, i);
    if i < m.len() {
        lemma_with_member_index(m, key, val, i + 1);
        lemma_member_index(m, key, i + 1);
        assert(m.skip(i).drop_first() =~= m.skip(i + 1));
        if m[i].0 != key {
            match member_index(m, key, i + 1) {
                Some(j) => {
                    assert(seq![m[i]] + m.skip(i + 1).update(j - i - 1, (key, val)) =~= m.skip(i).update(
                        j - i,
                        (key, val),
                    ));
                },
                None => {
                    assert(seq![m[i]] + m.skip(i + 1).push((key, val)) =~= m.skip(i).push((key, val)));
                },
            }
        }
    } else {
        assert(m.skip(i) =~= Seq::<(Seq<char>, JsonView)>::empty());
    }
}

/// The value of the member named `key` of `members`, where there is one.
pub fn member_of<'a>(members: &'a Vec<(String, Json)>, key: &str) -> (r: Option<&'a Json>)
    ensures
        match member(members_view(members@), key@) {
            Some(v) => r matches Some(x) && x@ == v,
            None => r is None,
        },
{
    let ghost m = members_view(members@);
    let mut i: usize = 0;
    while i < members.len()
        invariant
            i <= members@.len(),
            m == members_view(members@),
            member_index(m, key@, 0) == member_index(m, key@, i as int),
        decreases members@.len() - i,
    {
        if str_eq(members[i].0.as_str(), key) {
            proof {
                lemma_member_index(m, key@, 0);
                assert(m.skip(0) =~= m);
            }
            return Some(&members[i].1);
        }
        i = i + 1;
    }
    proof {
        lemma_member_index(m, key@, 0);
        assert(m.skip(0) =~= m);
    }
    None
}

/// The text of the member named `key` of `members`, where it is a string.
pub fn member_text_of(members: &Vec<(String, Json)>, key: &str) -> (r: Option<String>)
    ensures
        crate::cli::opt_string_view(r) == member_text(members_view(members@), key@),
{
    let ghost m = members_view(members@);
    let mut i: usize = 0;
    while i < members.len()
        invariant
            i <= members@.len(),
            m == members_view(members@),
            member_index(m, key@, 0) == member_index(m, key@, i as int),
        decreases members@.len() - i,
    {
        if str_eq(members[i].0.as_str(), key) {
            proof {
                lemma_member_index(m, key@, 0);
                assert(m.skip(0) =~= m);
            }
            return match &members[i].1 {
                Json::Str(s) => Some(s.clone()),
                _ => None,
            };
        }
        i = i + 1;
    }
    proof {
        lemma_member_index(m, key@, 0);
        assert(m.skip(0) =~= m);
    }
    None
}

/// Gives the member named `key` the value `val`: the first such member has
/// its value replaced, or the member is added at the end.
pub fn set_member(members: &mut Vec<(String, Json)>, key: String, val: Json)
    ensures
        members_view(final(members)@) == with_member(members_view(old(members)@), key@, val@),
{
    let ghost m = members_view(old(members)@);
    let mut i: usize = 0;
    while i < members.len()
        invariant
            i <= members@.len(),
            members@ == old(members)@,
            m == members_view(members@),
            member_index(m, key@, 0) == member_index(m, key@, i as int),
        decreases members@.len() - i,
    {
        if str_eq(members[i].0.as_str(), key.as_str()) {
            let ghost before = members@;
            members.set(i, (key, val));
            proof {
                lemma_with_member_index(m, key@, val@, 0);
                assert(m.skip(0) =~= m);
                assert(members_view(members@) =~= m.update(i as int, (key@, val@)));
            }
            return;
        }
        i = i + 1;
    }
    members.push((key, val));
    proof {
        lemma_with_member_index(m, key@, val@, 0);
        assert(m.skip(0) =~= m);
        assert(members_view(members@) =~= m.push((key@, val@)));
    }
}

} // verus!
