//! The knowledge entries that a context query returns: collected from the
//! nested result of the query, tagged with their type, ordered by id and
//! with each id kept once.

use vstd::prelude::*;
use crate::json::{Json, JsonView, members_view, member_text, values_view, with_member, lemma_array_view, lemma_object_view, member_text_of, set_member};
use crate::text;
use crate::text::{contains, owned, str_eq, str_lt};

verus! {

/// The type that a knowledge entry is tagged with: its `type` member where
/// that is a string, else `context`.
pub open spec fn tag_type(m: Seq<(Seq<char>, JsonView)>) -> Seq<char> {
    match member_text(m, "type"@) {
        Some(t) => t,
        None => "context"@,
    }
}

/// A knowledge entry with its `node_type` member set to its type.
pub open spec fn tagged(m: Seq<(Seq<char>, JsonView)>) -> JsonView {
    JsonView::Object(with_member(m, "node_type"@, JsonView::Str(tag_type(m))))
}

/// The entry that a value gives where it is an object.
pub open spec fn object_nodes(v: JsonView) -> Seq<JsonView> {
    match v {
        JsonView::Object(m) => seq![tagged(m)],
        _ => Seq::empty(),
    }
}

/// The entries among the values of a nested array.
pub open spec fn nested_nodes(s: Seq<JsonView>) -> Seq<JsonView>
    decreases s.len(),
{
    if s.len() == 0 {
        Seq::empty()
    } else {
        nested_nodes(s.drop_last()) + object_nodes(s.last())
    }
}

/// The entries that one item of a level gives: an array of entries or one entry.
pub open spec fn item_nodes(v: JsonView) -> Seq<JsonView> {
    match v {
        JsonView::Array(n) => nested_nodes(n),
        JsonView::Object(m) => seq![tagged(m)],
        _ => Seq::empty(),
    }
}

/// The entries that the items of a level give, in order.
pub open spec fn items_nodes(s: Seq<JsonView>) -> Seq<JsonView>
    decreases s.len(),
{
    if s.len() == 0 {
        Seq::empty()
    } else {
        items_nodes(s.drop_last()) + item_nodes(s.last())
    }
}

/// The entries under one member of a level: only a member whose name
/// mentions `context` and whose value is an array counts.
pub open spec fn member_nodes(e: (Seq<char>, JsonView)) -> Seq<JsonView> {
    if text::contains_seq(e.0, "context"@) {
        match e.1 {
            JsonView::Array(items) => items_nodes(items),
            _ => Seq::empty(),
        }
    } else {
        Seq::empty()
    }
}

/// The entries under the members of a level, in order.
pub open spec fn members_nodes(m: Seq<(Seq<char>, JsonView)>) -> Seq<JsonView>
    decreases m.len(),
{
    if m.len() == 0 {
        Seq::empty()
    } else {
        members_nodes(m.drop_last()) + member_nodes(m.last())
    }
}

/// The entries of one level, where it is an object.
pub open spec fn level_nodes(v: JsonView) -> Seq<JsonView> {
    match v {
        JsonView::Object(m) => members_nodes(m),
        _ => Seq::empty(),
    }
}

/// The entries of the levels, in order.
pub open spec fn levels_nodes(s: Seq<JsonView>) -> Seq<JsonView>
    decreases s.len(),
{
    if s.len() == 0 {
        Seq::empty()
    } else {
        levels_nodes(s.drop_last()) + level_nodes(s.last())
    }
}

/// Every entry in a query result, in the order met.
pub open spec fn collected(raw: JsonView) -> Seq<JsonView> {
    match raw {
        JsonView::Array(levels) => levels_nodes(levels),
        _ => Seq::empty(),
    }
}

/// The id of an entry: its `id` member where that is a string, else empty.
pub open spec fn node_id(v: JsonView) -> Seq<char> {
    match v {
        JsonView::Object(m) => match member_text(m, "id"@) {
            Some(i) => i,
            None => Seq::empty(),
        },
        _ => Seq::empty(),
    }
}

/// `out` with `x` added before the first entry whose id is not below that of
/// `x`, unless an entry with the same id is met first.
pub open spec fn insert_unique(out: Seq<JsonView>, x: JsonView) -> Seq<JsonView>
    decreases out.len(),
{
    if out.len() == 0 {
        seq![x]
    } else if node_id(out[0]) == node_id(x) {
        out
    } else if text::seq_lt(node_id(x), node_id(out[0])) {
        seq![x] + out
    } else {
        seq![out[0]] + insert_unique(out.drop_first(), x)
    }
}

/// The entries ordered by id, each id kept with the first entry that has it.
pub open spec fn dedup_by_id(s: Seq<JsonView>) -> Seq<JsonView>
    decreases s.len(),
{
    if s.len() == 0 {
        Seq::empty()
    } else {
        insert_unique(dedup_by_id(s.drop_last()), s.last())
    }
}

/// The knowledge entries of a context query result.
pub open spec fn flatten_spec(raw: JsonView) -> Seq<JsonView> {
    dedup_by_id(collected(raw))
}

fn node_id_of(v: &Json) -> (r: String)
    ensures
        r@ == node_id(v@),
{
    match v {
        Json::Object(m) => {
            proof {
                lemma_object_view(*m);
            }
            match member_text_of(m, "id") {
                Some(i) => i,
                None => String::new(),
            }
        },
        _ => String::new(),
    }
}

fn tag(members: Vec<(String, Json)>) -> (r: Json)
    ensures
        r@ == tagged(members_view(members@)),
{
    let mut members = members;
    let t = match member_text_of(&members, "type") {
        Some(t) => t,
        None => owned("context"),
    };
    set_member(&mut members, owned("node_type"), Json::Str(t));
    proof {
        lemma_object_view(members);
    }
    Json::Object(members)
}

proof fn lemma_take_push<A>(s: Seq<A>, k: int)
    requires
        0 <= k < s.len(),
    ensures
        s.take(k + 1).drop_last() == s.take(k),
        s.take(k + 1).last() == s[k],
{
    assert(s.take(k + 1).drop_last() =~= s.take(k));
}

proof fn lemma_next_value(rs: Seq<Json>, rest: Seq<Json>, all: Seq<JsonView>, k: int, item: Json)
    requires
        0 <= k,
        rs.len() > 0,
        values_view(rs) =~= all.skip(k),
        k + rs.len() == all.len(),
        item == rs[0],
        rest == rs.remove(0),
    ensures
        item@ == all[k],
        values_view(rest) =~= all.skip(k + 1),
        k + 1 + rest.len() == all.len(),
{
    assert(values_view(rs)[0] == all.skip(k)[0]);
    assert forall|i: int| 0 <= i < rest.len() implies values_view(rest)[i] == all.skip(k + 1)[i] by {
        assert(rest[i] == rs[i + 1]);
        assert(values_view(rs)[i + 1] == all.skip(k)[i + 1]);
    }
}

proof fn lemma_next_member(
    rs: Seq<(String, Json)>,
    rest: Seq<(String, Json)>,
    all: Seq<(Seq<char>, JsonView)>,
    k: int,
    item: (String, Json),
)
    requires
        0 <= k,
        rs.len() > 0,
        members_view(rs) =~= all.skip(k),
        k + rs.len() == all.len(),
        item == rs[0],
        rest == rs.remove(0),
    ensures
        (item.0@, item.1@) == all[k],
        members_view(rest) =~= all.skip(k + 1),
        k + 1 + rest.len() == all.len(),
{
    assert(members_view(rs)[0] == all.skip(k)[0]);
    assert forall|i: int| 0 <= i < rest.len() implies members_view(rest)[i] == all.skip(k + 1)[i] by {
        assert(rest[i] == rs[i + 1]);
        assert(members_view(rs)[i + 1] == all.skip(k)[i + 1]);
    }
}

fn push_nested(out: &mut Vec<Json>, nested: Vec<Json>)
    ensures
        values_view(final(out)@) == values_view(old(out)@) + nested_nodes(values_view(nested@)),
{
    let ghost all = values_view(nested@);
    let ghost start = values_view(out@);
    let mut rest = nested;
    let total: usize = rest.len();
    let mut k: usize = 0;
    assert(all.take(0) =~= Seq::<JsonView>::empty());
    while rest.len() > 0
        invariant
            k <= all.len(),
            values_view(rest@) =~= all.skip(k as int),
            k + rest@.len() == all.len(),
            all.len() == total,
            values_view(out@) == start + nested_nodes(all.take(k as int)),
        decreases rest@.len(),
    {
        let ghost rs = rest@;
        let item = rest.remove(0);
        proof {
            lemma_next_value(rs, rest@, all, k as int, item);
        }
        proof {
            lemma_take_push(all, k as int);
        }
        match item {
            Json::Object(m) => {
                proof {
                    lemma_object_view(m);
                }
                let t = tag(m);
                let ghost before = out@;
                out.push(t);
                assert(values_view(out@) =~= values_view(before).push(t@));
                assert(values_view(out@) =~= start + nested_nodes(all.take(k + 1)));
            },
            _ => {
                assert(values_view(out@) =~= start + nested_nodes(all.take(k + 1)));
            },
        }
        k = k + 1;
    }
    assert(all.take(k as int) =~= all);
}

fn push_items(out: &mut Vec<Json>, items: Vec<Json>)
    ensures
        values_view(final(out)@) == values_view(old(out)@) + items_nodes(values_view(items@)),
{
    let ghost all = values_view(items@);
    let ghost start = values_view(out@);
    let mut rest = items;
    let total: usize = rest.len();
    let mut k: usize = 0;
    assert(all.take(0) =~= Seq::<JsonView>::empty());
    while rest.len() > 0
        invariant
            k <= all.len(),
            values_view(rest@) =~= all.skip(k as int),
            k + rest@.len() == all.len(),
            all.len() == total,
            values_view(out@) == start + items_nodes(all.take(k as int)),
        decreases rest@.len(),
    {
        let ghost rs = rest@;
        let item = rest.remove(0);
        proof {
            lemma_next_value(rs, rest@, all, k as int, item);
        }
        proof {
            lemma_take_push(all, k as int);
        }
        let ghost before = values_view(out@);
        match item {
            Json::Array(n) => {
                proof {
                    lemma_array_view(n);
                }
                push_nested(out, n);
            },
            Json::Object(m) => {
                proof {
                    lemma_object_view(m);
                }
                let t = tag(m);
                let ghost b = out@;
                out.push(t);
                assert(values_view(out@) =~= values_view(b).push(t@));
            },
            _ => {},
        }
        assert(values_view(out@) =~= start + items_nodes(all.take(k + 1)));
        k = k + 1;
    }
    assert(all.take(k as int) =~= all);
}

fn push_level(out: &mut Vec<Json>, members: Vec<(String, Json)>)
    ensures
        values_view(final(out)@) == values_view(old(out)@) + members_nodes(members_view(members@)),
{
    let ghost all = members_view(members@);
    let ghost start = values_view(out@);
    let mut rest = members;
    let total: usize = rest.len();
    let mut k: usize = 0;
    assert(all.take(0) =~= Seq::<(Seq<char>, JsonView)>::empty());
    while rest.len() > 0
        invariant
            k <= all.len(),
            members_view(rest@) =~= all.skip(k as int),
            k + rest@.len() == all.len(),
            all.len() == total,
            values_view(out@) == start + members_nodes(all.take(k as int)),
        decreases rest@.len(),
    {
        let ghost rs = rest@;
        let entry = rest.remove(0);
        proof {
            lemma_next_member(rs, rest@, all, k as int, entry);
        }
        let (key, val) = entry;
        proof {
            lemma_take_push(all, k as int);
        }
        if contains(key.as_str(), "context") {
            match val {
                Json::Array(items) => {
                    proof {
                        lemma_array_view(items);
                    }
                    push_items(out, items);
                },
                _ => {},
            }
        }
        assert(values_view(out@) =~= start + members_nodes(all.take(k + 1)));
        k = k + 1;
    }
    assert(all.take(k as int) =~= all);
}

/// Every entry in a context query result, in the order met.
pub fn collect_nodes(raw: Json) -> (r: Vec<Json>)
    ensures
        values_view(r@) == collected(raw@),
{
    let mut out: Vec<Json> = Vec::new();
    match raw {
        Json::Array(levels) => {
            proof {
                lemma_array_view(levels);
            }
            let ghost all = values_view(levels@);
            let mut rest = levels;
            let total: usize = rest.len();
            let mut k: usize = 0;
            assert(all.take(0) =~= Seq::<JsonView>::empty());
            assert(values_view(out@) =~= Seq::<JsonView>::empty());
            while rest.len() > 0
                invariant
                    k <= all.len(),
                    values_view(rest@) =~= all.skip(k as int),
                    k + rest@.len() == all.len(),
                    all.len() == total,
            all.len() == total,
            k + rest@.len() == all.len(),
            all.len() == total,
                    values_view(out@) == levels_nodes(all.take(k as int)),
                decreases rest@.len(),
            {
                let ghost rs = rest@;
                let level = rest.remove(0);
                proof {
                    lemma_next_value(rs, rest@, all, k as int, level);
                }
                proof {
                    lemma_take_push(all, k as int);
                }
                match level {
                    Json::Object(m) => {
                        proof {
                            lemma_object_view(m);
                        }
                        push_level(&mut out, m);
                    },
                    _ => {},
                }
                assert(values_view(out@) =~= levels_nodes(all.take(k + 1)));
                k = k + 1;
            }
            assert(all.take(k as int) =~= all);
            out
        },
        _ => {
            assert(values_view(out@) =~= Seq::<JsonView>::empty());
            out
        },
    }
}

proof fn lemma_insert_unique_split(out: Seq<JsonView>, x: JsonView, p: int)
    requires
        0 <= p <= out.len(),
        forall|j: int| 0 <= j < p ==> text::seq_lt(node_id(#[trigger] out[j]), node_id(x)),
    ensures
        insert_unique(out, x) == out.take(p) + insert_unique(out.skip(p), x),
    decreases p,
{
    if p == 0 {
        assert(out.skip(0) =~= out);
        assert(out.take(0) + insert_unique(out, x) =~= insert_unique(out, x));
    } else {
        let a = node_id(out[0]);
        let b = node_id(x);
        assert(text::seq_lt(a, b));
        text::lemma_seq_lt_irreflexive(a);
        text::lemma_seq_lt_asymmetric(a, b);
        assert(a != b);
        assert(!text::seq_lt(b, a));
        let d = out.drop_first();
        assert forall|j: int| 0 <= j < p - 1 implies text::seq_lt(node_id(#[trigger] d[j]), node_id(x)) by {
            assert(d[j] == out[j + 1]);
        }
        lemma_insert_unique_split(d, x, p - 1);
        assert(d.skip(p - 1) =~= out.skip(p));
        assert(seq![out[0]] + d.take(p - 1) =~= out.take(p));
        assert(seq![out[0]] + (d.take(p - 1) + insert_unique(d.skip(p - 1), x)) =~= out.take(p) + insert_unique(
            out.skip(p),
            x,
        ));
    }
}

fn insert_by_id(out: &mut Vec<Json>, x: Json)
    ensures
        values_view(final(out)@) == insert_unique(values_view(old(out)@), x@),
{
    let ghost v = values_view(out@);
    let xid = node_id_of(&x);
    let mut p: usize = 0;
    while p < out.len() && str_lt(node_id_of(&out[p]).as_str(), xid.as_str())
        invariant
            p <= out@.len(),
            out@ == old(out)@,
            v == values_view(out@),
            xid@ == node_id(x@),
            forall|j: int| 0 <= j < p ==> text::seq_lt(node_id(#[trigger] v[j]), node_id(x@)),
        decreases out@.len() - p,
    {
        p = p + 1;
    }
    proof {
        lemma_insert_unique_split(v, x@, p as int);
    }
    if p < out.len() {
        let pid = node_id_of(&out[p]);
        let ghost rest = v.skip(p as int);
        assert(rest[0] == v[p as int]);
        if str_eq(pid.as_str(), xid.as_str()) {
            assert(v.take(p as int) + rest =~= v);
            return;
        }
        proof {
            text::lemma_seq_lt_total(node_id(x@), node_id(v[p as int]));
        }
        assert(insert_unique(rest, x@) == seq![x@] + rest);
    } else {
        assert(v.skip(p as int) =~= Seq::<JsonView>::empty());
    }
    out.insert(p, x);
    assert(values_view(out@) =~= v.take(p as int) + insert_unique(v.skip(p as int), x@));
}

/// The entries ordered by id, each id kept with the first entry that has it.
pub fn dedup_nodes(nodes: Vec<Json>) -> (r: Vec<Json>)
    ensures
        values_view(r@) == dedup_by_id(values_view(nodes@)),
{
    let ghost all = values_view(nodes@);
    let mut out: Vec<Json> = Vec::new();
    let mut rest = nodes;
    let total: usize = rest.len();
    let mut k: usize = 0;
    assert(all.take(0) =~= Seq::<JsonView>::empty());
    assert(values_view(out@) =~= Seq::<JsonView>::empty());
    while rest.len() > 0
        invariant
            k <= all.len(),
            values_view(rest@) =~= all.skip(k as int),
            k + rest@.len() == all.len(),
            all.len() == total,
            values_view(out@) == dedup_by_id(all.take(k as int)),
        decreases rest@.len(),
    {
        let ghost rs = rest@;
        let x = rest.remove(0);
        proof {
            lemma_next_value(rs, rest@, all, k as int, x);
        }
        proof {
            lemma_take_push(all, k as int);
        }
        insert_by_id(&mut out, x);
        k = k + 1;
    }
    assert(all.take(k as int) =~= all);
    out
}

/// The knowledge entries of a context query result: every entry found under
/// a member whose name mentions `context` (directly, or in a nested array),
/// tagged with its `type` as `node_type` (`context` where it has none),
/// ordered by id, each id kept with the first entry that has it.
pub fn flatten_context_result(raw: Json) -> (r: Vec<Json>)
    ensures
        values_view(r@) == flatten_spec(raw@),
{
    let nodes = collect_nodes(raw);
    dedup_nodes(nodes)
}

// ---------------------------------------------------------------------------
// Laws of the deduplication
// ---------------------------------------------------------------------------

/// The ids of the entries are strictly increasing.
pub open spec fn sorted_by_id(s: Seq<JsonView>) -> bool {
    forall|i: int, j: int| 0 <= i < j < s.len() ==> text::seq_lt(node_id(s[i]), node_id(s[j]))
}

/// Some entry of `s` has the id `id`.
pub open spec fn has_id(s: Seq<JsonView>, id: Seq<char>) -> bool {
    exists|k: int| 0 <= k < s.len() && node_id(s[k]) == id
}

proof fn lemma_insert_unique(out: Seq<JsonView>, x: JsonView)
    requires
        sorted_by_id(out),
    ensures
        sorted_by_id(insert_unique(out, x)),
        forall|k: int|
            0 <= k < insert_unique(out, x).len() ==> insert_unique(out, x)[k] == x || out.contains(
                insert_unique(out, x)[k],
            ),
        forall|k: int| 0 <= k < out.len() ==> insert_unique(out, x).contains(out[k]),
        has_id(insert_unique(out, x), node_id(x)),
        has_id(out, node_id(x)) ==> insert_unique(out, x) == out,
    decreases out.len(),
{
    let r = insert_unique(out, x);
    if out.len() == 0 {
        assert(node_id(r[0]) == node_id(x));
    } else if node_id(out[0]) == node_id(x) {
        assert(node_id(out[0]) == node_id(x));
    } else if text::seq_lt(node_id(x), node_id(out[0])) {
        assert forall|i: int, j: int| 0 <= i < j < r.len() implies text::seq_lt(node_id(r[i]), node_id(r[j])) by {
            if i == 0 {
                if j > 1 {
                    text::lemma_seq_lt_transitive(node_id(x), node_id(out[0]), node_id(out[j - 1]));
                }
            } else {
                assert(r[i] == out[i - 1] && r[j] == out[j - 1]);
            }
        }
        assert forall|k: int| 0 <= k < out.len() implies r.contains(out[k]) by {
            assert(r[k + 1] == out[k]);
        }
        assert(node_id(r[0]) == node_id(x));
        if has_id(out, node_id(x)) {
            let k = choose|k: int| 0 <= k < out.len() && node_id(out[k]) == node_id(x);
            if k > 0 {
                text::lemma_seq_lt_asymmetric(node_id(out[0]), node_id(out[k]));
            }
            text::lemma_seq_lt_irreflexive(node_id(x));
            assert(false);
        }
    } else {
        let d = out.drop_first();
        assert(sorted_by_id(d)) by {
            assert forall|i: int, j: int| 0 <= i < j < d.len() implies text::seq_lt(node_id(d[i]), node_id(d[j])) by {
                assert(d[i] == out[i + 1] && d[j] == out[j + 1]);
            }
        }
        lemma_insert_unique(d, x);
        let rest = insert_unique(d, x);
        assert(r == seq![out[0]] + rest);
        text::lemma_seq_lt_total(node_id(out[0]), node_id(x));
        assert(text::seq_lt(node_id(out[0]), node_id(x)));
        assert forall|i: int, j: int| 0 <= i < j < r.len() implies text::seq_lt(node_id(r[i]), node_id(r[j])) by {
            if i == 0 {
                let y = rest[j - 1];
                assert(r[j] == y);
                if y == x {
                } else {
                    assert(d.contains(y));
                    let m = choose|m: int| 0 <= m < d.len() && d[m] == y;
                    assert(out[m + 1] == y);
                }
            } else {
                assert(r[i] == rest[i - 1] && r[j] == rest[j - 1]);
            }
        }
        assert forall|k: int| 0 <= k < r.len() implies r[k] == x || out.contains(r[k]) by {
            if k > 0 {
                assert(r[k] == rest[k - 1]);
                if rest[k - 1] != x {
                    let m = choose|m: int| 0 <= m < d.len() && d[m] == rest[k - 1];
                    assert(out[m + 1] == d[m]);
                }
            }
        }
        assert forall|k: int| 0 <= k < out.len() implies r.contains(out[k]) by {
            if k == 0 {
                assert(r[0] == out[0]);
            } else {
                assert(out[k] == d[k - 1]);
                assert(rest.contains(d[k - 1]));
                let m = choose|m: int| 0 <= m < rest.len() && rest[m] == d[k - 1];
                assert(r[m + 1] == rest[m]);
            }
        }
        let m = choose|m: int| 0 <= m < rest.len() && node_id(rest[m]) == node_id(x);
        assert(r[m + 1] == rest[m]);
        if has_id(out, node_id(x)) {
            let k = choose|k: int| 0 <= k < out.len() && node_id(out[k]) == node_id(x);
            assert(k > 0);
            assert(d[k - 1] == out[k]);
            assert(has_id(d, node_id(x)));
            assert(rest == d);
            assert(r =~= out);
        }
    }
}

/// What the deduplication keeps: the ids are strictly increasing (so each
/// id is kept once), every kept entry is one of the entries, and every id
/// of the entries is kept.
pub proof fn lemma_dedup_by_id(s: Seq<JsonView>)
    ensures
        sorted_by_id(dedup_by_id(s)),
        forall|k: int| 0 <= k < dedup_by_id(s).len() ==> s.contains(#[trigger] dedup_by_id(s)[k]),
        forall|k: int| 0 <= k < s.len() ==> has_id(dedup_by_id(s), node_id(#[trigger] s[k])),
    decreases s.len(),
{
    if s.len() > 0 {
        let p = s.drop_last();
        lemma_dedup_by_id(p);
        let d = dedup_by_id(p);
        lemma_insert_unique(d, s.last());
        let r = dedup_by_id(s);
        assert(r == insert_unique(d, s.last()));
        assert forall|k: int| 0 <= k < r.len() implies s.contains(#[trigger] r[k]) by {
            if r[k] == s.last() {
                assert(s[s.len() - 1] == r[k]);
            } else {
                assert(d.contains(r[k]));
                let m = choose|m: int| 0 <= m < d.len() && d[m] == r[k];
                assert(p.contains(d[m]));
                let n = choose|n: int| 0 <= n < p.len() && p[n] == d[m];
                assert(s[n] == p[n]);
            }
        }
        assert forall|k: int| 0 <= k < s.len() implies has_id(r, node_id(#[trigger] s[k])) by {
            if k < s.len() - 1 {
                assert(s[k] == p[k]);
                assert(has_id(d, node_id(p[k])));
                let m = choose|m: int| 0 <= m < d.len() && node_id(d[m]) == node_id(p[k]);
                assert(r.contains(d[m]));
                let n = choose|n: int| 0 <= n < r.len() && r[n] == d[m];
                assert(node_id(r[n]) == node_id(s[k]));
            }
        }
    }
}

/// No entry before the one at `j` has its id.
pub open spec fn first_with_its_id(s: Seq<JsonView>, j: int) -> bool {
    forall|i: int| 0 <= i < j ==> node_id(#[trigger] s[i]) != node_id(s[j])
}

/// `y` is an entry of `s` that comes first among those with its id.
pub open spec fn kept_first(s: Seq<JsonView>, y: JsonView) -> bool {
    exists|j: int| 0 <= j < s.len() && s[j] == y && first_with_its_id(s, j)
}

/// Of the entries that share an id, the first one is the one kept.
pub proof fn lemma_dedup_keeps_first(s: Seq<JsonView>)
    ensures
        forall|k: int| 0 <= k < dedup_by_id(s).len() ==> kept_first(s, #[trigger] dedup_by_id(s)[k]),
    decreases s.len(),
{
    if s.len() > 0 {
        let p = s.drop_last();
        let x = s.last();
        lemma_dedup_keeps_first(p);
        lemma_dedup_by_id(p);
        let d = dedup_by_id(p);
        lemma_insert_unique(d, x);
        let r = dedup_by_id(s);
        assert forall|k: int| 0 <= k < r.len() implies kept_first(s, #[trigger] r[k]) by {
            if d.contains(r[k]) {
                let m = choose|m: int| 0 <= m < d.len() && d[m] == r[k];
                assert(kept_first(p, d[m]));
                let j = choose|j: int| 0 <= j < p.len() && p[j] == d[m] && first_with_its_id(p, j);
                assert(s[j] == p[j]);
                assert forall|i: int| 0 <= i < j implies node_id(#[trigger] s[i]) != node_id(s[j]) by {
                    assert(s[i] == p[i]);
                }
                assert(first_with_its_id(s, j));
            } else {
                assert(r[k] == x);
                if has_id(d, node_id(x)) {
                    assert(r == d);
                    assert(d[k] == r[k]);
                    assert(false);
                }
                let j = s.len() - 1;
                assert forall|i: int| 0 <= i < j implies node_id(#[trigger] s[i]) != node_id(s[j]) by {
                    assert(s[i] == p[i]);
                    assert(has_id(d, node_id(p[i])));
                }
                assert(first_with_its_id(s, j));
            }
        }
    }
}

} // verus!
