//! Record ids of the store: `table:key`.

use vstd::prelude::*;
use crate::text;
use crate::text::{concat, owned};

verus! {

/// Index of the first `:` in `s` at or after `i`, if any.
pub open spec fn colon_index(s: Seq<char>, i: int) -> Option<int>
    decreases s.len() - i,
{
    if i < 0 || i >= s.len() {
        None
    } else if s[i] == ':' {
        Some(i)
    } else {
        colon_index(s, i + 1)
    }
}

/// The key of a record id: what follows its first `:`, or the whole id
/// where it has none.
pub open spec fn record_key_spec(id: Seq<char>) -> Seq<char> {
    match colon_index(id, 0) {
        Some(i) => id.skip(i + 1),
        None => id,
    }
}

/// The table of a record id: what precedes its first `:`, or nothing where
/// it has none.
pub open spec fn record_table_spec(id: Seq<char>) -> Seq<char> {
    match colon_index(id, 0) {
        Some(i) => id.take(i),
        None => Seq::empty(),
    }
}

proof fn lemma_colon_index(s: Seq<char>, i: int)
    requires
        0 <= i <= s.len(),
    ensures
        colon_index(s, i) matches Some(j) ==> i <= j < s.len() && s[j] == ':' && forall|k: int|
            i <= k < j ==> s[k] != ':',
        colon_index(s, i) is None ==> forall|k: int| i <= k < s.len() ==> s[k] != ':',
    decreases s.len() - i,
{
    if i < s.len() {
        lemma_colon_index(s, i + 1);
    }
}

fn find_colon(id: &str) -> (r: Option<usize>)
    ensures
        match colon_index(id@, 0) {
            Some(i) => r matches Some(x) && x as int == i,
            None => r is None,
        },
        r matches Some(i) ==> i < id@.len(),
{
    let n = id.unicode_len();
    let mut i: usize = 0;
    while i < n
        invariant
            n == id@.len(),
            i <= n,
            colon_index(id@, 0) == colon_index(id@, i as int),
        decreases n - i,
    {
        if id.get_char(i) == ':' {
            return Some(i);
        }
        i = i + 1;
    }
    None
}

/// The key of a record id (what follows the first `:`), or the whole id.
pub fn record_key(id: &str) -> (r: &str)
    ensures
        r@ == record_key_spec(id@),
{
    let n = id.unicode_len();
    match find_colon(id) {
        Some(i) => {
            let r = id.substring_char(i + 1, n);
            assert(r@ =~= id@.skip(i + 1));
            r
        },
        None => id,
    }
}

/// The table of a record id (what precedes the first `:`), or nothing.
pub fn record_table(id: &str) -> (r: &str)
    ensures
        r@ == record_table_spec(id@),
{
    match find_colon(id) {
        Some(i) => {
            let r = id.substring_char(0, i);
            assert(r@ =~= id@.take(i as int));
            r
        },
        None => {
            let r = id.substring_char(0, 0);
            assert(r@ =~= Seq::<char>::empty());
            r
        },
    }
}

/// `id` names a record of `table`: it starts with the table's name and `:`.
pub open spec fn in_table(table: Seq<char>, id: Seq<char>) -> bool {
    id.len() > table.len() && id.take(table.len() as int) == table && id[table.len() as int] == ':'
}

/// Whether `id` starts with `table` and `:`.
pub fn has_table_prefix(table: &str, id: &str) -> (r: bool)
    ensures
        r == in_table(table@, id@),
{
    let n = table.unicode_len();
    let m = id.unicode_len();
    if m <= n {
        return false;
    }
    let mut i: usize = 0;
    while i < n
        invariant
            n == table@.len(),
            m == id@.len(),
            n < m,
            i <= n,
            forall|j: int| 0 <= j < i ==> id@[j] == table@[j],
        decreases n - i,
    {
        if id.get_char(i) != table.get_char(i) {
            assert(id@.take(n as int)[i as int] != table@[i as int]);
            return false;
        }
        i = i + 1;
    }
    assert(id@.take(n as int) =~= table@);
    id.get_char(n) == ':'
}

/// How `str`'s `Debug` writes a string: quoted, with special characters
/// escaped.
pub uninterp spec fn str_debug(s: Seq<char>) -> Seq<char>;

/// `<str as Debug>::fmt`, through `format!("{:?}")`: the string quoted and
/// escaped, as a function of the string alone.
#[verifier::external_body]
pub(crate) fn debug_str(s: &str) -> (r: String)
    ensures
        r@ == str_debug(s@),
{
    format!("{:?}", s)
}

/// The list of tables as `Debug` writes a slice of strings.
pub open spec fn tables_debug(tables: Seq<Seq<char>>) -> Seq<char> {
    "["@ + tables_debug_items(tables) + "]"@
}

/// The tables as `Debug` writes them, separated by `, `.
pub open spec fn tables_debug_items(tables: Seq<Seq<char>>) -> Seq<char>
    decreases tables.len(),
{
    if tables.len() == 0 {
        Seq::empty()
    } else if tables.len() == 1 {
        str_debug(tables[0])
    } else {
        tables_debug_items(tables.drop_last()) + ", "@ + str_debug(tables.last())
    }
}

/// A record id that names none of the expected tables.
#[derive(Debug)]
pub struct RecordIdError {
    pub tables: Vec<String>,
    pub id: String,
}

/// The text of a record id error.
pub open spec fn record_id_message(tables: Seq<Seq<char>>, id: Seq<char>) -> Seq<char> {
    "Expected record id for one of "@ + tables_debug(tables) + ", got "@ + str_debug(id)
}

/// The views of a list of strings.
pub open spec fn strings_view(v: Seq<String>) -> Seq<Seq<char>> {
    v.map_values(|s: String| s@)
}

/// The views of a list of string slices.
pub open spec fn strs_view(v: Seq<&str>) -> Seq<Seq<char>> {
    v.map_values(|s: &str| s@)
}

impl RecordIdError {
    /// The text of the error.
    pub fn message(&self) -> (r: String)
        ensures
            r@ == record_id_message(strings_view(self.tables@), self.id@),
    {
        let ghost t = strings_view(self.tables@);
        let mut items = String::new();
        let mut i: usize = 0;
        assert(t.take(0) =~= Seq::<Seq<char>>::empty());
        while i < self.tables.len()
            invariant
                i <= self.tables@.len(),
                t == strings_view(self.tables@),
                items@ == tables_debug_items(t.take(i as int)),
            decreases self.tables@.len() - i,
        {
            if i > 0 {
                items.append(", ");
            }
            let d = debug_str(self.tables[i].as_str());
            items.append(d.as_str());
            proof {
                assert(t.take(i + 1).drop_last() =~= t.take(i as int));
                assert(t.take(i + 1).last() == t[i as int]);
                if i == 0 {
                    assert(items@ =~= tables_debug_items(t.take(1)));
                }
            }
            i = i + 1;
        }
        assert(t.take(i as int) =~= t);
        let mut r = owned("Expected record id for one of ");
        r.append("[");
        r.append(items.as_str());
        r.append("]");
        r.append(", got ");
        let d = debug_str(self.id.as_str());
        r.append(d.as_str());
        r
    }
}

fn to_strings(tables: &[&str]) -> (r: Vec<String>)
    ensures
        strings_view(r@) == strs_view(tables@),
{
    let mut r: Vec<String> = Vec::new();
    let mut i: usize = 0;
    while i < tables.len()
        invariant
            i <= tables@.len(),
            strings_view(r@) =~= strs_view(tables@).take(i as int),
        decreases tables@.len() - i,
    {
        let ghost before = r@;
        r.push(owned(tables[i]));
        assert(strings_view(r@) =~= strings_view(before).push(tables@[i as int]@));
        assert(strs_view(tables@).take(i + 1) =~= strs_view(tables@).take(i as int).push(tables@[i as int]@));
        i = i + 1;
    }
    assert(strs_view(tables@).take(i as int) =~= strs_view(tables@));
    r
}

/// Index of the first of `tables` that `id` names a record of, if any.
pub open spec fn table_index(tables: Seq<Seq<char>>, id: Seq<char>, i: int) -> Option<int>
    decreases tables.len() - i,
{
    if i < 0 || i >= tables.len() {
        None
    } else if in_table(tables[i], id) {
        Some(i)
    } else {
        table_index(tables, id, i + 1)
    }
}

/// The first of `tables` that `id` names a record of; an error where it
/// names none of them.
pub fn ensure_one_of_record_ids<'a>(tables: &[&'a str], id: &'a str) -> (r: Result<&'a str, RecordIdError>)
    ensures
        match table_index(strs_view(tables@), id@, 0) {
            Some(i) => r matches Ok(t) && t == tables@[i],
            None => r matches Err(e) && strings_view(e.tables@) == strs_view(tables@) && e.id@ == id@,
        },
{
    let ghost tv = strs_view(tables@);
    let mut i: usize = 0;
    while i < tables.len()
        invariant
            i <= tables@.len(),
            tv == strs_view(tables@),
            table_index(tv, id@, 0) == table_index(tv, id@, i as int),
        decreases tables@.len() - i,
    {
        if has_table_prefix(tables[i], id) {
            return Ok(tables[i]);
        }
        i = i + 1;
    }
    Err(RecordIdError { tables: to_strings(tables), id: owned(id) })
}

/// Checks that `id` names a record of `table`.
pub fn ensure_record_id(table: &str, id: &str) -> (r: Result<(), RecordIdError>)
    ensures
        in_table(table@, id@) ==> r is Ok,
        !in_table(table@, id@) ==> (r matches Err(e) && strings_view(e.tables@) == seq![table@] && e.id@
            == id@),
{
    if has_table_prefix(table, id) {
        Ok(())
    } else {
        let tables = vec![owned(table)];
        assert(strings_view(tables@) =~= seq![table@]);
        Err(RecordIdError { tables, id: owned(id) })
    }
}

} // verus!
