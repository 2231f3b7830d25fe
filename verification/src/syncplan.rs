use vstd::prelude::*;

use crate::text::{replace_all, replace_str, signed_decimal, i64_to_decimal, str_eq};
use crate::weljson::JsonValue;

verus! {

broadcast use vstd::string::group_string_axioms;

/// Where copying from the in-memory cache to the disk cache starts: the
/// disk's highest id less the rows it had at start (0 when it has no id).
pub fn sync_offset(max_id: Option<i64>, num_initial_rows: i64) -> (offset: i64)
    requires
        max_id matches Some(m) ==> i64::MIN <= m - num_initial_rows <= i64::MAX,
    ensures
        offset == match max_id {
            Some(m) => m - num_initial_rows,
            None => 0,
        },
{
    match max_id {
        Some(m) => m - num_initial_rows,
        None => 0,
    }
}

/// The rows a page copy inserts: the query's first row is read to see
/// whether the page is empty and is not copied.
pub open spec fn page_copied<T>(page: Seq<T>) -> Seq<T> {
    if page.len() == 0 {
        seq![]
    } else {
        page.drop_first()
    }
}

/// The offset after copying a page of `page_len` rows at `offset`, or `None`
/// when the copy stops (an empty page, or a page that inserted nothing).
pub open spec fn copy_next(offset: int, page_len: nat) -> Option<int> {
    if page_len <= 1 {
        None
    } else {
        Some(offset + page_len - 1)
    }
}

/// What a page copy decides at `offset`: stop on an empty page or when it
/// inserted no row, else move on by the rows it inserted (for a page of
/// `num_rows + 1` rows, as `copy_next` says).
pub fn copy_step(offset: i64, page_empty: bool, num_rows: i64) -> (r: Option<i64>)
    requires
        !page_empty && num_rows != 0 ==> i64::MIN <= offset + num_rows <= i64::MAX,
    ensures
        r == (if page_empty || num_rows == 0 {
            None
        } else {
            Some((offset + num_rows) as i64)
        }),
        !page_empty && num_rows >= 0 ==> match copy_next(offset as int, (num_rows + 1) as nat) {
            Some(n) => r == Some(n as i64),
            None => r is None,
        },
{
    if page_empty || num_rows == 0 {
        None
    } else {
        Some(offset + num_rows)
    }
}

/// The rows a page copy inserts, as `page_copied` says.
pub fn copied_rows<T>(page: Vec<T>) -> (rows: Vec<T>)
    ensures
        rows@ == page_copied(page@),
{
    let mut page = page;
    if page.len() > 0 {
        page.remove(0);
    }
    page
}

/// The page of at most `batch` rows at `offset` of a table.
pub open spec fn page_at<T>(table: Seq<T>, batch: nat, offset: nat) -> Seq<T> {
    if offset >= table.len() {
        seq![]
    } else if offset + batch <= table.len() {
        table.subrange(offset as int, (offset + batch) as int)
    } else {
        table.subrange(offset as int, table.len() as int)
    }
}

/// Every row a whole batched copy of `table` inserts, from `offset` on.
pub open spec fn copy_run<T>(table: Seq<T>, batch: nat, offset: nat) -> Seq<T>
    decreases table.len() - offset,
{
    let page = page_at(table, batch, offset);
    match copy_next(offset as int, page.len()) {
        Some(n) => if n > offset {
            page_copied(page) + copy_run(table, batch, n as nat)
        } else {
            page_copied(page)
        },
        None => page_copied(page),
    }
}

/// A batched copy in pages of two rows or more, started at a row it does
/// not copy, inserts every later row exactly once, in order: each page's
/// first row is the previous page's last.
pub proof fn lemma_copy_run_from<T>(table: Seq<T>, batch: nat, offset: nat)
    requires
        batch >= 2,
        offset < table.len(),
    ensures
        copy_run(table, batch, offset) == table.subrange(offset + 1int, table.len() as int),
    decreases table.len() - offset,
{
    let page = page_at(table, batch, offset);
    if page.len() <= 1 {
        assert(page.len() == 1);
        assert(offset + 1 == table.len());
        assert(page_copied(page) =~= table.subrange(offset + 1int, table.len() as int));
    } else {
        let n = (offset + page.len() - 1) as nat;
        assert(n > offset);
        lemma_copy_run_from(table, batch, n);
        assert(page_copied(page) + table.subrange(n + 1int, table.len() as int) =~= table.subrange(
            offset + 1int,
            table.len() as int,
        ));
    }
}

/// A batched copy of a table in pages of two rows or more inserts every row
/// but the first, once each, in order; an empty table inserts nothing.
pub proof fn lemma_copy_table_skips_first_row<T>(table: Seq<T>, batch: nat)
    requires
        batch >= 2,
    ensures
        copy_run(table, batch, 0) == page_copied(table),
{
    if table.len() == 0 {
        assert(page_at(table, batch, 0) =~= Seq::<T>::empty());
        assert(copy_run(table, batch, 0) =~= Seq::<T>::empty());
    } else {
        lemma_copy_run_from(table, batch, 0);
        assert(table.subrange(1, table.len() as int) =~= table.drop_first());
    }
}

/// The page query of the search export, with its offset written in.
pub open spec fn page_query_spec(offset: i64) -> Seq<char> {
    replace_all(
        "SELECT rawevent, id FROM events LIMIT 1000 OFFSET __OFFSET__"@,
        "__OFFSET__"@,
        signed_decimal(offset as int),
    )
}

/// The page query of the search export at `offset`.
pub fn page_query(offset: i64) -> (q: String)
    ensures
        q@ == page_query_spec(offset),
{
    proof {
        reveal_strlit("__OFFSET__");
    }
    let off = i64_to_decimal(offset);
    replace_str("SELECT rawevent, id FROM events LIMIT 1000 OFFSET __OFFSET__", "__OFFSET__", off.as_str())
}

/// The next offset of the search export: it moves by 100 rows per page.
pub fn next_offset(offset: i64) -> (n: i64)
    requires
        offset <= i64::MAX - 100,
    ensures
        n == offset + 100,
{
    offset + 100
}

/// The index of the first member named `key`.
pub open spec fn key_index(entries: Seq<(String, JsonValue)>, key: Seq<char>) -> Option<int>
    decreases entries.len(),
{
    if entries.len() == 0 {
        None
    } else if entries.last().0@ == key && key_index(entries.drop_last(), key) is None {
        Some(entries.len() - 1)
    } else {
        key_index(entries.drop_last(), key)
    }
}

/// Whether `e` is the member `id` with the number `id`.
pub open spec fn is_id_member(e: (String, JsonValue), id: i64) -> bool {
    &&& e.0@ == "id"@
    &&& e.1 matches JsonValue::Number(t) && t@ == signed_decimal(id as int)
}

/// A record with its cache id set (`map.insert("id", id)`): an object gets
/// the member `id`, replacing one it had; anything else is left as it is.
pub fn with_id(record: JsonValue, id: i64) -> (r: JsonValue)
    ensures
        match record {
            JsonValue::Object(entries) => r matches JsonValue::Object(out) && match key_index(entries@, "id"@) {
                Some(i) => out@.len() == entries@.len() && is_id_member(out@[i], id) && forall|j: int|
                    0 <= j < entries@.len() && j != i ==> out@[j] == entries@[j],
                None => out@.len() == entries@.len() + 1 && out@.subrange(0, entries@.len() as int)
                    == entries@ && is_id_member(out@.last(), id),
            },
            _ => r == record,
        },
{
    match record {
        JsonValue::Object(entries) => {
            let ghost orig = entries@;
            let mut entries = entries;
            let mut i: usize = 0;
            let mut found: Option<usize> = None;
            assert(orig.subrange(0, 0) =~= Seq::<(String, JsonValue)>::empty());
            while i < entries.len()
                invariant
                    i <= entries@.len(),
                    entries@ == orig,
                    match found {
                        Some(f) => key_index(orig.subrange(0, i as int), "id"@) == Some(f as int),
                        None => key_index(orig.subrange(0, i as int), "id"@) is None,
                    },
                decreases entries@.len() - i,
            {
                proof {
                    assert(orig.subrange(0, i + 1).drop_last() =~= orig.subrange(0, i as int));
                }
                if found.is_none() && str_eq(entries[i].0.as_str(), "id") {
                    found = Some(i);
                }
                i += 1;
            }
            assert(orig.subrange(0, orig.len() as int) =~= orig);
            let member = ("id".to_string(), JsonValue::Number(i64_to_decimal(id)));
            match found {
                Some(f) => {
                    proof {
                        lemma_key_index_bound(orig, "id"@);
                    }
                    entries.set(f, member);
                },
                None => {
                    entries.push(member);
                    assert(entries@.subrange(0, orig.len() as int) =~= orig);
                },
            }
            JsonValue::Object(entries)
        },
        _ => record,
    }
}

proof fn lemma_key_index_bound(entries: Seq<(String, JsonValue)>, key: Seq<char>)
    ensures
        key_index(entries, key) matches Some(i) ==> 0 <= i < entries.len(),
    decreases entries.len(),
{
    if entries.len() > 0 {
        lemma_key_index_bound(entries.drop_last(), key);
    }
}

} // verus!
