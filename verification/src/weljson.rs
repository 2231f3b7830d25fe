use vstd::prelude::*;

use crate::eventrec::GenericEventRecord;
use crate::procinfo::{epoch, fallback_date, DateError};
use crate::text::{replace_all, replace_str, starts_with, str_eq};
use crate::timefmt::{parse_rfc3339_utc, rfc3339_utc, Timestamp};

verus! {

broadcast use vstd::string::group_string_axioms;

/// A JSON value: an object keeps its members in the order they are walked
/// (for a parsed event log record, sorted by key), a number keeps its text.
pub enum JsonValue {
    Null,
    Bool(bool),
    Number(String),
    Str(String),
    Array(Vec<JsonValue>),
    Object(Vec<(String, JsonValue)>),
}

/// The leaves of an event-log value, each under its flattened key path:
/// `#t` text nodes take the path of their parent, string members their own
/// key, array strings the path of their array's parent; the `#c\` child
/// markers are dropped from the paths.
pub open spec fn wel_values(key: Seq<char>, val: JsonValue, parentkey: Seq<char>) -> Seq<
    (Seq<char>, JsonValue),
>
    decreases val, 1nat,
{
    let pk = replace_all(parentkey, "#c\\"@, ""@);
    if key == "#t"@ {
        seq![(pk, val)]
    } else {
        match val {
            JsonValue::Object(entries) => wel_entries(entries@, pk + "\\"@ + key),
            JsonValue::Array(items) => wel_items(items@, pk, pk + "\\"@ + key),
            JsonValue::Str(_) => seq![(key, val)],
            _ => seq![],
        }
    }
}

/// The leaves of each member of an object, in member order, under `parent`.
pub open spec fn wel_entries(entries: Seq<(String, JsonValue)>, parent: Seq<char>) -> Seq<
    (Seq<char>, JsonValue),
>
    decreases entries, 0nat,
{
    if entries.len() == 0 {
        seq![]
    } else {
        wel_entries(entries.drop_last(), parent) + wel_values(
            entries.last().0@,
            entries.last().1,
            parent,
        )
    }
}

/// The leaves of an array's items: the members of object items under
/// `obj_parent`, string items as themselves under `str_parent`; other items
/// give nothing.
pub open spec fn wel_items(items: Seq<JsonValue>, str_parent: Seq<char>, obj_parent: Seq<char>) -> Seq<
    (Seq<char>, JsonValue),
>
    decreases items, 0nat,
{
    if items.len() == 0 {
        seq![]
    } else {
        wel_items(items.drop_last(), str_parent, obj_parent) + match items.last() {
            JsonValue::Object(o) => wel_entries(o@, obj_parent),
            JsonValue::Str(_) => seq![(str_parent, items.last())],
            _ => seq![],
        }
    }
}

/// The key paths and values of a list of leaves.
pub open spec fn leaves_view<'a>(v: Seq<(String, &'a JsonValue)>) -> Seq<(Seq<char>, JsonValue)> {
    Seq::new(v.len(), |i: int| (v[i].0@, *v[i].1))
}

fn concat3(a: &str, b: &str, c: &str) -> (s: String)
    ensures
        s@ == a@ + b@ + c@,
{
    let mut s = a.to_string();
    s.append(b);
    s.append(c);
    s
}

fn append_leaves<'a>(out: &mut Vec<(String, &'a JsonValue)>, more: Vec<(String, &'a JsonValue)>)
    ensures
        leaves_view(final(out)@) == leaves_view(old(out)@) + leaves_view(more@),
{
    let mut more = more;
    let ghost start = out@;
    let ghost added = more@;
    let mut i: usize = 0;
    let n = more.len();
    let mut rest = more;
    while rest.len() > 0
        invariant
            i + rest@.len() == n,
            n == added.len(),
            rest@ == added.subrange(i as int, n as int),
            leaves_view(out@) == leaves_view(start) + leaves_view(added.subrange(0, i as int)),
        decreases rest@.len(),
    {
        let item = rest.remove(0);
        let ghost before = out@;
        let ghost entry = (item.0@, *item.1);
        assert(item == added[i as int]);
        out.push(item);
        proof {
            assert(leaves_view(added.subrange(0, i + 1)) =~= leaves_view(added.subrange(0, i as int))
                .push(entry));
            assert(leaves_view(out@) =~= leaves_view(before).push(entry));
        }
        i += 1;
    }
    assert(added.subrange(0, n as int) =~= added);
}

/// The leaves of an event-log value under its key, as `wel_values` says; the
/// values are the nodes of `val` themselves.
pub fn get_wel_values<'a>(key: &String, val: &'a JsonValue, parentkey: &str) -> (out: Vec<
    (String, &'a JsonValue),
>)
    ensures
        leaves_view(out@) == wel_values(key@, *val, parentkey@),
    decreases val,
{
    proof {
        reveal_strlit("#c\\");
    }
    let pk = replace_str(parentkey, "#c\\", "");
    if str_eq(key.as_str(), "#t") {
        let mut out: Vec<(String, &'a JsonValue)> = Vec::new();
        out.push((pk, val));
        assert(leaves_view(out@) =~= seq![(pk@, *val)]);
        return out;
    }
    match val {
        JsonValue::Object(entries) => {
            let parent = concat3(pk.as_str(), "\\", key.as_str());
            get_entries(entries, parent.as_str())
        },
        JsonValue::Array(items) => {
            let obj_parent = concat3(pk.as_str(), "\\", key.as_str());
            let mut out: Vec<(String, &'a JsonValue)> = Vec::new();
            let mut i: usize = 0;
            assert(items@.subrange(0, 0) =~= Seq::<JsonValue>::empty());
            while i < items.len()
                invariant
                    i <= items@.len(),
                    *val == JsonValue::Array(*items),
                    leaves_view(out@) == wel_items(items@.subrange(0, i as int), pk@, obj_parent@),
                decreases items@.len() - i,
            {
                let item = &items[i];
                proof {
                    assert(items@.subrange(0, i + 1).drop_last() =~= items@.subrange(0, i as int));
                }
                match item {
                    JsonValue::Object(o) => {
                        proof {
                            assert((*val)->Array_0 == *items);
                            assert(decreases_to!(*val => (*val)->Array_0));
                            assert(decreases_to!(*items => items[i as int]));
                            assert(decreases_to!(*val => *o));
                        }
                        let more = get_entries(o, obj_parent.as_str());
                        append_leaves(&mut out, more);
                    },
                    JsonValue::Str(_) => {
                        let ghost before = leaves_view(out@);
                        out.push((pk.clone(), item));
                        assert(leaves_view(out@) =~= before + seq![(pk@, *item)]);
                    },
                    _ => {},
                }
                i += 1;
            }
            assert(items@.subrange(0, items@.len() as int) =~= items@);
            out
        },
        JsonValue::Str(_) => {
            let mut out: Vec<(String, &'a JsonValue)> = Vec::new();
            out.push((key.clone(), val));
            assert(leaves_view(out@) =~= seq![(key@, *val)]);
            out
        },
        _ => {
            let out: Vec<(String, &'a JsonValue)> = Vec::new();
            assert(leaves_view(out@) =~= Seq::<(Seq<char>, JsonValue)>::empty());
            out
        },
    }
}

/// The leaves of each member of an object under `parent`, as `wel_entries`
/// says.
fn get_entries<'a>(entries: &'a Vec<(String, JsonValue)>, parent: &str) -> (out: Vec<
    (String, &'a JsonValue),
>)
    ensures
        leaves_view(out@) == wel_entries(entries@, parent@),
    decreases entries,
{
    let mut out: Vec<(String, &'a JsonValue)> = Vec::new();
    let mut i: usize = 0;
    assert(entries@.subrange(0, 0) =~= Seq::<(String, JsonValue)>::empty());
    assert(leaves_view(out@) =~= Seq::<(Seq<char>, JsonValue)>::empty());
    while i < entries.len()
        invariant
            i <= entries@.len(),
            leaves_view(out@) == wel_entries(entries@.subrange(0, i as int), parent@),
        decreases entries@.len() - i,
    {
        let e = &entries[i];
        proof {
            assert(entries@.subrange(0, i + 1).drop_last() =~= entries@.subrange(0, i as int));
        }
        let more = get_wel_values(&e.0, &e.1, parent);
        append_leaves(&mut out, more);
        i += 1;
    }
    assert(entries@.subrange(0, entries@.len() as int) =~= entries@);
    out
}

/// The map an association list stands for: later entries win.
pub open spec fn assoc_view<'a>(s: Seq<(String, &'a JsonValue)>) -> Map<Seq<char>, JsonValue>
    decreases s.len(),
{
    if s.len() == 0 {
        Map::empty()
    } else {
        assoc_view(s.drop_last()).insert(s.last().0@, *s.last().1)
    }
}

/// Whether no key occurs twice in an association list.
pub open spec fn keys_distinct<'a>(s: Seq<(String, &'a JsonValue)>) -> bool {
    forall|i: int, j: int| 0 <= i < j < s.len() ==> s[i].0@ != s[j].0@
}

proof fn lemma_assoc_dom<'a>(s: Seq<(String, &'a JsonValue)>, k: Seq<char>)
    ensures
        assoc_view(s).dom().contains(k) <==> exists|i: int| 0 <= i < s.len() && s[i].0@ == k,
    decreases s.len(),
{
    if s.len() > 0 {
        lemma_assoc_dom(s.drop_last(), k);
        if assoc_view(s.drop_last()).dom().contains(k) {
            let i = choose|i: int| 0 <= i < s.drop_last().len() && s.drop_last()[i].0@ == k;
            assert(s[i].0@ == k);
        }
        if exists|i: int| 0 <= i < s.len() && s[i].0@ == k {
            let i = choose|i: int| 0 <= i < s.len() && s[i].0@ == k;
            if i < s.len() - 1 {
                assert(s.drop_last()[i].0@ == k);
            }
        }
    }
}

proof fn lemma_assoc_update<'a>(s: Seq<(String, &'a JsonValue)>, i: int, e: (String, &'a JsonValue))
    requires
        keys_distinct(s),
        0 <= i < s.len(),
        s[i].0@ == e.0@,
    ensures
        assoc_view(s.update(i, e)) == assoc_view(s).insert(e.0@, *e.1),
        keys_distinct(s.update(i, e)),
    decreases s.len(),
{
    let t = s.update(i, e);
    if i == s.len() - 1 {
        assert(t.drop_last() =~= s.drop_last());
        assert(assoc_view(t) =~= assoc_view(s).insert(e.0@, *e.1));
    } else {
        assert(t.drop_last() =~= s.drop_last().update(i, e));
        lemma_assoc_update(s.drop_last(), i, e);
        assert(s.last().0@ != e.0@);
        assert(assoc_view(t) =~= assoc_view(s).insert(e.0@, *e.1));
    }
}

/// The index of `key` in an association list, if it is there.
fn assoc_find<'a>(m: &Vec<(String, &'a JsonValue)>, key: &String) -> (r: Option<usize>)
    ensures
        match r {
            Some(i) => i < m@.len() && m@[i as int].0@ == key@,
            None => forall|i: int| 0 <= i < m@.len() ==> m@[i].0@ != key@,
        },
{
    let mut i: usize = 0;
    while i < m.len()
        invariant
            i <= m@.len(),
            forall|j: int| 0 <= j < i ==> m@[j].0@ != key@,
        decreases m@.len() - i,
    {
        if str_eq(m[i].0.as_str(), key.as_str()) {
            return Some(i);
        }
        i += 1;
    }
    None
}

/// `Map::contains_key` on an association list.
fn assoc_contains<'a>(m: &Vec<(String, &'a JsonValue)>, key: &String) -> (b: bool)
    ensures
        b == assoc_view(m@).dom().contains(key@),
{
    proof {
        lemma_assoc_dom(m@, key@);
    }
    assoc_find(m, key).is_some()
}

/// `Map::insert` on an association list: the value under an existing key is
/// replaced, a new key is added.
fn assoc_insert<'a>(m: &mut Vec<(String, &'a JsonValue)>, key: String, v: &'a JsonValue)
    requires
        keys_distinct(old(m)@),
    ensures
        keys_distinct(final(m)@),
        assoc_view(final(m)@) == assoc_view(old(m)@).insert(key@, *v),
{
    match assoc_find(m, &key) {
        Some(i) => {
            proof {
                lemma_assoc_update(m@, i as int, (key, v));
            }
            m.set(i, (key, v));
        },
        None => {
            let ghost before = m@;
            m.push((key, v));
            assert(m@.drop_last() =~= before);
        },
    }
}

/// Whether a leaf holds the text `(NULL)`, which the flattening skips.
pub open spec fn is_null_text(v: JsonValue) -> bool {
    match v {
        JsonValue::Str(s) => s@ == "(NULL)"@,
        _ => false,
    }
}

/// One leaf added to the flattened record (map, next number for a repeated
/// key): `(NULL)` texts are skipped; `System` leaves are stored under their
/// path below `System` (a later one replacing an earlier); others under
/// their path below the root, numbered when the key is taken; `@` signs are
/// dropped from keys.
pub open spec fn flatten_step(
    st: (Map<Seq<char>, JsonValue>, int),
    leaf: (Seq<char>, JsonValue),
) -> (Map<Seq<char>, JsonValue>, int) {
    let (m, kr) = st;
    let (k, v) = leaf;
    if is_null_text(v) {
        (m, kr)
    } else if starts_with(k, "<root>\\System"@) {
        (m.insert(replace_all(replace_all(k, "<root>\\System\\"@, ""@), "@"@, ""@), v), kr)
    } else {
        let nk = replace_all(replace_all(k, "<root>\\"@, ""@), "@"@, ""@);
        if m.dom().contains(nk) {
            (m.insert(nk + crate::text::decimal(kr as nat), v), kr + 1)
        } else {
            (m.insert(nk, v), kr)
        }
    }
}

/// The leaves added in order.
pub open spec fn flatten_leaves(
    st: (Map<Seq<char>, JsonValue>, int),
    leaves: Seq<(Seq<char>, JsonValue)>,
) -> (Map<Seq<char>, JsonValue>, int)
    decreases leaves.len(),
{
    if leaves.len() == 0 {
        st
    } else {
        flatten_step(flatten_leaves(st, leaves.drop_last()), leaves.last())
    }
}

/// The members of the event object flattened in order, each member's leaves
/// numbering repeated keys from 1.
pub open spec fn flatten_members(entries: Seq<(String, JsonValue)>) -> Map<Seq<char>, JsonValue>
    decreases entries.len(),
{
    if entries.len() == 0 {
        Map::empty()
    } else {
        flatten_leaves(
            (flatten_members(entries.drop_last()), 1),
            wel_values(entries.last().0@, entries.last().1, "<root>"@),
        ).0
    }
}

/// The value under the first member named `key` of an object.
pub open spec fn member(entries: Seq<(String, JsonValue)>, key: Seq<char>) -> Option<JsonValue>
    decreases entries.len(),
{
    if entries.len() == 0 {
        None
    } else if entries[0].0@ == key {
        Some(entries[0].1)
    } else {
        member(entries.drop_first(), key)
    }
}

/// `value[key]`: the member of an object, `None` (JSON null) otherwise.
pub open spec fn field(v: JsonValue, key: Seq<char>) -> Option<JsonValue> {
    match v {
        JsonValue::Object(entries) => member(entries@, key),
        _ => None,
    }
}

/// The flattened form of an event-log record: the leaves of its `Event`
/// object, keyed by path.
pub open spec fn wel_raw_map(event: JsonValue) -> Map<Seq<char>, JsonValue> {
    match field(event, "Event"@) {
        Some(JsonValue::Object(entries)) => flatten_members(entries@),
        _ => Map::empty(),
    }
}

/// `value[key]` on a JSON value.
pub fn get_field<'a>(v: &'a JsonValue, key: &str) -> (r: Option<&'a JsonValue>)
    ensures
        match r {
            Some(x) => field(*v, key@) == Some(*x),
            None => field(*v, key@) is None,
        },
{
    match v {
        JsonValue::Object(entries) => {
            let mut i: usize = 0;
            assert(entries@.subrange(0, entries@.len() as int) =~= entries@);
            while i < entries.len()
                invariant
                    i <= entries@.len(),
                    *v == JsonValue::Object(*entries),
                    member(entries@.subrange(i as int, entries@.len() as int), key@) == member(
                        entries@,
                        key@,
                    ),
                decreases entries@.len() - i,
            {
                if str_eq(entries[i].0.as_str(), key) {
                    return Some(&entries[i].1);
                }
                assert(entries@.subrange(i as int, entries@.len() as int).drop_first()
                    =~= entries@.subrange(i + 1, entries@.len() as int));
                i += 1;
            }
            None
        },
        _ => None,
    }
}

fn is_null_leaf(v: &JsonValue) -> (b: bool)
    ensures
        b == is_null_text(*v),
{
    match v {
        JsonValue::Str(s) => str_eq(s.as_str(), "(NULL)"),
        _ => false,
    }
}

/// Flattens an event-log record (as parsed from its JSON form) into one
/// level: every leaf of its `Event` object under its key path, as
/// `wel_raw_map` says. No key occurs twice in the result.
pub fn wel_raw_to_obj<'a>(event: &'a JsonValue) -> (out: Vec<(String, &'a JsonValue)>)
    ensures
        keys_distinct(out@),
        assoc_view(out@) == wel_raw_map(*event),
{
    let mut ret: Vec<(String, &'a JsonValue)> = Vec::new();
    assert(assoc_view(ret@) =~= Map::<Seq<char>, JsonValue>::empty());
    let members = match get_field(event, "Event") {
        Some(JsonValue::Object(entries)) => entries,
        _ => return ret,
    };
    let root = "<root>".to_string();
    let mut t: usize = 0;
    assert(members@.subrange(0, 0) =~= Seq::<(String, JsonValue)>::empty());
    while t < members.len()
        invariant
            t <= members@.len(),
            keys_distinct(ret@),
            root@ == "<root>"@,
            assoc_view(ret@) == flatten_members(members@.subrange(0, t as int)),
        decreases members@.len() - t,
    {
        let x = get_wel_values(&members[t].0, &members[t].1, root.as_str());
        let ghost leaves = leaves_view(x@);
        let ghost start = assoc_view(ret@);
        let mut kresolver: u128 = 1;
        let mut j: usize = 0;
        assert(leaves.subrange(0, 0) =~= Seq::<(Seq<char>, JsonValue)>::empty());
        while j < x.len()
            invariant
                j <= x@.len(),
                leaves == leaves_view(x@),
                keys_distinct(ret@),
                1 <= kresolver <= 1 + j,
                (assoc_view(ret@), kresolver as int) == flatten_leaves(
                    (start, 1),
                    leaves.subrange(0, j as int),
                ),
            decreases x@.len() - j,
        {
            let k = &x[j].0;
            let v: &'a JsonValue = x[j].1;
            proof {
                reveal_strlit("<root>\\System\\");
                reveal_strlit("<root>\\");
                reveal_strlit("@");
                assert(leaves.subrange(0, j + 1).drop_last() =~= leaves.subrange(0, j as int));
                assert(leaves.subrange(0, j + 1).last() == (k@, *v));
            }
            if !is_null_leaf(v) {
                if crate::text::str_starts_with(k.as_str(), "<root>\\System") {
                    let nk0 = replace_str(k.as_str(), "<root>\\System\\", "");
                    let nk = replace_str(nk0.as_str(), "@", "");
                    assoc_insert(&mut ret, nk, v);
                } else {
                    let nk0 = replace_str(k.as_str(), "<root>\\", "");
                    let mut nk = replace_str(nk0.as_str(), "@", "");
                    if assoc_contains(&ret, &nk) {
                        let num = crate::text::u128_to_decimal(kresolver);
                        nk.append(num.as_str());
                        kresolver += 1;
                    }
                    assoc_insert(&mut ret, nk, v);
                }
            }
            j += 1;
        }
        proof {
            assert(leaves.subrange(0, x@.len() as int) =~= leaves);
            assert(members@.subrange(0, t + 1).drop_last() =~= members@.subrange(0, t as int));
        }
        t += 1;
    }
    assert(members@.subrange(0, members@.len() as int) =~= members@);
    ret
}

/// The hexadecimal digit of `n` (0 to 15), in lower case.
pub open spec fn hex_digit(n: int) -> char {
    if n < 10 {
        (n + 48) as char
    } else {
        (n + 87) as char
    }
}

/// How serde_json writes one character inside a JSON string (its `ESCAPE`
/// table and `write_char_escape`): quote, backslash and the control
/// characters below U+0020 escaped, the short forms `\b \t \n \f \r`
/// where they exist and `\u00XX` otherwise; every other character as it is.
pub open spec fn json_char_text(c: char) -> Seq<char> {
    if c == '"' {
        seq!['\\', '"']
    } else if c == '\\' {
        seq!['\\', '\\']
    } else if c == '\u{8}' {
        seq!['\\', 'b']
    } else if c == '\t' {
        seq!['\\', 't']
    } else if c == '\n' {
        seq!['\\', 'n']
    } else if c == '\u{c}' {
        seq!['\\', 'f']
    } else if c == '\r' {
        seq!['\\', 'r']
    } else if (c as int) < 0x20 {
        seq!['\\', 'u', '0', '0', hex_digit((c as int) / 16), hex_digit((c as int) % 16)]
    } else {
        seq![c]
    }
}

/// The characters of `s`, each written as `json_char_text` says.
pub open spec fn json_escaped(s: Seq<char>) -> Seq<char>
    decreases s.len(),
{
    if s.len() == 0 {
        seq![]
    } else {
        json_char_text(s[0]) + json_escaped(s.drop_first())
    }
}

/// What `serde_json::Value::String(s).to_string()` yields: the JSON text of
/// the string `s`, between two quotes.
pub open spec fn json_string_text(s: Seq<char>) -> Seq<char> {
    seq!['"'] + json_escaped(s) + seq!['"']
}

/// Writes the string `s` as JSON text (serde_json's `Display` for
/// `Value::String`, which writes compactly through `format_escaped_str`);
/// the result is claimed to be `json_string_text(s)`.
#[verifier::external_body]
fn json_string_to_text(s: &str) -> (t: String)
    ensures
        t@ == json_string_text(s@),
{
    serde_json::Value::String(s.to_string()).to_string()
}

/// `s.trim_matches('"')`: `s` without its leading and trailing quotes.
pub open spec fn trim_quotes(s: Seq<char>) -> Seq<char>
    decreases s.len(),
{
    if s.len() > 0 && s[0] == '"' {
        trim_quotes(s.drop_first())
    } else if s.len() > 0 && s.last() == '"' {
        trim_quotes(s.drop_last())
    } else {
        s
    }
}

fn trim_quote_chars(s: &str) -> (t: String)
    ensures
        t@ == trim_quotes(s@),
{
    let v = crate::text::str_to_chars(s);
    let mut lo: usize = 0;
    let mut hi: usize = v.len();
    assert(v@.subrange(0, v@.len() as int) =~= v@);
    while lo < hi && v[lo] == '"'
        invariant
            lo <= hi <= v@.len(),
            v@ == s@,
            hi == v@.len(),
            trim_quotes(v@.subrange(lo as int, hi as int)) == trim_quotes(s@),
        decreases hi - lo,
    {
        assert(v@.subrange(lo as int, hi as int).drop_first() =~= v@.subrange(lo + 1, hi as int));
        lo += 1;
    }
    while lo < hi && v[hi - 1] == '"'
        invariant
            lo <= hi <= v@.len(),
            v@ == s@,
            lo == hi || v@[lo as int] != '"',
            trim_quotes(v@.subrange(lo as int, hi as int)) == trim_quotes(s@),
        decreases hi - lo,
    {
        assert(v@.subrange(lo as int, hi as int).drop_last() =~= v@.subrange(lo as int, hi - 1));
        hi -= 1;
    }
    let mut out = String::new();
    let mut i: usize = lo;
    while i < hi
        invariant
            lo <= i <= hi <= v@.len(),
            out@ =~= v@.subrange(lo as int, i as int),
        decreases hi - i,
    {
        crate::text::push_char(&mut out, v[i]);
        i += 1;
    }
    out
}

/// The text of a string value, else `N/A`.
pub open spec fn str_or_na(v: Option<JsonValue>) -> Seq<char> {
    match v {
        Some(JsonValue::Str(s)) => s@,
        _ => "N/A"@,
    }
}

/// `item[k][inner]` as text, else `N/A`.
pub open spec fn inner_text(item: JsonValue, k: Seq<char>, inner: Seq<char>) -> Seq<char> {
    str_or_na(
        match field(item, k) {
            Some(x) => field(x, inner),
            None => None,
        },
    )
}

/// The `TimeCreated` `SystemTime` text of a system item, when it is a
/// string.
pub open spec fn time_created_text(item: JsonValue) -> Option<Seq<char>> {
    match field(item, "TimeCreated"@) {
        Some(x) => match field(x, "@SystemTime"@) {
            Some(JsonValue::Str(s)) => Some(s@),
            _ => None,
        },
        None => None,
    }
}

/// The UTC time a system item's `TimeCreated` gives: its JSON text with the
/// quotes trimmed, read as RFC 3339.
pub open spec fn time_created_ts(item: JsonValue) -> Option<Timestamp> {
    match time_created_text(item) {
        Some(t) => rfc3339_utc(trim_quotes(json_string_text(t))),
        None => None,
    }
}

/// The fields of an event-log cache record taken from the `System` items.
pub struct WelFields {
    pub ts: Timestamp,
    pub host: Seq<char>,
    pub context1: Seq<char>,
    pub context1_attrib: Seq<char>,
    pub context2: Seq<char>,
    pub context2_attrib: Seq<char>,
    pub context3: Seq<char>,
    pub context3_attrib: Seq<char>,
}

/// One member key of a system item applied to the fields: the channel, the
/// provider name, the event id, the computer and the creation time.
pub open spec fn wel_key_step(f: WelFields, item: JsonValue, k: Seq<char>) -> WelFields {
    if k == "Channel"@ {
        WelFields {
            context1: inner_text(item, "Channel"@, "#t"@),
            context1_attrib: "Channel"@,
            ..f
        }
    } else if k == "Provider"@ {
        WelFields {
            context2: inner_text(item, "Provider"@, "@Name"@),
            context2_attrib: "Provider"@,
            ..f
        }
    } else if k == "EventID"@ {
        WelFields { context3: inner_text(item, "EventID"@, "#t"@), context3_attrib: "EID"@, ..f }
    } else if k == "Computer"@ {
        WelFields { host: inner_text(item, "Computer"@, "#t"@), ..f }
    } else if k == "TimeCreated"@ {
        WelFields { ts: time_created_ts(item)->Some_0, ..f }
    } else {
        f
    }
}

/// The member keys of a system item applied in order.
pub open spec fn wel_members_step(f: WelFields, item: JsonValue, members: Seq<(String, JsonValue)>) -> WelFields
    decreases members.len(),
{
    if members.len() == 0 {
        f
    } else {
        wel_key_step(wel_members_step(f, item, members.drop_last()), item, members.last().0@)
    }
}

/// The system items applied in order.
pub open spec fn wel_items_fold(f: WelFields, items: Seq<JsonValue>) -> WelFields
    decreases items.len(),
{
    if items.len() == 0 {
        f
    } else {
        let item = items.last();
        let prev = wel_items_fold(f, items.drop_last());
        match item {
            JsonValue::Object(members) => wel_members_step(prev, item, members@),
            _ => prev,
        }
    }
}

/// The `System` items of an event-log record: `Event` / `#c` / first item /
/// `System` / `#c`, when that is an array.
pub open spec fn system_items(event: JsonValue) -> Option<Seq<JsonValue>> {
    match field(event, "Event"@) {
        Some(e) => match field(e, "#c"@) {
            Some(JsonValue::Array(a)) => if a@.len() > 0 {
                match field(a@[0], "System"@) {
                    Some(sys) => match field(sys, "#c"@) {
                        Some(JsonValue::Array(items)) => Some(items@),
                        _ => None,
                    },
                    None => None,
                }
            } else {
                None
            },
            _ => None,
        },
        None => None,
    }
}

/// Whether every system item is an object and each that has a
/// `TimeCreated` member gives a readable creation time (the record builder
/// panics otherwise).
pub open spec fn system_items_ok(event: JsonValue) -> bool {
    match system_items(event) {
        Some(items) => forall|i: int|
            0 <= i < items.len() ==> match #[trigger] items[i] {
                JsonValue::Object(members) => member(members@, "TimeCreated"@) is Some
                    ==> time_created_ts(items[i]) is Some,
                _ => false,
            },
        None => true,
    }
}

/// The fields of a fresh event-log record before the system items are read.
pub open spec fn wel_initial(ts: Timestamp) -> WelFields {
    WelFields {
        ts: ts,
        host: "N/A"@,
        context1: "N/A"@,
        context1_attrib: "N/A"@,
        context2: "N/A"@,
        context2_attrib: "N/A"@,
        context3: "N/A"@,
        context3_attrib: "N/A"@,
    }
}

/// The fields an event-log record gets from its `System` items.
pub open spec fn wel_fields(event: JsonValue, ts: Timestamp) -> WelFields {
    match system_items(event) {
        Some(items) => wel_items_fold(wel_initial(ts), items),
        None => wel_initial(ts),
    }
}

/// The record fields of `er`, as sequences.
pub open spec fn fields_of(er: GenericEventRecord) -> WelFields {
    WelFields {
        ts: er.ts,
        host: er.host@,
        context1: er.context1@,
        context1_attrib: er.context1_attrib@,
        context2: er.context2@,
        context2_attrib: er.context2_attrib@,
        context3: er.context3@,
        context3_attrib: er.context3_attrib@,
    }
}

fn inner_text_of(item: &JsonValue, k: &str, inner: &str) -> (t: String)
    ensures
        t@ == inner_text(*item, k@, inner@),
{
    match get_field(item, k) {
        Some(x) => match get_field(x, inner) {
            Some(JsonValue::Str(s)) => s.clone(),
            _ => "N/A".to_string(),
        },
        None => "N/A".to_string(),
    }
}

fn system_items_of(event: &JsonValue) -> (r: Option<&Vec<JsonValue>>)
    ensures
        match r {
            Some(items) => system_items(*event) == Some(items@),
            None => system_items(*event) is None,
        },
{
    let e = match get_field(event, "Event") {
        Some(e) => e,
        None => return None,
    };
    let a = match get_field(e, "#c") {
        Some(JsonValue::Array(a)) => a,
        _ => return None,
    };
    if a.len() == 0 {
        return None;
    }
    let sys = match get_field(&a[0], "System") {
        Some(s) => s,
        None => return None,
    };
    match get_field(sys, "#c") {
        Some(JsonValue::Array(items)) => Some(items),
        _ => None,
    }
}

/// An event-log record (as parsed from its JSON form, `event_str`) as a
/// cache record from `WELS`: keyed by channel, provider and event id, on
/// the computer it names, timed by its creation time (UTC); items it lacks
/// leave `N/A`. The raw event is `flattened`, the record flattened by
/// `wel_raw_to_obj` and written as JSON, or the event text when that could
/// not be had. Always succeeds.
pub fn wel_json_to_er(event_str: &str, event: &JsonValue, flattened: Option<String>) -> (r: Result<
    GenericEventRecord,
    DateError,
>)
    requires
        system_items_ok(*event),
    ensures
        match r {
            Ok(er) => {
                &&& fields_of(er) == wel_fields(*event, epoch())
                &&& er.id is None
                &&& er.ts_type@ == "creation_time"@
                &&& er.src@ == "WELS"@
                &&& er.rawevent@ == match flattened {
                    Some(t) => t@,
                    None => event_str@,
                }
            },
            Err(e) => false,
        },
{
    let ts0 = fallback_date();
    let mut ret = GenericEventRecord {
        id: None,
        ts: ts0,
        ts_type: "creation_time".to_string(),
        src: "WELS".to_string(),
        host: "N/A".to_string(),
        context1: "N/A".to_string(),
        context1_attrib: "N/A".to_string(),
        context2: "N/A".to_string(),
        context2_attrib: "N/A".to_string(),
        context3: "N/A".to_string(),
        context3_attrib: "N/A".to_string(),
        rawevent: match flattened {
            Some(t) => t,
            None => event_str.to_string(),
        },
    };
    assert(fields_of(ret) == wel_initial(ts0));
    let items = match system_items_of(event) {
        Some(items) => items,
        None => return Ok(ret),
    };
    let mut i: usize = 0;
    assert(items@.subrange(0, 0) =~= Seq::<JsonValue>::empty());
    while i < items.len()
        invariant
            i <= items@.len(),
            system_items(*event) == Some(items@),
            system_items_ok(*event),
            ret.id is None,
            ret.ts_type@ == "creation_time"@,
            ret.src@ == "WELS"@,
            ret.rawevent@ == match flattened {
                Some(t) => t@,
                None => event_str@,
            },
            fields_of(ret) == wel_items_fold(wel_initial(ts0), items@.subrange(0, i as int)),
        decreases items@.len() - i,
    {
        let item = &items[i];
        proof {
            assert(items@.subrange(0, i + 1).drop_last() =~= items@.subrange(0, i as int));
            assert(items@.subrange(0, i + 1).last() == *item);
        }
        let members = match item {
            JsonValue::Object(m) => m,
            _ => {
                proof {
                    assert(false);
                }
                return Ok(ret);
            },
        };
        let ghost prev = fields_of(ret);
        let mut j: usize = 0;
        assert(members@.subrange(0, 0) =~= Seq::<(String, JsonValue)>::empty());
        while j < members.len()
            invariant
                j <= members@.len(),
                *item == JsonValue::Object(*members),
                member(members@, "TimeCreated"@) is Some ==> time_created_ts(*item) is Some,
                ret.id is None,
                ret.ts_type@ == "creation_time"@,
                ret.src@ == "WELS"@,
                ret.rawevent@ == match flattened {
                    Some(t) => t@,
                    None => event_str@,
                },
                fields_of(ret) == wel_members_step(prev, *item, members@.subrange(0, j as int)),
            decreases members@.len() - j,
        {
            let k = &members[j].0;
            proof {
                assert(members@.subrange(0, j + 1).drop_last() =~= members@.subrange(0, j as int));
            }
            if str_eq(k.as_str(), "Channel") {
                ret.context1 = inner_text_of(item, "Channel", "#t");
                ret.context1_attrib = "Channel".to_string();
            } else if str_eq(k.as_str(), "Provider") {
                ret.context2 = inner_text_of(item, "Provider", "@Name");
                ret.context2_attrib = "Provider".to_string();
            } else if str_eq(k.as_str(), "EventID") {
                ret.context3 = inner_text_of(item, "EventID", "#t");
                ret.context3_attrib = "EID".to_string();
            } else if str_eq(k.as_str(), "Computer") {
                ret.host = inner_text_of(item, "Computer", "#t");
            } else if str_eq(k.as_str(), "TimeCreated") {
                proof {
                    lemma_member_present(members@, j as int, "TimeCreated"@);
                }
                let sys_time = match get_field(item, "TimeCreated") {
                    Some(x) => match get_field(x, "@SystemTime") {
                        Some(JsonValue::Str(s)) => s,
                        _ => {
                            proof {
                                assert(false);
                            }
                            return Ok(ret);
                        },
                    },
                    None => {
                        proof {
                            assert(false);
                        }
                        return Ok(ret);
                    },
                };
                let text = json_string_to_text(sys_time.as_str());
                let cleaned = trim_quote_chars(text.as_str());
                match parse_rfc3339_utc(cleaned.as_str()) {
                    Some(t) => {
                        ret.ts = t;
                    },
                    None => {
                        proof {
                            assert(false);
                        }
                    },
                }
            }
            j += 1;
        }
        proof {
            assert(members@.subrange(0, members@.len() as int) =~= members@);
        }
        i += 1;
    }
    assert(items@.subrange(0, items@.len() as int) =~= items@);
    Ok(ret)
}

proof fn lemma_member_present(entries: Seq<(String, JsonValue)>, j: int, key: Seq<char>)
    requires
        0 <= j < entries.len(),
        entries[j].0@ == key,
    ensures
        member(entries, key) is Some,
    decreases entries.len(),
{
    if entries[0].0@ != key {
        assert(entries.drop_first()[j - 1] == entries[j]);
        lemma_member_present(entries.drop_first(), j - 1, key);
    }
}

fn member_present(entries: &Vec<(String, JsonValue)>, key: &str) -> (b: bool)
    ensures
        b == member(entries@, key@) is Some,
{
    let mut i: usize = 0;
    assert(entries@.subrange(0, entries@.len() as int) =~= entries@);
    while i < entries.len()
        invariant
            i <= entries@.len(),
            member(entries@.subrange(i as int, entries@.len() as int), key@) == member(
                entries@,
                key@,
            ),
        decreases entries@.len() - i,
    {
        if str_eq(entries[i].0.as_str(), key) {
            return true;
        }
        assert(entries@.subrange(i as int, entries@.len() as int).drop_first() =~= entries@.subrange(
            i + 1,
            entries@.len() as int,
        ));
        i += 1;
    }
    false
}

fn time_created_readable(item: &JsonValue) -> (b: bool)
    ensures
        b == time_created_ts(*item) is Some,
{
    let sys_time = match get_field(item, "TimeCreated") {
        Some(x) => match get_field(x, "@SystemTime") {
            Some(JsonValue::Str(s)) => s,
            _ => return false,
        },
        None => return false,
    };
    let text = json_string_to_text(sys_time.as_str());
    let cleaned = trim_quote_chars(text.as_str());
    parse_rfc3339_utc(cleaned.as_str()).is_some()
}

/// Whether `wel_json_to_er` can read the record: its system items are
/// objects whose creation times, where present, can be read.
pub fn check_system_items(event: &JsonValue) -> (b: bool)
    ensures
        b == system_items_ok(*event),
{
    let items = match system_items_of(event) {
        Some(items) => items,
        None => return true,
    };
    let mut i: usize = 0;
    while i < items.len()
        invariant
            i <= items@.len(),
            system_items(*event) == Some(items@),
            forall|j: int|
                0 <= j < i ==> match #[trigger] items@[j] {
                    JsonValue::Object(members) => member(members@, "TimeCreated"@) is Some
                        ==> time_created_ts(items@[j]) is Some,
                    _ => false,
                },
        decreases items@.len() - i,
    {
        match &items[i] {
            JsonValue::Object(members) => {
                if member_present(members, "TimeCreated") && !time_created_readable(&items[i]) {
                    return false;
                }
            },
            _ => return false,
        }
        i += 1;
    }
    true
}

/// `wel_json_to_er` where the record can be read; `None` where the system
/// items hold something other than objects or an unreadable creation time.
pub fn try_wel_json_to_er(event_str: &str, event: &JsonValue, flattened: Option<String>) -> (r: Option<
    Result<GenericEventRecord, DateError>,
>)
    ensures
        r is None <==> !system_items_ok(*event),
        match r {
            Some(Ok(er)) => {
                &&& fields_of(er) == wel_fields(*event, epoch())
                &&& er.id is None
                &&& er.ts_type@ == "creation_time"@
                &&& er.src@ == "WELS"@
                &&& er.rawevent@ == match flattened {
                    Some(t) => t@,
                    None => event_str@,
                }
            },
            Some(Err(e)) => false,
            None => true,
        },
{
    if check_system_items(event) {
        Some(wel_json_to_er(event_str, event, flattened))
    } else {
        None
    }
}

/// The bytes quick-xml-to-json writes for an XML text (what it wrote before
/// any error included).
pub uninterp spec fn xml_json_bytes(xml: Seq<char>) -> Seq<u8>;

/// Converts XML to JSON with quick-xml-to-json's `xml_to_json`, keeping what
/// it wrote whether or not it finished; believed to be `xml_json_bytes(xml)`.
#[verifier::external_body]
fn xml_to_json_bytes(xml: &str) -> (out: Vec<u8>)
    ensures
        out@ == xml_json_bytes(xml@),
{
    let mut ret = Vec::new();
    let _ = quick_xml_to_json::xml_to_json(xml.as_bytes(), &mut ret);
    ret
}

#[verifier::external_type_specification]
#[verifier::external_body]
pub struct ExFromUtf8Error(std::string::FromUtf8Error);

/// std's `String::from_utf8`: as documented, `Ok` exactly for valid UTF-8,
/// holding the decoded characters.
#[verifier::external_body]
fn string_from_utf8(bytes: Vec<u8>) -> (r: Result<String, std::string::FromUtf8Error>)
    ensures
        r is Ok <==> vstd::utf8::valid_utf8(bytes@),
        r is Ok ==> r->Ok_0@ == vstd::utf8::decode_utf8(bytes@),
{
    String::from_utf8(bytes)
}

/// An event-log record's XML as JSON text (quick-xml-to-json), failing when
/// the converter's bytes are not UTF-8.
pub fn evt_xml_to_json(xml: String) -> (r: Result<String, std::string::FromUtf8Error>)
    ensures
        r is Ok <==> vstd::utf8::valid_utf8(xml_json_bytes(xml@)),
        r is Ok ==> r->Ok_0@ == vstd::utf8::decode_utf8(xml_json_bytes(xml@)),
{
    let ret = xml_to_json_bytes(xml.as_str());
    string_from_utf8(ret)
}

} // verus!
