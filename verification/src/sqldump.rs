use vstd::prelude::*;

use crate::text::{replace_all, replace_str, str_eq};
use crate::timefmt::{
    naive_date_time, timestamp_of, unix_time, unix_time_text, utc_plus_micros, utc_plus_micros_text,
    valid_date_time, Timestamp,
};

verus! {

broadcast use vstd::string::group_string_axioms;

/// One column of a table dump: its header name, its position in the query,
/// its type (`str`, `chrome_ts`, `moz_ts`, `timestamp`, ...) and whether it
/// may be NULL (1).
pub struct Field {
    pub name: String,
    pub ord: usize,
    pub coltype: String,
    pub nullable: i64,
}

proof fn lemma_coltype_literals_distinct()
    ensures
        "moz_ts"@ != "chrome_ts"@,
        "moz_ts"@ != "timestamp"@,
        "chrome_ts"@ != "timestamp"@,
{
    reveal_strlit("chrome_ts");
    reveal_strlit("moz_ts");
    reveal_strlit("timestamp");
    assert("moz_ts"@.len() == 6);
    assert("chrome_ts"@.len() == 9);
    assert("timestamp"@.len() == 9);
    assert("chrome_ts"@[0] == 'c');
    assert("timestamp"@[0] == 't');
}

/// Whether a column type gets an extra UTC date column.
pub open spec fn is_time_coltype(coltype: Seq<char>) -> bool {
    coltype == "chrome_ts"@ || coltype == "moz_ts"@ || coltype == "timestamp"@
}

/// The header cells of one field.
pub open spec fn field_header(name: Seq<char>, coltype: Seq<char>) -> Seq<Seq<char>> {
    if is_time_coltype(coltype) {
        seq![name, name + "_dtutc"@]
    } else {
        seq![name]
    }
}

/// The header row: the field names, each time column followed by its
/// `_dtutc` column.
pub open spec fn header_row(fields: Seq<(Seq<char>, Seq<char>)>) -> Seq<Seq<char>>
    decreases fields.len(),
{
    if fields.len() == 0 {
        seq![]
    } else {
        header_row(fields.drop_last()) + field_header(fields.last().0, fields.last().1)
    }
}

/// Names and column types of the fields.
pub open spec fn field_names_types(fields: Seq<Field>) -> Seq<(Seq<char>, Seq<char>)> {
    Seq::new(fields.len(), |i: int| (fields[i].name@, fields[i].coltype@))
}

/// The cells as sequences of characters.
pub open spec fn cells_view(cells: Seq<String>) -> Seq<Seq<char>> {
    Seq::new(cells.len(), |i: int| cells[i]@)
}

/// The header row of a table dump.
pub fn table_header(fields: &Vec<Field>) -> (colnames: Vec<String>)
    ensures
        cells_view(colnames@) == header_row(field_names_types(fields@)),
{
    let mut colnames: Vec<String> = Vec::new();
    let mut k: usize = 0;
    assert(field_names_types(fields@).subrange(0, 0) =~= Seq::<(Seq<char>, Seq<char>)>::empty());
    while k < fields.len()
        invariant
            k <= fields@.len(),
            cells_view(colnames@) == header_row(field_names_types(fields@).subrange(0, k as int)),
        decreases fields@.len() - k,
    {
        let f = &fields[k];
        let ghost before = cells_view(colnames@);
        let ghost sub = field_names_types(fields@).subrange(0, k + 1);
        assert(sub.drop_last() =~= field_names_types(fields@).subrange(0, k as int));
        colnames.push(f.name.clone());
        let is_time = str_eq(f.coltype.as_str(), "chrome_ts") || str_eq(f.coltype.as_str(), "moz_ts")
            || str_eq(f.coltype.as_str(), "timestamp");
        if is_time {
            let mut fname1 = f.name.clone();
            fname1.append("_dtutc");
            colnames.push(fname1);
        }
        assert(cells_view(colnames@) =~= before + field_header(f.name@, f.coltype@));
        k += 1;
    }
    assert(field_names_types(fields@).subrange(0, fields@.len() as int) =~= field_names_types(
        fields@,
    ));
    colnames
}

/// `x / 1_000_000` rounded toward zero, as Rust's `/` does.
pub open spec fn micros_to_secs(x: i64) -> i64 {
    if x >= 0 {
        (x / 1000000) as i64
    } else {
        (-((-x) / 1000000)) as i64
    }
}

/// The WebKit epoch, 1601-01-01 00:00:00 UTC, from which Chrome counts
/// microseconds.
pub open spec fn webkit_epoch() -> Timestamp {
    timestamp_of(1601, 1, 1, 0, 0, 0)
}

/// The text of a Chrome time, `micros` microseconds after the WebKit epoch.
pub open spec fn webkit_text(micros: i64) -> Option<Seq<char>> {
    utc_plus_micros_text(webkit_epoch(), micros)
}

/// The WebKit epoch, built with chrono.
fn webkit_epoch_value() -> (t: Timestamp)
    ensures
        t == webkit_epoch(),
{
    match naive_date_time(1601, 1, 1, 0, 0, 0) {
        Some(t) => t,
        None => {
            proof {
                assert(valid_date_time(1601, 1, 1, 0, 0, 0));
            }
            Timestamp { year: 1601, month: 1, day: 1, hour: 0, minute: 0, second: 0, nanosecond: 0 }
        },
    }
}

/// Chrome/WebKit time (microseconds since 1601-01-01) as UTC text.
pub fn get_ch_timestamp(gts: i64) -> (s: String)
    requires
        webkit_text(gts) is Some,
    ensures
        s@ == webkit_text(gts)->0,
{
    match utc_plus_micros(webkit_epoch_value(), gts) {
        Some(s) => s,
        None => String::new(),
    }
}

/// Mozilla time (microseconds since the Unix epoch) as UTC text, at whole
/// seconds.
pub fn get_moz_ts(mts: i64) -> (s: String)
    requires
        unix_time_text(micros_to_secs(mts)) is Some,
    ensures
        s@ == unix_time_text(micros_to_secs(mts))->0,
{
    let mts_1 = mts / 1000000;
    assert(mts_1 == micros_to_secs(mts));
    match unix_time(mts_1) {
        Some(s) => s,
        None => String::new(),
    }
}

/// Unix time in seconds as UTC text.
pub fn get_ts(ts: i64) -> (s: String)
    requires
        unix_time_text(ts) is Some,
    ensures
        s@ == unix_time_text(ts)->0,
{
    match unix_time(ts) {
        Some(s) => s,
        None => String::new(),
    }
}

/// The cells one field contributes to a row. `text` is the column read as
/// text (`None` when that read fails) and `int_value` the column read as an
/// integer (`None` when that read fails).
pub open spec fn field_cells_spec(
    coltype: Seq<char>,
    nullable: i64,
    text: Option<Seq<char>>,
    int_value: Option<i64>,
) -> Seq<Seq<char>> {
    let d = if nullable == 1 {
        match text {
            Some(t) => t,
            None => "NULL"@,
        }
    } else {
        text->0
    };
    let is_null = nullable == 1 && d == "NULL"@;
    let tsval: i64 = if is_null {
        0
    } else {
        match int_value {
            Some(v) => v,
            None => 0,
        }
    };
    if coltype == "chrome_ts"@ {
        seq![d, replace_all(webkit_text(int_value->0)->0, " UTC"@, ""@)]
    } else if coltype == "moz_ts"@ {
        seq![d, replace_all(unix_time_text(micros_to_secs(tsval))->0, " UTC"@, ""@)]
    } else if coltype == "timestamp"@ {
        seq![d, replace_all(unix_time_text(tsval)->0, " UTC"@, ""@)]
    } else {
        seq![d]
    }
}

/// What the dump reads must succeed for one field: the text of a
/// non-nullable column, the integer of a time column (unless NULL), and a
/// time that chrono can represent.
pub open spec fn field_cells_ok(
    coltype: Seq<char>,
    nullable: i64,
    text: Option<Seq<char>>,
    int_value: Option<i64>,
) -> bool {
    let d = if nullable == 1 {
        match text {
            Some(t) => t,
            None => "NULL"@,
        }
    } else {
        text->0
    };
    let is_null = nullable == 1 && d == "NULL"@;
    let tsval: i64 = if is_null {
        0
    } else {
        match int_value {
            Some(v) => v,
            None => 0,
        }
    };
    &&& (nullable != 1 ==> text is Some)
    &&& (coltype == "chrome_ts"@ ==> int_value is Some && webkit_text(int_value->0) is Some)
    &&& (coltype == "moz_ts"@ ==> (!is_null ==> int_value is Some) && unix_time_text(
        micros_to_secs(tsval),
    ) is Some)
    &&& (coltype == "timestamp"@ ==> (!is_null ==> int_value is Some) && unix_time_text(tsval) is Some)
}

/// The cells of one field of a row: the column text and, for a time column,
/// its UTC date without the " UTC" suffix.
pub fn field_cells(f: &Field, text: Option<String>, int_value: Option<i64>) -> (cells: Vec<String>)
    requires
        field_cells_ok(
            f.coltype@,
            f.nullable,
            match text {
                Some(t) => Some(t@),
                None => None,
            },
            int_value,
        ),
    ensures
        cells_view(cells@) == field_cells_spec(
            f.coltype@,
            f.nullable,
            match text {
                Some(t) => Some(t@),
                None => None,
            },
            int_value,
        ),
{
    proof {
        reveal_strlit(" UTC");
        lemma_coltype_literals_distinct();
    }
    let mut cells: Vec<String> = Vec::new();
    let mut colval_is_null = false;
    let d: String = if f.nullable == 1 {
        match text {
            Some(x) => x,
            None => "NULL".to_string(),
        }
    } else {
        match text {
            Some(x) => x,
            None => String::new(),
        }
    };
    if f.nullable == 1 && str_eq(d.as_str(), "NULL") {
        colval_is_null = true;
    }
    let ghost d_view = d@;
    cells.push(d);
    let ct = f.coltype.as_str();
    if str_eq(ct, "chrome_ts") {
        let tsval: i64 = match int_value {
            Some(v) => v,
            None => 0,
        };
        let dtutc = get_ch_timestamp(tsval);
        cells.push(replace_str(dtutc.as_str(), " UTC", ""));
    } else {
        let tsval: i64 = if colval_is_null {
            0
        } else {
            match int_value {
                Some(v) => v,
                None => 0,
            }
        };
        if str_eq(ct, "moz_ts") {
            let dtutc = get_moz_ts(tsval);
            cells.push(replace_str(dtutc.as_str(), " UTC", ""));
        } else if str_eq(ct, "timestamp") {
            let dtutc = get_ts(tsval);
            cells.push(replace_str(dtutc.as_str(), " UTC", ""));
        }
    }
    assert(cells_view(cells@) =~= field_cells_spec(
        f.coltype@,
        f.nullable,
        match text {
            Some(t) => Some(t@),
            None => None,
        },
        int_value,
    ));
    cells
}

/// `field_cells` where its reads succeeded and chrono can represent the
/// time; `None` otherwise (where the dump would stop).
pub fn try_field_cells(f: &Field, text: Option<String>, int_value: Option<i64>) -> (r: Option<
    Vec<String>,
>)
    ensures
        r is Some <==> field_cells_ok(
            f.coltype@,
            f.nullable,
            match text {
                Some(t) => Some(t@),
                None => None,
            },
            int_value,
        ),
        r matches Some(cells) ==> cells_view(cells@) == field_cells_spec(
            f.coltype@,
            f.nullable,
            match text {
                Some(t) => Some(t@),
                None => None,
            },
            int_value,
        ),
{
    if f.nullable != 1 && text.is_none() {
        return None;
    }
    let is_null = f.nullable == 1 && match &text {
        Some(t) => str_eq(t.as_str(), "NULL"),
        None => true,
    };
    proof {
        reveal_strlit("NULL");
        reveal_strlit("chrome_ts");
        reveal_strlit("moz_ts");
        reveal_strlit("timestamp");
        lemma_coltype_literals_distinct();
    }
    let tsval: i64 = if is_null {
        0
    } else {
        match int_value {
            Some(v) => v,
            None => 0,
        }
    };
    let ct = f.coltype.as_str();
    if str_eq(ct, "chrome_ts") {
        match int_value {
            Some(v) => {
                if utc_plus_micros(webkit_epoch_value(), v).is_none() {
                    return None;
                }
            },
            None => {
                return None;
            },
        }
    } else if str_eq(ct, "moz_ts") {
        if !is_null && int_value.is_none() {
            return None;
        }
        let secs = tsval / 1000000;
        assert(secs == micros_to_secs(tsval));
        if unix_time(secs).is_none() {
            return None;
        }
    } else if str_eq(ct, "timestamp") {
        if !is_null && int_value.is_none() {
            return None;
        }
        if unix_time(tsval).is_none() {
            return None;
        }
    }
    Some(field_cells(f, text, int_value))
}

/// The texts of optional strings.
pub open spec fn opt_texts(v: Seq<Option<String>>) -> Seq<Option<Seq<char>>> {
    Seq::new(
        v.len(),
        |i: int|
            match v[i] {
                Some(t) => Some(t@),
                None => None,
            },
    )
}

/// The cells of a row: each field's cells in field order, from what was read
/// of its column as text and as an integer.
pub open spec fn row_cells_spec(
    fields: Seq<Field>,
    texts: Seq<Option<Seq<char>>>,
    ints: Seq<Option<i64>>,
) -> Seq<Seq<char>>
    decreases fields.len(),
{
    if fields.len() == 0 {
        seq![]
    } else {
        row_cells_spec(fields.drop_last(), texts.drop_last(), ints.drop_last()) + field_cells_spec(
            fields.last().coltype@,
            fields.last().nullable,
            texts.last(),
            ints.last(),
        )
    }
}

/// Whether every field of a row can be written.
pub open spec fn row_ok(fields: Seq<Field>, texts: Seq<Option<Seq<char>>>, ints: Seq<Option<i64>>) -> bool {
    forall|i: int|
        0 <= i < fields.len() ==> field_cells_ok(
            (#[trigger] fields[i]).coltype@,
            fields[i].nullable,
            texts[i],
            ints[i],
        )
}

/// The cells of one row of a table dump, as `row_cells_spec` says; `None`
/// where a read failed or a time cannot be written (where the dump stops).
pub fn try_row_cells(fields: &Vec<Field>, texts: &Vec<Option<String>>, ints: &Vec<Option<i64>>) -> (r:
    Option<Vec<String>>)
    requires
        texts@.len() == fields@.len(),
        ints@.len() == fields@.len(),
    ensures
        r is Some <==> row_ok(fields@, opt_texts(texts@), ints@),
        r matches Some(cells) ==> cells_view(cells@) == row_cells_spec(fields@, opt_texts(texts@), ints@),
{
    let ghost tv = opt_texts(texts@);
    let mut row: Vec<String> = Vec::new();
    let mut i: usize = 0;
    assert(fields@.subrange(0, 0) =~= Seq::<Field>::empty());
    assert(cells_view(row@) =~= Seq::<Seq<char>>::empty());
    while i < fields.len()
        invariant
            i <= fields@.len(),
            texts@.len() == fields@.len(),
            ints@.len() == fields@.len(),
            tv == opt_texts(texts@),
            row_ok(fields@.subrange(0, i as int), tv.subrange(0, i as int), ints@.subrange(0, i as int)),
            cells_view(row@) == row_cells_spec(
                fields@.subrange(0, i as int),
                tv.subrange(0, i as int),
                ints@.subrange(0, i as int),
            ),
        decreases fields@.len() - i,
    {
        let text: Option<String> = match &texts[i] {
            Some(t) => Some(t.clone()),
            None => None,
        };
        let cells = match try_field_cells(&fields[i], text, ints[i]) {
            Some(c) => c,
            None => {
                assert(!row_ok(fields@, tv, ints@)) by {
                    assert(tv[i as int] == match texts@[i as int] {
                        Some(t) => Some(t@),
                        None => None::<Seq<char>>,
                    });
                }
                return None;
            },
        };
        let ghost before = cells_view(row@);
        let mut k: usize = 0;
        while k < cells.len()
            invariant
                k <= cells@.len(),
                cells_view(row@) == before + cells_view(cells@).subrange(0, k as int),
            decreases cells@.len() - k,
        {
            let ghost prev = cells_view(row@);
            row.push(cells[k].clone());
            assert(cells_view(row@) =~= prev.push(cells@[k as int]@));
            assert(cells_view(cells@).subrange(0, k + 1) =~= cells_view(cells@).subrange(0, k as int).push(
                cells@[k as int]@,
            ));
            k += 1;
        }
        proof {
            assert(cells_view(cells@).subrange(0, cells@.len() as int) =~= cells_view(cells@));
            let f1 = fields@.subrange(0, i + 1);
            let t1 = tv.subrange(0, i + 1);
            let n1 = ints@.subrange(0, i + 1);
            assert(f1.drop_last() =~= fields@.subrange(0, i as int));
            assert(t1.drop_last() =~= tv.subrange(0, i as int));
            assert(n1.drop_last() =~= ints@.subrange(0, i as int));
            assert(t1.last() == tv[i as int]);
            assert(tv[i as int] == match texts@[i as int] {
                Some(t) => Some(t@),
                None => None::<Seq<char>>,
            });
            assert(row_ok(f1, t1, n1)) by {
                assert forall|j: int| 0 <= j < f1.len() implies field_cells_ok(
                    (#[trigger] f1[j]).coltype@,
                    f1[j].nullable,
                    t1[j],
                    n1[j],
                ) by {
                    if j < i {
                        assert(fields@.subrange(0, i as int)[j] == f1[j]);
                        assert(tv.subrange(0, i as int)[j] == t1[j]);
                        assert(ints@.subrange(0, i as int)[j] == n1[j]);
                    }
                }
            }
        }
        i += 1;
    }
    proof {
        assert(fields@.subrange(0, fields@.len() as int) =~= fields@);
        assert(tv.subrange(0, fields@.len() as int) =~= tv);
        assert(ints@.subrange(0, fields@.len() as int) =~= ints@);
    }
    Some(row)
}

/// Each field gives a row as many cells as the header gives it names: first
/// the column text (`NULL` for a nullable column that could not be read as
/// text), then, for a time column, the UTC date of its value without the
/// " UTC" suffix: for `chrome_ts` 1601-01-01 00:00:00 UTC plus the value in
/// microseconds, for `moz_ts` the Unix epoch plus the value in microseconds
/// (whole seconds), for `timestamp` the Unix epoch plus the value in seconds,
/// a NULL value counting as 0.
pub proof fn lemma_field_cells_match_header(
    name: Seq<char>,
    coltype: Seq<char>,
    nullable: i64,
    text: Option<Seq<char>>,
    int_value: Option<i64>,
)
    requires
        field_cells_ok(coltype, nullable, text, int_value),
    ensures
        ({
            let cells = field_cells_spec(coltype, nullable, text, int_value);
            let is_null = nullable == 1 && (text is None || text == Some("NULL"@));
            let v: i64 = if is_null { 0 } else { int_value->0 };
            &&& cells.len() == field_header(name, coltype).len()
            &&& text matches Some(t) ==> cells[0] == t
            &&& text is None ==> cells[0] == "NULL"@
            &&& coltype == "chrome_ts"@ ==> cells[1] == replace_all(
                utc_plus_micros_text(timestamp_of(1601, 1, 1, 0, 0, 0), int_value->0)->0,
                " UTC"@,
                ""@,
            )
            &&& coltype == "moz_ts"@ ==> cells[1] == replace_all(
                unix_time_text(micros_to_secs(v))->0,
                " UTC"@,
                ""@,
            )
            &&& coltype == "timestamp"@ ==> cells[1] == replace_all(unix_time_text(v)->0, " UTC"@, ""@)
        }),
{
    lemma_coltype_literals_distinct();
}

/// A row of the dump has exactly as many cells as the header row has names,
/// so every cell sits under its column.
pub proof fn lemma_row_matches_header(
    fields: Seq<Field>,
    texts: Seq<Option<Seq<char>>>,
    ints: Seq<Option<i64>>,
)
    requires
        texts.len() == fields.len(),
        ints.len() == fields.len(),
        row_ok(fields, texts, ints),
    ensures
        row_cells_spec(fields, texts, ints).len() == header_row(field_names_types(fields)).len(),
    decreases fields.len(),
{
    if fields.len() > 0 {
        let n = fields.len() - 1;
        assert(row_ok(fields.drop_last(), texts.drop_last(), ints.drop_last())) by {
            assert forall|i: int| 0 <= i < fields.drop_last().len() implies field_cells_ok(
                (#[trigger] fields.drop_last()[i]).coltype@,
                fields.drop_last()[i].nullable,
                texts.drop_last()[i],
                ints.drop_last()[i],
            ) by {
                assert(fields.drop_last()[i] == fields[i]);
                assert(field_cells_ok(fields[i].coltype@, fields[i].nullable, texts[i], ints[i]));
            }
        }
        lemma_row_matches_header(fields.drop_last(), texts.drop_last(), ints.drop_last());
        assert(field_names_types(fields).drop_last() =~= field_names_types(fields.drop_last()));
        assert(field_cells_ok(fields[n].coltype@, fields[n].nullable, texts[n], ints[n]));
        lemma_field_cells_match_header(
            fields[n].name@,
            fields[n].coltype@,
            fields[n].nullable,
            texts[n],
            ints[n],
        );
        assert(field_names_types(fields).last() == (fields[n].name@, fields[n].coltype@));
    }
}

} // verus!
