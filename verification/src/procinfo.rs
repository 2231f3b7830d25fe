use vstd::prelude::*;
use vstd::utf8::{decode_utf8, encode_utf8, is_char_boundary};

use crate::timefmt::{
    datetime_text, local_to_utc, naive_date_time, naive_parse, parse_naive, plain_writable,
    shifted_within_a_day, timestamp_of, zero_padded, Timestamp,
};

verus! {

broadcast use vstd::string::group_string_axioms;

/// A WMI property value, as far as the process logic tells values apart.
pub enum WmiValue {
    Null,
    Text(String),
    UI4(u32),
    Other,
}

/// The value of the first property named `key`.
pub open spec fn lookup(props: Seq<(String, WmiValue)>, key: Seq<char>) -> Option<WmiValue>
    decreases props.len(),
{
    if props.len() == 0 {
        None
    } else if props[0].0@ == key {
        Some(props[0].1)
    } else {
        lookup(props.drop_first(), key)
    }
}

/// The text of a `Text` value, `if_null` for `Null`, `otherwise` for anything
/// else or no value.
pub open spec fn text_or(v: Option<WmiValue>, if_null: Seq<char>, otherwise: Seq<char>) -> Seq<
    char,
> {
    match v {
        Some(WmiValue::Text(s)) => s@,
        Some(WmiValue::Null) => if_null,
        _ => otherwise,
    }
}

/// The number of a `UI4` value, else 0.
pub open spec fn ui4_or_zero(v: Option<WmiValue>) -> u32 {
    match v {
        Some(WmiValue::UI4(n)) => n,
        _ => 0,
    }
}

proof fn lemma_lookup_skip(props: Seq<(String, WmiValue)>, i: int, key: Seq<char>)
    requires
        0 <= i < props.len(),
        props[i].0@ != key,
    ensures
        lookup(props.subrange(i, props.len() as int), key) == lookup(
            props.subrange(i + 1, props.len() as int),
            key,
        ),
{
    assert(props.subrange(i, props.len() as int).drop_first() =~= props.subrange(
        i + 1,
        props.len() as int,
    ));
}

/// The value of the first property named `key` (`HashMap::get` on the
/// properties of a WMI object).
pub fn get_property<'a>(props: &'a Vec<(String, WmiValue)>, key: &str) -> (r: Option<&'a WmiValue>)
    ensures
        match r {
            Some(v) => lookup(props@, key@) == Some(*v),
            None => lookup(props@, key@) is None,
        },
{
    let mut i: usize = 0;
    assert(props@.subrange(0, props@.len() as int) =~= props@);
    while i < props.len()
        invariant
            i <= props@.len(),
            lookup(props@.subrange(i as int, props@.len() as int), key@) == lookup(props@, key@),
        decreases props@.len() - i,
    {
        if crate::text::str_eq(props[i].0.as_str(), key) {
            return Some(&props[i].1);
        }
        proof {
            lemma_lookup_skip(props@, i as int, key@);
        }
        i += 1;
    }
    None
}

/// The text under `key`: its string, `if_null` for a NULL, `otherwise` for
/// anything else.
pub fn text_value(props: &Vec<(String, WmiValue)>, key: &str, if_null: &str, otherwise: &str) -> (s:
    String)
    ensures
        s@ == text_or(lookup(props@, key@), if_null@, otherwise@),
{
    match get_property(props, key) {
        Some(WmiValue::Text(t)) => t.clone(),
        Some(WmiValue::Null) => if_null.to_string(),
        _ => otherwise.to_string(),
    }
}

/// The `UI4` number under `key`, else 0.
pub fn ui4_value(props: &Vec<(String, WmiValue)>, key: &str) -> (n: u32)
    ensures
        n == ui4_or_zero(lookup(props@, key@)),
{
    match get_property(props, key) {
        Some(WmiValue::UI4(n)) => *n,
        _ => 0,
    }
}

/// A `Win32_Process` row.
pub struct Process {
    pub process_id: u32,
    pub name: String,
    pub executable_path: Option<String>,
    pub command_line: Option<String>,
    pub creation_date: Option<String>,
    pub description: Option<String>,
    pub handle: Option<String>,
    pub handle_count: Option<u32>,
    pub parent_process_id: Option<u32>,
    pub os_name: Option<String>,
    pub windows_version: Option<String>,
    pub session_id: Option<u32>,
}

/// A process as it is cached: WMI's fields with defaults filled in, its
/// host, and its creation time as local time and as UTC.
pub struct ProcessInfo {
    pub process_id: u32,
    pub hostname: String,
    pub name: String,
    pub executable_path: String,
    pub command_line: String,
    pub parent_process_id: u32,
    pub creation_date: Timestamp,
    pub creation_date_utc: Timestamp,
    pub description: String,
    pub handle: String,
    pub handle_count: u32,
    pub os_name: String,
    pub windows_version: String,
    pub session_id: u32,
}

/// Why a WMI date could not be converted.
#[derive(Debug, Clone, Copy, PartialEq, Eq, Structural)]
pub enum DateError {
    /// The local time does not name a single instant.
    LocalTime,
}

/// 1970-01-01 00:00:00.
pub open spec fn epoch() -> Timestamp {
    timestamp_of(1970, 1, 1, 0, 0, 0)
}

/// The characters of the first 14 bytes of `s` (`&s[0..14]`).
pub open spec fn wmi_prefix(s: Seq<char>) -> Seq<char> {
    decode_utf8(encode_utf8(s).subrange(0, 14))
}

/// Whether `&s[0..14]` can be taken when `s` has 14 bytes or more.
pub open spec fn wmi_date_sliceable(s: Seq<char>) -> bool {
    encode_utf8(s).len() < 14 || is_char_boundary(encode_utf8(s), 14)
}

/// The WMI date's leading `yyyymmddHHMMSS`, parsed; `None` for a text shorter
/// than 14 bytes or one that does not parse.
pub open spec fn wmi_prefix_parse(s: Seq<char>) -> Option<Timestamp> {
    if encode_utf8(s).len() < 14 {
        None
    } else {
        naive_parse(wmi_prefix(s), "%Y%m%d%H%M%S"@)
    }
}

/// What a WMI date converts to as local time: its leading date and time, or
/// the fallback date 1970-01-01 00:00:00.
pub open spec fn wmi_datetime(s: Seq<char>) -> Timestamp {
    match wmi_prefix_parse(s) {
        Some(t) => t,
        None => epoch(),
    }
}

/// 1970-01-01 00:00:00, built with chrono.
pub fn get_default_date() -> (d: Timestamp)
    ensures
        d == epoch(),
{
    match naive_date_time(1970, 1, 1, 0, 0, 0) {
        Some(d) => d,
        None => {
            proof {
                assert(crate::timefmt::valid_date_time(1970, 1, 1, 0, 0, 0));
            }
            epoch_value()
        },
    }
}

fn epoch_value() -> (d: Timestamp)
    ensures
        d == epoch(),
{
    Timestamp { year: 1970, month: 1, day: 1, hour: 0, minute: 0, second: 0, nanosecond: 0 }
}

/// The fallback date, parsed from its text `1970-01-01T00:00:00` with chrono.
pub(crate) fn fallback_date() -> (t: Timestamp)
    ensures
        t == epoch(),
{
    proof {
        reveal_strlit("1970-01-01T00:00:00");
        reveal_with_fuel(zero_padded, 5);
        assert(plain_writable(epoch()));
        assert("1970-01-01T00:00:00"@ =~= datetime_text(epoch(), 'T'));
    }
    match parse_naive("1970-01-01T00:00:00", "%Y-%m-%dT%H:%M:%S") {
        Some(t) => t,
        None => epoch_value(),
    }
}

/// `Some(&s[0..14])` when `s` has 14 bytes or more, else `None`.
fn wmi_prefix_str(s: &str) -> (r: Option<&str>)
    requires
        wmi_date_sliceable(s@),
    ensures
        match r {
            Some(p) => encode_utf8(s@).len() >= 14 && p@ == wmi_prefix(s@),
            None => encode_utf8(s@).len() < 14,
        },
{
    let nbytes = s.as_bytes().len();
    if nbytes < 14 {
        return None;
    }
    let (p, _) = s.split_at(14);
    proof {
        broadcast use vstd::utf8::group_utf8_lib;

        assert(p@ == decode_utf8(encode_utf8(p@)));
    }
    Some(p)
}

/// Converts a WMI date (`yyyymmddHHMMSS.ffffff+zzz`) to its local date and
/// time from its first 14 characters; a shorter or unparsable text gives the
/// parsed fallback date 1970-01-01 00:00:00.
pub fn convert_wmi_datetime_to_datetime(wmi_date: &str) -> (r: Result<Timestamp, DateError>)
    requires
        wmi_date_sliceable(wmi_date@),
    ensures
        r == Ok::<Timestamp, DateError>(wmi_datetime(wmi_date@)),
{
    match wmi_prefix_str(wmi_date) {
        None => Ok(fallback_date()),
        Some(p) => match parse_naive(p, "%Y%m%d%H%M%S") {
            Some(t) => Ok(t),
            None => Ok(fallback_date()),
        },
    }
}

/// As `convert_wmi_datetime_to_datetime`, with the date taken as local time
/// and converted to UTC. The fallback date is not converted. The offset
/// applied rests on the machine's time zone: of a converted date the
/// contract states that it is the parsed date moved by less than a day, with
/// the same fraction of a second.
pub fn convert_wmi_datetime_to_datetime_utc(wmi_date: &str) -> (r: Result<Timestamp, DateError>)
    requires
        wmi_date_sliceable(wmi_date@),
    ensures
        wmi_prefix_parse(wmi_date@) is None ==> r == Ok::<Timestamp, DateError>(epoch()),
        wmi_prefix_parse(wmi_date@) matches Some(t) ==> match r {
            Ok(u) => shifted_within_a_day(u, t),
            Err(e) => e == DateError::LocalTime,
        },
{
    match wmi_prefix_str(wmi_date) {
        None => Ok(fallback_date()),
        Some(p) => match parse_naive(p, "%Y%m%d%H%M%S") {
            Some(t) => match local_to_utc(t) {
                Some(u) => Ok(u),
                None => Err(DateError::LocalTime),
            },
            None => Ok(fallback_date()),
        },
    }
}

/// An ASCII text can always be cut after its 14th byte.
pub proof fn lemma_ascii_wmi_date_sliceable(s: Seq<char>)
    requires
        vstd::utf8::is_ascii_chars(s),
    ensures
        wmi_date_sliceable(s),
{
    broadcast use vstd::utf8::group_utf8_lib;

    vstd::utf8::is_ascii_chars_encode_utf8(s);
    let b = encode_utf8(s);
    if b.len() == 14 {
        vstd::utf8::is_char_boundary_start_end_of_seq(b);
    } else if b.len() > 14 {
        assert(s[14] as u8 == b[14]);
        vstd::utf8::is_char_boundary_iff_is_leading_byte(b, 14);
    }
}

/// The text a missing or non-text creation date stands for.
pub open spec fn fallback_text() -> Seq<char> {
    "1970-01-01T00:00:00"@
}

proof fn lemma_fallback_text_sliceable()
    ensures
        wmi_date_sliceable(fallback_text()),
{
    reveal_strlit("1970-01-01T00:00:00");
    assert(vstd::utf8::is_ascii_chars(fallback_text()));
    lemma_ascii_wmi_date_sliceable(fallback_text());
}

/// Whether a date value, when it is a text, can be cut after its 14th byte.
pub open spec fn date_text_ok(v: Option<WmiValue>) -> bool {
    match v {
        Some(WmiValue::Text(s)) => wmi_date_sliceable(s@),
        _ => true,
    }
}

/// The creation-date text of a WMI object: its `CreationDate` text, else the
/// fallback text.
pub open spec fn creation_text(props: Seq<(String, WmiValue)>) -> Seq<char> {
    text_or(lookup(props, "CreationDate"@), fallback_text(), fallback_text())
}

/// A detail of a process looked up separately: the text under `key` in
/// `details` (`if_null` for NULL, `otherwise` for anything else), or
/// `if_missing` when the lookup failed.
pub open spec fn detail_text(
    details: Option<Seq<(String, WmiValue)>>,
    key: Seq<char>,
    if_null: Seq<char>,
    otherwise: Seq<char>,
    if_missing: Seq<char>,
) -> Seq<char> {
    match details {
        Some(d) => text_or(lookup(d, key), if_null, otherwise),
        None => if_missing,
    }
}

/// The properties looked up separately, as sequences.
pub open spec fn details_view(details: Option<Vec<(String, WmiValue)>>) -> Option<
    Seq<(String, WmiValue)>,
> {
    match details {
        Some(d) => Some(d@),
        None => None,
    }
}

/// Whether every field of `pi` but the UTC creation date is as given.
pub open spec fn pi_fields(
    pi: ProcessInfo,
    process_id: u32,
    hostname: Seq<char>,
    name: Seq<char>,
    executable_path: Seq<char>,
    command_line: Seq<char>,
    parent_process_id: u32,
    creation_date: Timestamp,
    description: Seq<char>,
    handle: Seq<char>,
    handle_count: u32,
    os_name: Seq<char>,
    windows_version: Seq<char>,
    session_id: u32,
) -> bool {
    &&& pi.process_id == process_id
    &&& pi.hostname@ == hostname
    &&& pi.name@ == name
    &&& pi.executable_path@ == executable_path
    &&& pi.command_line@ == command_line
    &&& pi.parent_process_id == parent_process_id
    &&& pi.creation_date == creation_date
    &&& pi.description@ == description
    &&& pi.handle@ == handle
    &&& pi.handle_count == handle_count
    &&& pi.os_name@ == os_name
    &&& pi.windows_version@ == windows_version
    &&& pi.session_id == session_id
}

fn detail_value(
    details: &Option<Vec<(String, WmiValue)>>,
    key: &str,
    if_null: &str,
    otherwise: &str,
    if_missing: &str,
) -> (s: String)
    ensures
        s@ == detail_text(details_view(*details), key@, if_null@, otherwise@, if_missing@),
{
    match details {
        Some(d) => text_value(d, key, if_null, otherwise),
        None => if_missing.to_string(),
    }
}

/// The process id a `Win32_ProcessStartTrace` event names: the one whose
/// details `proc_hm_to_pi` is handed.
pub fn start_trace_process_id(process: &Vec<(String, WmiValue)>) -> (pid: u32)
    ensures
        pid == ui4_or_zero(lookup(process@, "ProcessID"@)),
{
    ui4_value(process, "ProcessID")
}

/// Turns the properties of a `Win32_Process` object, or of a
/// `Win32_ProcessStartTrace` event completed by the `details` of its process
/// (`None` when they could not be had), into a `ProcessInfo` on `hostname`.
/// Missing texts become `*NA` (`None` for a NULL command line or path of a
/// `Win32_Process`), missing numbers 0, a missing date 1970-01-01.
/// Another class gives the defaults alone. The UTC creation date of a
/// `Win32_Process` is its parsed creation date converted from local time
/// (the parsed date itself where the local time names no single instant),
/// or 1970-01-01 when the date does not parse; a `Win32_ProcessStartTrace`
/// fails with `LocalTime` where its date cannot be converted.
pub fn proc_hm_to_pi(
    process: &Vec<(String, WmiValue)>,
    classname: &str,
    hostname: String,
    details: &Option<Vec<(String, WmiValue)>>,
) -> (r: Result<ProcessInfo, DateError>)
    requires
        classname@ == "Win32_Process"@ ==> date_text_ok(lookup(process@, "CreationDate"@)),
        classname@ == "Win32_ProcessStartTrace"@ ==> match details {
            Some(d) => date_text_ok(lookup(d@, "CreationDate"@)),
            None => true,
        },
    ensures
        classname@ == "Win32_Process"@ ==> r is Ok && pi_fields(
            r->Ok_0,
            ui4_or_zero(lookup(process@, "ProcessId"@)),
            hostname@,
            text_or(lookup(process@, "Name"@), "*NA"@, "*NA"@),
            text_or(lookup(process@, "ExecutablePath"@), "None"@, "*NA"@),
            text_or(lookup(process@, "CommandLine"@), "None"@, "*NA"@),
            ui4_or_zero(lookup(process@, "ParentProcessId"@)),
            wmi_datetime(creation_text(process@)),
            text_or(lookup(process@, "Description"@), "*NA"@, "*NA"@),
            text_or(lookup(process@, "Handle"@), "*NA"@, "*NA"@),
            0,
            "*NA"@,
            "*NA"@,
            ui4_or_zero(lookup(process@, "SessionId"@)),
        ),
        classname@ == "Win32_Process"@ && wmi_prefix_parse(creation_text(process@)) is None
            ==> r->Ok_0.creation_date_utc == epoch(),
        classname@ == "Win32_Process"@ ==> (wmi_prefix_parse(
            creation_text(process@),
        ) matches Some(t) ==> shifted_within_a_day(r->Ok_0.creation_date_utc, t)),
        classname@ == "Win32_ProcessStartTrace"@ ==> {
            let cd = detail_text(
                details_view(*details),
                "CreationDate"@,
                fallback_text(),
                fallback_text(),
                fallback_text(),
            );
            &&& r is Ok || (r == Err::<ProcessInfo, DateError>(DateError::LocalTime)
                && wmi_prefix_parse(cd) is Some)
            &&& r is Ok ==> pi_fields(
                r->Ok_0,
                ui4_or_zero(lookup(process@, "ProcessID"@)),
                hostname@,
                text_or(lookup(process@, "ProcessName"@), "*NA"@, "*NA"@),
                detail_text(details_view(*details), "ExecutablePath"@, "*NA"@, "*NA"@, "*NA"@),
                detail_text(details_view(*details), "CommandLine"@, "*NA"@, "*NA"@, "N/A"@),
                ui4_or_zero(lookup(process@, "ParentProcessID"@)),
                wmi_datetime(cd),
                detail_text(details_view(*details), "Description"@, "*NA"@, "*NA"@, "*NA"@),
                detail_text(details_view(*details), "Handle"@, "*NA"@, "*NA"@, "*NA"@),
                0,
                detail_text(details_view(*details), "OSName"@, "*NA"@, "*NA"@, "*NA"@),
                "*NA"@,
                match details {
                    Some(d) => ui4_or_zero(lookup(d@, "SessionId"@)),
                    None => 0,
                },
            )
            &&& r is Ok && wmi_prefix_parse(cd) is None ==> r->Ok_0.creation_date_utc == epoch()
            &&& wmi_prefix_parse(cd) matches Some(t) ==> (r is Ok ==> shifted_within_a_day(
                r->Ok_0.creation_date_utc,
                t,
            ))
        },
        classname@ != "Win32_Process"@ && classname@ != "Win32_ProcessStartTrace"@ ==> r is Ok
            && r->Ok_0.creation_date_utc == epoch() && pi_fields(
            r->Ok_0,
            0,
            hostname@,
            "*NA"@,
            "*NA"@,
            "*NA"@,
            0,
            epoch(),
            "*NA"@,
            "*NA"@,
            0,
            "*NA"@,
            "*NA"@,
            0,
        ),
{
    proof {
        reveal_strlit("Win32_Process");
        reveal_strlit("Win32_ProcessStartTrace");
        assert("Win32_Process"@.len() != "Win32_ProcessStartTrace"@.len());
        lemma_fallback_text_sliceable();
    }
    let initial = fallback_date();
    let mut newproc = ProcessInfo {
        name: "*NA".to_string(),
        hostname: hostname,
        command_line: "*NA".to_string(),
        parent_process_id: 0,
        process_id: 0,
        creation_date: initial,
        creation_date_utc: initial,
        executable_path: "*NA".to_string(),
        description: "*NA".to_string(),
        handle: "*NA".to_string(),
        handle_count: 0,
        os_name: "*NA".to_string(),
        windows_version: "*NA".to_string(),
        session_id: 0,
    };
    if crate::text::str_eq(classname, "Win32_Process") {
        newproc.name = text_value(process, "Name", "*NA", "*NA");
        newproc.command_line = text_value(process, "CommandLine", "None", "*NA");
        newproc.parent_process_id = ui4_value(process, "ParentProcessId");
        newproc.process_id = ui4_value(process, "ProcessId");
        let cd_str = text_value(
            process,
            "CreationDate",
            "1970-01-01T00:00:00",
            "1970-01-01T00:00:00",
        );
        let default_dt = get_default_date();
        newproc.creation_date = match convert_wmi_datetime_to_datetime(cd_str.as_str()) {
            Ok(t) => t,
            Err(_) => default_dt,
        };
        // Where the local time names no single instant, the parsed time is
        // kept as it is rather than converted.
        newproc.creation_date_utc = match convert_wmi_datetime_to_datetime_utc(cd_str.as_str()) {
            Ok(t) => t,
            Err(_) => newproc.creation_date,
        };
        newproc.description = text_value(process, "Description", "*NA", "*NA");
        newproc.executable_path = text_value(process, "ExecutablePath", "None", "*NA");
        newproc.handle = text_value(process, "Handle", "*NA", "*NA");
        newproc.session_id = ui4_value(process, "SessionId");
    } else if crate::text::str_eq(classname, "Win32_ProcessStartTrace") {
        newproc.name = text_value(process, "ProcessName", "*NA", "*NA");
        newproc.parent_process_id = ui4_value(process, "ParentProcessID");
        newproc.process_id = ui4_value(process, "ProcessID");
        newproc.command_line = detail_value(details, "CommandLine", "*NA", "*NA", "N/A");
        let cd_str = detail_value(
            details,
            "CreationDate",
            "1970-01-01T00:00:00",
            "1970-01-01T00:00:00",
            "1970-01-01T00:00:00",
        );
        newproc.creation_date = match convert_wmi_datetime_to_datetime(cd_str.as_str()) {
            Ok(t) => t,
            Err(e) => return Err(e),
        };
        newproc.creation_date_utc = match convert_wmi_datetime_to_datetime_utc(cd_str.as_str()) {
            Ok(t) => t,
            Err(e) => return Err(e),
        };
        newproc.description = detail_value(details, "Description", "*NA", "*NA", "*NA");
        newproc.executable_path = detail_value(details, "ExecutablePath", "*NA", "*NA", "*NA");
        newproc.handle = detail_value(details, "Handle", "*NA", "*NA", "*NA");
        newproc.session_id = match details {
            Some(d) => ui4_value(d, "SessionId"),
            None => 0,
        };
        newproc.os_name = detail_value(details, "OSName", "*NA", "*NA", "*NA");
    }
    Ok(newproc)
}

/// The text of an optional string, or `dflt`.
pub open spec fn opt_text(o: Option<String>, dflt: Seq<char>) -> Seq<char> {
    match o {
        Some(s) => s@,
        None => dflt,
    }
}

/// The number of an optional number, or 0.
pub open spec fn opt_num(o: Option<u32>) -> u32 {
    match o {
        Some(n) => n,
        None => 0,
    }
}

fn take_text(o: Option<String>, dflt: &str) -> (s: String)
    ensures
        s@ == opt_text(o, dflt@),
{
    match o {
        Some(s) => s,
        None => dflt.to_string(),
    }
}

/// The process that stands in when a lookup finds none: id 0, `*NA` texts
/// and zero numbers.
pub open spec fn is_default_process(p: Process) -> bool {
    &&& p.process_id == 0
    &&& p.name@ == "*NA"@
    &&& opt_text(p.executable_path, ""@) == "*NA"@ && p.executable_path is Some
    &&& opt_text(p.command_line, ""@) == "*NA"@ && p.command_line is Some
    &&& opt_text(p.creation_date, ""@) == "*NA"@ && p.creation_date is Some
    &&& opt_text(p.description, ""@) == "*NA"@ && p.description is Some
    &&& opt_text(p.handle, ""@) == "*NA"@ && p.handle is Some
    &&& p.handle_count == Some(0u32)
    &&& p.parent_process_id == Some(0u32)
    &&& opt_text(p.os_name, ""@) == "*NA"@ && p.os_name is Some
    &&& opt_text(p.windows_version, ""@) == "*NA"@ && p.windows_version is Some
    &&& p.session_id == Some(0u32)
}

/// The process that stands in when a lookup finds none.
pub fn default_process() -> (p: Process)
    ensures
        is_default_process(p),
{
    Process {
        process_id: 0,
        name: "*NA".to_string(),
        executable_path: Some("*NA".to_string()),
        command_line: Some("*NA".to_string()),
        creation_date: Some("*NA".to_string()),
        description: Some("*NA".to_string()),
        handle: Some("*NA".to_string()),
        handle_count: Some(0),
        parent_process_id: Some(0),
        os_name: Some("*NA".to_string()),
        windows_version: Some("*NA".to_string()),
        session_id: Some(0),
    }
}

/// The process found by a `Win32_Process` query on one process id: the first
/// row of `query_results`, or the default process when the query could not
/// run (`None`) or found nothing.
pub fn get_process_by_id(query_results: Option<Vec<Process>>) -> (p: Process)
    ensures
        match query_results {
            Some(rows) => if rows@.len() > 0 {
                p == rows@[0]
            } else {
                is_default_process(p)
            },
            None => is_default_process(p),
        },
{
    match query_results {
        Some(mut rows) => {
            if rows.len() > 0 {
                rows.remove(0)
            } else {
                default_process()
            }
        },
        None => default_process(),
    }
}

/// The creation-date text of a `Win32_Process` row.
pub open spec fn row_creation_text(p: Process) -> Seq<char> {
    opt_text(p.creation_date, fallback_text())
}

/// What `process_to_info` makes of a row, but for the UTC creation date.
pub open spec fn row_info_fields(pi: ProcessInfo, p: Process, hostname: Seq<char>) -> bool {
    pi_fields(
        pi,
        p.process_id,
        hostname,
        p.name@,
        opt_text(p.executable_path, "*NA"@),
        opt_text(p.command_line, "*NA"@),
        opt_num(p.parent_process_id),
        wmi_datetime(row_creation_text(p)),
        opt_text(p.description, "*NA"@),
        opt_text(p.handle, "*NA"@),
        opt_num(p.handle_count),
        opt_text(p.os_name, "*NA"@),
        opt_text(p.windows_version, "*NA"@),
        opt_num(p.session_id),
    )
}

/// What the UTC creation date of a row is: its parsed creation date moved by
/// less than a day, or the fallback date where the text does not parse.
pub open spec fn row_utc_fits(utc: Timestamp, p: Process) -> bool {
    match wmi_prefix_parse(row_creation_text(p)) {
        Some(t) => shifted_within_a_day(utc, t),
        None => utc == epoch(),
    }
}

/// Whether converting the row's creation date can fail, with `e`: only a
/// parsed date whose local time names no single instant.
pub open spec fn row_date_error(p: Process, e: DateError) -> bool {
    e == DateError::LocalTime && wmi_prefix_parse(row_creation_text(p)) is Some
}

/// A `Win32_Process` row as a `ProcessInfo` on `hostname`: missing texts
/// become `*NA`, missing numbers 0; the creation date, missing or not, is
/// converted as local time and as UTC.
pub fn process_to_info(p: Process, hostname: &String) -> (r: Result<ProcessInfo, DateError>)
    requires
        wmi_date_sliceable(row_creation_text(p)),
    ensures
        match r {
            Ok(pi) => row_info_fields(pi, p, hostname@) && row_utc_fits(pi.creation_date_utc, p),
            Err(e) => row_date_error(p, e),
        },
        wmi_prefix_parse(row_creation_text(p)) is None ==> r is Ok,
{
    let ghost row = p;
    let cd = take_text(p.creation_date, "1970-01-01T00:00:00");
    let creation_date = match convert_wmi_datetime_to_datetime(cd.as_str()) {
        Ok(t) => t,
        Err(e) => return Err(e),
    };
    let creation_date_utc = match convert_wmi_datetime_to_datetime_utc(cd.as_str()) {
        Ok(t) => t,
        Err(e) => return Err(e),
    };
    let pi = ProcessInfo {
        hostname: hostname.clone(),
        executable_path: take_text(p.executable_path, "*NA"),
        process_id: p.process_id,
        creation_date: creation_date,
        creation_date_utc: creation_date_utc,
        command_line: take_text(p.command_line, "*NA"),
        name: p.name,
        parent_process_id: match p.parent_process_id {
            Some(n) => n,
            None => 0,
        },
        description: take_text(p.description, "*NA"),
        handle: take_text(p.handle, "*NA"),
        handle_count: match p.handle_count {
            Some(n) => n,
            None => 0,
        },
        os_name: take_text(p.os_name, "*NA"),
        windows_version: take_text(p.windows_version, "*NA"),
        session_id: match p.session_id {
            Some(n) => n,
            None => 0,
        },
    };
    assert(row_info_fields(pi, row, hostname@));
    Ok(pi)
}

/// The `Win32_Process` rows as `ProcessInfo`s on `hostname`, in order; the
/// first row whose date cannot be converted ends it with that error.
pub fn get_process_list(processes: Vec<Process>, hostname: String) -> (r: Result<
    Vec<ProcessInfo>,
    DateError,
>)
    requires
        forall|i: int| 0 <= i < processes@.len() ==> wmi_date_sliceable(row_creation_text(#[trigger] processes@[i])),
    ensures
        match r {
            Ok(v) => v@.len() == processes@.len() && forall|i: int|
                0 <= i < v@.len() ==> row_info_fields(#[trigger] v@[i], processes@[i], hostname@)
                    && row_utc_fits(v@[i].creation_date_utc, processes@[i]),
            Err(e) => exists|i: int| 0 <= i < processes@.len() && row_date_error(#[trigger] processes@[i], e),
        },
        (forall|i: int| 0 <= i < processes@.len() ==> wmi_prefix_parse(row_creation_text(#[trigger] processes@[i]))
            is None) ==> r is Ok,
{
    let ghost rows = processes@;
    let mut out: Vec<ProcessInfo> = Vec::new();
    let mut rest = processes;
    let ghost n = rows.len();
    while rest.len() > 0
        invariant
            out@.len() + rest@.len() == n,
            n == rows.len(),
            rows == processes@,
            rest@ == rows.subrange(out@.len() as int, n as int),
            forall|i: int| 0 <= i < rows.len() ==> wmi_date_sliceable(row_creation_text(#[trigger] rows[i])),
            forall|i: int| 0 <= i < out@.len() ==> row_info_fields(#[trigger] out@[i], rows[i], hostname@)
                && row_utc_fits(out@[i].creation_date_utc, rows[i]),
        decreases rest@.len(),
    {
        let p = rest.remove(0);
        let ghost k = out@.len() as int;
        assert(p == rows[k]);
        match process_to_info(p, &hostname) {
            Ok(pi) => out.push(pi),
            Err(e) => {
                assert(row_date_error(rows[k], e));
                return Err(e);
            },
        }
    }
    Ok(out)
}

/// The host name a `Win32_ComputerSystem` query for `DNSHostName` gives:
/// the text of its first row, `Unknown` when the query failed, found no row
/// or no text.
pub open spec fn hostname_from_rows(rows: Option<Seq<Vec<(String, WmiValue)>>>) -> Seq<char> {
    match rows {
        Some(r) => if r.len() > 0 {
            match lookup(r[0]@, "DNSHostName"@) {
                Some(WmiValue::Text(h)) => h@,
                _ => "Unknown"@,
            }
        } else {
            "Unknown"@
        },
        None => "Unknown"@,
    }
}

/// The host name from the rows of a `Win32_ComputerSystem` query (`None`
/// when the query could not run), as `hostname_from_rows` says.
pub fn get_hostname(rows: &Option<Vec<Vec<(String, WmiValue)>>>) -> (h: String)
    ensures
        h@ == hostname_from_rows(
            match rows {
                Some(r) => Some(r@),
                None => None,
            },
        ),
{
    match rows {
        Some(r) => {
            if r.len() > 0 {
                match get_property(&r[0], "DNSHostName") {
                    Some(WmiValue::Text(h)) => h.clone(),
                    _ => "Unknown".to_string(),
                }
            } else {
                "Unknown".to_string()
            }
        },
        None => "Unknown".to_string(),
    }
}

} // verus!
