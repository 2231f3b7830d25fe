use vstd::prelude::*;

use crate::dotnet_templates::{
    DotnetEvent, DotnetRuntimeRundownRuntimeStartArgs, LoaderAppDomainDCStartArgs,
    LoaderAssemblyLoadArgs, LoaderDomainModuleDCStartArgs, LoaderDomainModuleLoadArgs,
    LoaderThreadDCStopArgs, WinKernProcImageLoad,
};
use crate::eventrec::etw_ts;
use crate::procinfo::{fallback_date, opt_text, DateError};
use crate::text::{decimal, u64_to_decimal};
use crate::timefmt::{parse_naive, Timestamp};

verus! {

broadcast use vstd::string::group_string_axioms;

/// One row of the .NET / kernel-process event cache: as the general record,
/// with the file the event names.
pub struct GenericEventRecord {
    pub id: Option<i64>,
    pub ts: Timestamp,
    pub ts_type: String,
    pub src: String,
    pub host: String,
    pub filename: String,
    pub context1: String,
    pub context1_attrib: String,
    pub context2: String,
    pub context2_attrib: String,
    pub context3: String,
    pub context3_attrib: String,
    pub rawevent: String,
}

/// Whether `er` is the new record (no id yet, host `*NA`) with the given
/// fields, timed by the ETW time text `ts_str`.
pub open spec fn file_record_is(
    er: GenericEventRecord,
    ts_str: Seq<char>,
    ts_type: Seq<char>,
    src: Seq<char>,
    filename: Seq<char>,
    context1: Seq<char>,
    context1_attrib: Seq<char>,
    context2: Seq<char>,
    context2_attrib: Seq<char>,
    context3: Seq<char>,
    context3_attrib: Seq<char>,
    rawevent: Seq<char>,
) -> bool {
    &&& er.id is None
    &&& er.ts == etw_ts(ts_str)
    &&& er.ts_type@ == ts_type
    &&& er.src@ == src
    &&& er.host@ == "*NA"@
    &&& er.filename@ == filename
    &&& er.context1@ == context1
    &&& er.context1_attrib@ == context1_attrib
    &&& er.context2@ == context2
    &&& er.context2_attrib@ == context2_attrib
    &&& er.context3@ == context3
    &&& er.context3_attrib@ == context3_attrib
    &&& er.rawevent@ == rawevent
}

/// The result of a builder, which always succeeds: a record `ok` accepts.
pub open spec fn file_built_as(r: Result<GenericEventRecord, DateError>, ok: spec_fn(GenericEventRecord) -> bool) -> bool {
    r matches Ok(er) && ok(er)
}

/// The decimal text of an optional number, or `dflt`.
pub open spec fn opt_decimal(o: Option<u64>, dflt: Seq<char>) -> Seq<char> {
    match o {
        Some(v) => decimal(v as nat),
        None => dflt,
    }
}

/// An optional 32-bit number widened.
pub open spec fn widen32(o: Option<u32>) -> Option<u64> {
    match o {
        Some(v) => Some(v as u64),
        None => None,
    }
}

fn decimal_or(o: Option<u64>, dflt: &str) -> (s: String)
    ensures
        s@ == opt_decimal(o, dflt@),
{
    match o {
        Some(v) => u64_to_decimal(v),
        None => dflt.to_string(),
    }
}

fn widen(o: Option<u32>) -> (w: Option<u64>)
    ensures
        w == widen32(o),
{
    match o {
        Some(v) => Some(v as u64),
        None => None,
    }
}

fn text_or(o: Option<String>, dflt: &str) -> (s: String)
    ensures
        s@ == opt_text(o, dflt@),
{
    match o {
        Some(s) => s,
        None => dflt.to_string(),
    }
}

/// The time of an ETW event, as `etw_ts` describes it.
fn event_time(ts_str: &str) -> (r: Result<Timestamp, DateError>)
    ensures
        r == Ok::<Timestamp, DateError>(etw_ts(ts_str@)),
{
    let fallback = fallback_date();
    match parse_naive(ts_str, "%Y-%m-%dT%H:%M:%SZ") {
        Some(t) => Ok(t),
        None => Ok(fallback),
    }
}

/// A stopped managed thread as a cache record: source is the event's
/// description, keyed by event id, OS thread id and app domain id.
pub fn ltdcsa_to_er(evt: LoaderThreadDCStopArgs, rawevent: String) -> (r: Result<GenericEventRecord, DateError>)
    ensures
        file_built_as(
            r,
            |er: GenericEventRecord|
                file_record_is(
                    er,
                    evt.ts_str@,
                    "timestamp"@,
                    evt.event_description@,
                    "*NA"@,
                    decimal(evt.event_id as nat),
                    "event_id"@,
                    opt_decimal(widen32(evt.os_thread_id), "*NA"@),
                    "os_thread_id"@,
                    opt_decimal(evt.app_domain_id, "*NA"@),
                    "app_domain_id"@,
                    rawevent@,
                ),
        ),
{
    let ts = match event_time(evt.ts_str.as_str()) {
        Ok(t) => t,
        Err(e) => return Err(e),
    };
    Ok(
        GenericEventRecord {
            id: None,
            ts: ts,
            ts_type: "timestamp".to_string(),
            src: evt.event_description,
            host: "*NA".to_string(),
            filename: "*NA".to_string(),
            context1: u64_to_decimal(evt.event_id as u64),
            context1_attrib: "event_id".to_string(),
            context2: decimal_or(widen(evt.os_thread_id), "*NA"),
            context2_attrib: "os_thread_id".to_string(),
            context3: decimal_or(evt.app_domain_id, "*NA"),
            context3_attrib: "app_domain_id".to_string(),
            rawevent: rawevent,
        },
    )
}

/// An app domain at rundown as a cache record: source is the event's
/// description, keyed by event id, app domain name and id.
pub fn laddcsa_to_er(evt: LoaderAppDomainDCStartArgs, rawevent: String) -> (r: Result<GenericEventRecord, DateError>)
    ensures
        file_built_as(
            r,
            |er: GenericEventRecord|
                file_record_is(
                    er,
                    evt.ts_str@,
                    "timestamp"@,
                    evt.event_description@,
                    "*NA"@,
                    decimal(evt.event_id as nat),
                    "event_id"@,
                    opt_text(evt.app_domain_name, "*NA"@),
                    "app_domain_name"@,
                    opt_decimal(evt.app_domain_id, "*NA"@),
                    "app_domain_id"@,
                    rawevent@,
                ),
        ),
{
    let ts = match event_time(evt.ts_str.as_str()) {
        Ok(t) => t,
        Err(e) => return Err(e),
    };
    Ok(
        GenericEventRecord {
            id: None,
            ts: ts,
            ts_type: "timestamp".to_string(),
            src: evt.event_description,
            host: "*NA".to_string(),
            filename: "*NA".to_string(),
            context1: u64_to_decimal(evt.event_id as u64),
            context1_attrib: "event_id".to_string(),
            context2: text_or(evt.app_domain_name, "*NA"),
            context2_attrib: "app_domain_name".to_string(),
            context3: decimal_or(evt.app_domain_id, "*NA"),
            context3_attrib: "app_domain_id".to_string(),
            rawevent: rawevent,
        },
    )
}

/// A module at rundown as a cache record: source is the event's
/// description, keyed by event id 151, IL path (also the file) and app
/// domain id.
pub fn ldmdcsa_to_er(evt: LoaderDomainModuleDCStartArgs, rawevent: String) -> (r: Result<GenericEventRecord, DateError>)
    ensures
        file_built_as(
            r,
            |er: GenericEventRecord|
                file_record_is(
                    er,
                    evt.ts_str@,
                    "timestamp"@,
                    evt.event_description@,
                    opt_text(evt.module_il_path, "*NA"@),
                    "151"@,
                    "event_id"@,
                    opt_text(evt.module_il_path, "*NA"@),
                    "module_il_path"@,
                    opt_decimal(evt.app_domain_id, "*NA"@),
                    "app_domain_id"@,
                    rawevent@,
                ),
        ),
{
    let ts = match event_time(evt.ts_str.as_str()) {
        Ok(t) => t,
        Err(e) => return Err(e),
    };
    let path = text_or(evt.module_il_path, "*NA");
    Ok(
        GenericEventRecord {
            id: None,
            ts: ts,
            ts_type: "timestamp".to_string(),
            src: evt.event_description,
            host: "*NA".to_string(),
            filename: path.clone(),
            context1: "151".to_string(),
            context1_attrib: "event_id".to_string(),
            context2: path,
            context2_attrib: "module_il_path".to_string(),
            context3: decimal_or(evt.app_domain_id, "*NA"),
            context3_attrib: "app_domain_id".to_string(),
            rawevent: rawevent,
        },
    )
}

/// A module load as a cache record: source is the event's description,
/// keyed by event id 151, IL path (also the file) and app domain id.
pub fn ldmla_to_er(evt: LoaderDomainModuleLoadArgs, rawevent: String) -> (r: Result<GenericEventRecord, DateError>)
    ensures
        file_built_as(
            r,
            |er: GenericEventRecord|
                file_record_is(
                    er,
                    evt.ts_str@,
                    "timestamp"@,
                    evt.event_description@,
                    opt_text(evt.module_il_path, "*NA"@),
                    "151"@,
                    "event_id"@,
                    opt_text(evt.module_il_path, "*NA"@),
                    "module_il_path"@,
                    opt_decimal(evt.app_domain_id, "*NA"@),
                    "app_domain_id"@,
                    rawevent@,
                ),
        ),
{
    let ts = match event_time(evt.ts_str.as_str()) {
        Ok(t) => t,
        Err(e) => return Err(e),
    };
    let path = text_or(evt.module_il_path, "*NA");
    Ok(
        GenericEventRecord {
            id: None,
            ts: ts,
            ts_type: "timestamp".to_string(),
            src: evt.event_description,
            host: "*NA".to_string(),
            filename: path.clone(),
            context1: "151".to_string(),
            context1_attrib: "event_id".to_string(),
            context2: path,
            context2_attrib: "module_il_path".to_string(),
            context3: decimal_or(evt.app_domain_id, "*NA"),
            context3_attrib: "app_domain_id".to_string(),
            rawevent: rawevent,
        },
    )
}

/// An assembly load as a cache record: source is the event's description,
/// keyed by event id 154, assembly name and app domain id.
pub fn lala_to_er(evt: LoaderAssemblyLoadArgs, rawevent: String) -> (r: Result<GenericEventRecord, DateError>)
    ensures
        file_built_as(
            r,
            |er: GenericEventRecord|
                file_record_is(
                    er,
                    evt.ts_str@,
                    "timestamp"@,
                    evt.event_description@,
                    "*NA"@,
                    "154"@,
                    "event_id"@,
                    opt_text(evt.fully_qualified_assembly_name, "*NA"@),
                    "fully_qualified_assembly_name"@,
                    opt_decimal(evt.app_domain_id, "*NA"@),
                    "app_domain_id"@,
                    rawevent@,
                ),
        ),
{
    let ts = match event_time(evt.ts_str.as_str()) {
        Ok(t) => t,
        Err(e) => return Err(e),
    };
    Ok(
        GenericEventRecord {
            id: None,
            ts: ts,
            ts_type: "timestamp".to_string(),
            src: evt.event_description,
            host: "*NA".to_string(),
            filename: "*NA".to_string(),
            context1: "154".to_string(),
            context1_attrib: "event_id".to_string(),
            context2: text_or(evt.fully_qualified_assembly_name, "*NA"),
            context2_attrib: "fully_qualified_assembly_name".to_string(),
            context3: decimal_or(evt.app_domain_id, "*NA"),
            context3_attrib: "app_domain_id".to_string(),
            rawevent: rawevent,
        },
    )
}

/// An image load or unload as a cache record from `proc_image_load`: keyed
/// by event id 5, image name (also the file, `NA` when absent) and image
/// checksum.
pub fn proc_imgload_to_er(kernproc_event: WinKernProcImageLoad, rawevent: String) -> (r: Result<GenericEventRecord, DateError>)
    ensures
        file_built_as(
            r,
            |er: GenericEventRecord|
                file_record_is(
                    er,
                    kernproc_event.ts_str@,
                    "timestamp"@,
                    "proc_image_load"@,
                    opt_text(kernproc_event.image_name, "NA"@),
                    "5"@,
                    "event_id"@,
                    opt_text(kernproc_event.image_name, "NA"@),
                    "image_name"@,
                    opt_decimal(widen32(kernproc_event.image_check_sum), "NA"@),
                    "image_check_sum"@,
                    rawevent@,
                ),
        ),
{
    let ts = match event_time(kernproc_event.ts_str.as_str()) {
        Ok(t) => t,
        Err(e) => return Err(e),
    };
    let image = text_or(kernproc_event.image_name, "NA");
    Ok(
        GenericEventRecord {
            id: None,
            ts: ts,
            ts_type: "timestamp".to_string(),
            src: "proc_image_load".to_string(),
            host: "*NA".to_string(),
            filename: image.clone(),
            context1: "5".to_string(),
            context1_attrib: "event_id".to_string(),
            context2: image,
            context2_attrib: "image_name".to_string(),
            context3: decimal_or(widen(kernproc_event.image_check_sum), "NA"),
            context3_attrib: "image_check_sum".to_string(),
            rawevent: rawevent,
        },
    )
}

/// The file of a .NET event: the executable path of its process, or `NA`.
pub open spec fn dotnet_event_file(evt: DotnetEvent) -> Seq<char> {
    match evt.associated_process {
        Some(p) => opt_text(p.executable_path, "NA"@),
        None => "NA"@,
    }
}

/// A .NET runtime event as a cache record: source is its description, the
/// file is its process's executable, keyed by event id, app domain name and
/// app domain id (`NA` when absent).
pub fn dng_to_er(etwevent: DotnetEvent, rawevent: String) -> (r: Result<GenericEventRecord, DateError>)
    ensures
        file_built_as(
            r,
            |er: GenericEventRecord|
                file_record_is(
                    er,
                    etwevent.ts_str@,
                    "etw_ts"@,
                    etwevent.event_description@,
                    dotnet_event_file(etwevent),
                    decimal(etwevent.event_id as nat),
                    "event_id"@,
                    opt_text(etwevent.app_domain_name, "NA"@),
                    "app_domain_name"@,
                    opt_decimal(etwevent.app_domain_id, "NA"@),
                    "app_domain_id"@,
                    rawevent@,
                ),
        ),
{
    let ts = match event_time(etwevent.ts_str.as_str()) {
        Ok(t) => t,
        Err(e) => return Err(e),
    };
    let filename = match etwevent.associated_process {
        Some(p) => text_or(p.executable_path, "NA"),
        None => "NA".to_string(),
    };
    Ok(
        GenericEventRecord {
            id: None,
            ts: ts,
            ts_type: "etw_ts".to_string(),
            src: etwevent.event_description,
            host: "*NA".to_string(),
            filename: filename,
            context1: u64_to_decimal(etwevent.event_id as u64),
            context1_attrib: "event_id".to_string(),
            context2: text_or(etwevent.app_domain_name, "NA"),
            context2_attrib: "app_domain_name".to_string(),
            context3: decimal_or(etwevent.app_domain_id, "NA"),
            context3_attrib: "app_domain_id".to_string(),
            rawevent: rawevent,
        },
    )
}

/// A runtime start as a cache record from `DotnetRuntimeRundownRuntimeStart`:
/// the file is the runtime DLL (`NA` when absent), keyed by event id, runtime
/// DLL path (empty when absent) and command line (`NA` when absent).
pub fn dnrrdrsa_to_er(etwevent: DotnetRuntimeRundownRuntimeStartArgs, rawevent: String) -> (r: Result<GenericEventRecord, DateError>)
    ensures
        file_built_as(
            r,
            |er: GenericEventRecord|
                file_record_is(
                    er,
                    etwevent.ts_str@,
                    "etw_ts"@,
                    "DotnetRuntimeRundownRuntimeStart"@,
                    opt_text(etwevent.runtime_dll_path, "NA"@),
                    decimal(etwevent.event_id as nat),
                    "event_id"@,
                    opt_text(etwevent.runtime_dll_path, ""@),
                    "runtime_dll_path"@,
                    opt_text(etwevent.command_line, "NA"@),
                    "command_line"@,
                    rawevent@,
                ),
        ),
{
    let ts = match event_time(etwevent.ts_str.as_str()) {
        Ok(t) => t,
        Err(e) => return Err(e),
    };
    let (filename, dll) = match etwevent.runtime_dll_path {
        Some(v) => (v.clone(), v),
        None => ("NA".to_string(), "".to_string()),
    };
    Ok(
        GenericEventRecord {
            id: None,
            ts: ts,
            ts_type: "etw_ts".to_string(),
            src: "DotnetRuntimeRundownRuntimeStart".to_string(),
            host: "*NA".to_string(),
            filename: filename,
            context1: u64_to_decimal(etwevent.event_id as u64),
            context1_attrib: "event_id".to_string(),
            context2: dll,
            context2_attrib: "runtime_dll_path".to_string(),
            context3: text_or(etwevent.command_line, "NA"),
            context3_attrib: "command_line".to_string(),
            rawevent: rawevent,
        },
    )
}

} // verus!
