use vstd::prelude::*;

use crate::etw_templates::{GeneralNetEvent, GenericDnsEvent, GenericFileEvent, GenericRegEvent};
use crate::etwdesc::{
    dns_event_desc, dns_event_desc_spec, reg_event_desc, reg_event_desc_spec, tcp_event_desc,
    tcp_event_desc_spec,
};
use crate::netaddr::{address_ipv4_spec, address_to_ipv4};
use crate::procinfo::{
    convert_wmi_datetime_to_datetime_utc, epoch, fallback_date, fallback_text, opt_text,
    wmi_date_sliceable, wmi_prefix_parse, DateError, ProcessInfo,
};
use crate::snapshot::{Netconn, Service};
use crate::text::{decimal, u64_to_decimal};
use crate::timefmt::{
    format_timestamp, naive_parse, parse_naive, plain_datetime_text, plain_writable,
    shifted_within_a_day, ts_format_text, Timestamp,
};

verus! {

broadcast use vstd::string::group_string_axioms;

/// One row of the event cache: when, what kind of time, where from, on which
/// host, three context values each with the name of what it holds, and the
/// whole event as JSON.
pub struct GenericEventRecord {
    pub id: Option<i64>,
    pub ts: Timestamp,
    pub ts_type: String,
    pub src: String,
    pub host: String,
    pub context1: String,
    pub context1_attrib: String,
    pub context2: String,
    pub context2_attrib: String,
    pub context3: String,
    pub context3_attrib: String,
    pub rawevent: String,
}

/// Whether `er` is the new record (no id yet) with the given fields.
pub open spec fn record_is(
    er: GenericEventRecord,
    ts: Timestamp,
    ts_type: Seq<char>,
    src: Seq<char>,
    host: Seq<char>,
    context1: Seq<char>,
    context1_attrib: Seq<char>,
    context2: Seq<char>,
    context2_attrib: Seq<char>,
    context3: Seq<char>,
    context3_attrib: Seq<char>,
    rawevent: Seq<char>,
) -> bool {
    &&& er.id is None
    &&& er.ts == ts
    &&& er.ts_type@ == ts_type
    &&& er.src@ == src
    &&& er.host@ == host
    &&& er.context1@ == context1
    &&& er.context1_attrib@ == context1_attrib
    &&& er.context2@ == context2
    &&& er.context2_attrib@ == context2_attrib
    &&& er.context3@ == context3
    &&& er.context3_attrib@ == context3_attrib
    &&& er.rawevent@ == rawevent
}

/// The time of an ETW event from its text `yyyy-mm-ddTHH:MM:SSZ`, or the
/// fallback date 1970-01-01 00:00:00.
pub open spec fn etw_ts(ts_str: Seq<char>) -> Timestamp {
    match naive_parse(ts_str, "%Y-%m-%dT%H:%M:%SZ"@) {
        Some(t) => t,
        None => epoch(),
    }
}

/// The result of a record builder, which always succeeds: a record `ok`
/// accepts.
pub open spec fn built_as(r: Result<GenericEventRecord, DateError>, ok: spec_fn(GenericEventRecord) -> bool) -> bool {
    r matches Ok(er) && ok(er)
}

/// The time of an ETW event, as `etw_ts` describes it.
fn etw_timestamp(ts_str: &str) -> (r: Result<Timestamp, DateError>)
    ensures
        r == Ok::<Timestamp, DateError>(etw_ts(ts_str@)),
{
    let fallback = fallback_date();
    match parse_naive(ts_str, "%Y-%m-%dT%H:%M:%SZ") {
        Some(t) => Ok(t),
        None => Ok(fallback),
    }
}

/// The text of an optional string, or `*NA`.
fn text_or_na(o: Option<String>) -> (s: String)
    ensures
        s@ == opt_text(o, "*NA"@),
{
    match o {
        Some(s) => s,
        None => "*NA".to_string(),
    }
}

/// A process as a cache record from source `procsrc`: timed by its UTC
/// creation date, keyed by name, PID and parent PID.
pub fn pi_to_er(pi: &ProcessInfo, procsrc: &str, rawevent: String) -> (r: Result<
    GenericEventRecord,
    DateError,
>)
    ensures
        r is Ok,
        record_is(
            r->Ok_0,
            pi.creation_date_utc,
            "process_creation_date"@,
            procsrc@,
            pi.hostname@,
            pi.name@,
            "ProcessName"@,
            decimal(pi.process_id as nat),
            "PID"@,
            decimal(pi.parent_process_id as nat),
            "PPID"@,
            rawevent@,
        ),
{
    Ok(
        GenericEventRecord {
            id: None,
            ts: pi.creation_date_utc,
            ts_type: "process_creation_date".to_string(),
            src: procsrc.to_string(),
            host: pi.hostname.clone(),
            context1: pi.name.clone(),
            context1_attrib: "ProcessName".to_string(),
            context2: u64_to_decimal(pi.process_id as u64),
            context2_attrib: "PID".to_string(),
            context3: u64_to_decimal(pi.parent_process_id as u64),
            context3_attrib: "PPID".to_string(),
            rawevent: rawevent,
        },
    )
}

/// A TCPIP event as a cache record on `hostname`: keyed by event id,
/// provider and remote IPv4 address.
pub fn netevent_to_er(netevent: GeneralNetEvent, hostname: String, rawevent: String) -> (r: Result<
    GenericEventRecord,
    DateError,
>)
    ensures
        built_as(
            r,
            |er: GenericEventRecord|
                record_is(
                    er,
                    etw_ts(netevent.ts_str@),
                    "netevent_timestamp"@,
                    "ETW_MSWINTCP"@,
                    hostname@,
                    decimal(netevent.event_id as nat),
                    "event_id"@,
                    netevent.provider_name@,
                    "provider_name"@,
                    netevent.remote_address_ipv4@,
                    "remote_address_ipv4"@,
                    rawevent@,
                ),
        ),
{
    let ts = match etw_timestamp(netevent.ts_str.as_str()) {
        Ok(t) => t,
        Err(e) => return Err(e),
    };
    Ok(
        GenericEventRecord {
            id: None,
            ts: ts,
            ts_type: "netevent_timestamp".to_string(),
            src: "ETW_MSWINTCP".to_string(),
            host: hostname,
            context1: u64_to_decimal(netevent.event_id as u64),
            context1_attrib: "event_id".to_string(),
            context2: netevent.provider_name,
            context2_attrib: "provider_name".to_string(),
            context3: netevent.remote_address_ipv4,
            context3_attrib: "remote_address_ipv4".to_string(),
            rawevent: rawevent,
        },
    )
}

/// A DNS-Client event as a cache record on `hostname`: keyed by event id,
/// provider and query name (`*NA` when absent).
pub fn dnsevent_to_er(dnsevent: GenericDnsEvent, hostname: String, rawevent: String) -> (r: Result<
    GenericEventRecord,
    DateError,
>)
    ensures
        built_as(
            r,
            |er: GenericEventRecord|
                record_is(
                    er,
                    etw_ts(dnsevent.ts_str@),
                    "dnsevent_timestamp"@,
                    "ETW_MSWINDNS"@,
                    hostname@,
                    decimal(dnsevent.event_id as nat),
                    "event_id"@,
                    dnsevent.provider_name@,
                    "provider_name"@,
                    opt_text(dnsevent.query_name, "*NA"@),
                    "query_name"@,
                    rawevent@,
                ),
        ),
{
    let ts = match etw_timestamp(dnsevent.ts_str.as_str()) {
        Ok(t) => t,
        Err(e) => return Err(e),
    };
    Ok(
        GenericEventRecord {
            id: None,
            ts: ts,
            ts_type: "dnsevent_timestamp".to_string(),
            src: "ETW_MSWINDNS".to_string(),
            host: hostname,
            context1: u64_to_decimal(dnsevent.event_id as u64),
            context1_attrib: "event_id".to_string(),
            context2: dnsevent.provider_name,
            context2_attrib: "provider_name".to_string(),
            context3: text_or_na(dnsevent.query_name),
            context3_attrib: "query_name".to_string(),
            rawevent: rawevent,
        },
    )
}

/// A Kernel-Registry event as a cache record on `hostname`: keyed by event
/// id, provider and relative key name (`*NA` when absent).
pub fn regevent_to_er(regevent: GenericRegEvent, hostname: String, rawevent: String) -> (r: Result<
    GenericEventRecord,
    DateError,
>)
    ensures
        built_as(
            r,
            |er: GenericEventRecord|
                record_is(
                    er,
                    etw_ts(regevent.ts_str@),
                    "regevent_timestamp"@,
                    "ETW_MSWINREG"@,
                    hostname@,
                    decimal(regevent.event_id as nat),
                    "event_id"@,
                    regevent.provider_name@,
                    "provider_name"@,
                    opt_text(regevent.relative_name, "*NA"@),
                    "relative_name"@,
                    rawevent@,
                ),
        ),
{
    let ts = match etw_timestamp(regevent.ts_str.as_str()) {
        Ok(t) => t,
        Err(e) => return Err(e),
    };
    Ok(
        GenericEventRecord {
            id: None,
            ts: ts,
            ts_type: "regevent_timestamp".to_string(),
            src: "ETW_MSWINREG".to_string(),
            host: hostname,
            context1: u64_to_decimal(regevent.event_id as u64),
            context1_attrib: "event_id".to_string(),
            context2: regevent.provider_name,
            context2_attrib: "provider_name".to_string(),
            context3: text_or_na(regevent.relative_name),
            context3_attrib: "relative_name".to_string(),
            rawevent: rawevent,
        },
    )
}

/// A Kernel-File event as a cache record on `hostname`: keyed by event id,
/// provider and file name (`*NA` when absent).
pub fn fileevent_to_er(filevent: GenericFileEvent, hostname: String, rawevent: String) -> (r: Result<
    GenericEventRecord,
    DateError,
>)
    ensures
        built_as(
            r,
            |er: GenericEventRecord|
                record_is(
                    er,
                    etw_ts(filevent.ts_str@),
                    "filevent_timestamp"@,
                    "ETW_MSWINFILE"@,
                    hostname@,
                    decimal(filevent.event_id as nat),
                    "event_id"@,
                    filevent.provider_name@,
                    "provider_name"@,
                    opt_text(filevent.file_name, "*NA"@),
                    "file_name"@,
                    rawevent@,
                ),
        ),
{
    let ts = match etw_timestamp(filevent.ts_str.as_str()) {
        Ok(t) => t,
        Err(e) => return Err(e),
    };
    Ok(
        GenericEventRecord {
            id: None,
            ts: ts,
            ts_type: "filevent_timestamp".to_string(),
            src: "ETW_MSWINFILE".to_string(),
            host: hostname,
            context1: u64_to_decimal(filevent.event_id as u64),
            context1_attrib: "event_id".to_string(),
            context2: filevent.provider_name,
            context2_attrib: "provider_name".to_string(),
            context3: text_or_na(filevent.file_name),
            context3_attrib: "file_name".to_string(),
            rawevent: rawevent,
        },
    )
}

/// The creation-date text of a connection's first process.
pub open spec fn first_process_date(netconn: Netconn) -> Seq<char> {
    opt_text(netconn.associated_processes@[0].creation_date, fallback_text())
}

/// A network connection as a cache record on `hostname`: keyed by local
/// address, remote address and connection type; timed by the UTC creation
/// date of its first process, or the fallback date when it has none.
pub fn netconn_to_er(netconn: Netconn, hostname: String, rawevent: String) -> (r: Result<
    GenericEventRecord,
    DateError,
>)
    requires
        netconn.associated_processes@.len() >= 1 ==> wmi_date_sliceable(first_process_date(netconn)),
    ensures
        netconn.associated_processes@.len() == 0 ==> r is Ok && record_is(
            r->Ok_0,
            epoch(),
            "netevent_timestamp"@,
            "NETCONN"@,
            hostname@,
            netconn.local_address@,
            "local_address"@,
            netconn.remote_address@,
            "remote_address"@,
            netconn.conntype@,
            "conntype"@,
            rawevent@,
        ),
        netconn.associated_processes@.len() >= 1 ==> {
            &&& r is Ok || (r == Err::<GenericEventRecord, DateError>(DateError::LocalTime)
                && wmi_prefix_parse(first_process_date(netconn)) is Some)
            &&& r is Ok ==> record_is(
                r->Ok_0,
                r->Ok_0.ts,
                "process_creation_timestamp"@,
                "NETCONN"@,
                hostname@,
                netconn.local_address@,
                "local_address"@,
                netconn.remote_address@,
                "remote_address"@,
                netconn.conntype@,
                "conntype"@,
                rawevent@,
            )
            &&& r is Ok && wmi_prefix_parse(first_process_date(netconn)) is None ==> r->Ok_0.ts
                == epoch()
            &&& wmi_prefix_parse(first_process_date(netconn)) matches Some(t) ==> (r is Ok
                ==> shifted_within_a_day(r->Ok_0.ts, t))
        },
{
    let mut ts = fallback_date();
    let mut ts_type = "netevent_timestamp".to_string();
    if netconn.associated_processes.len() >= 1 {
        let proc0 = &netconn.associated_processes[0];
        let tsstr = match &proc0.creation_date {
            Some(s) => s.clone(),
            None => "1970-01-01T00:00:00".to_string(),
        };
        ts = match convert_wmi_datetime_to_datetime_utc(tsstr.as_str()) {
            Ok(t) => t,
            Err(e) => return Err(e),
        };
        ts_type = "process_creation_timestamp".to_string();
    }
    Ok(
        GenericEventRecord {
            id: None,
            ts: ts,
            ts_type: ts_type,
            src: "NETCONN".to_string(),
            host: hostname,
            context1: netconn.local_address,
            context1_attrib: "local_address".to_string(),
            context2: netconn.remote_address,
            context2_attrib: "remote_address".to_string(),
            context3: netconn.conntype,
            context3_attrib: "conntype".to_string(),
            rawevent: rawevent,
        },
    )
}

/// The install time of a service: its `yyyy-mm-ddTHH:MM:SSZ` text parsed,
/// else the fallback date.
pub open spec fn install_ts(install_date: Option<String>) -> Timestamp {
    match install_date {
        Some(d) => etw_ts(d@),
        None => epoch(),
    }
}

/// A service as a cache record on `hostname`: timed by its install date,
/// keyed by name, path and status (`*NA` when absent).
pub fn service_to_er(svc: Service, hostname: String, rawevent: String) -> (r: Result<
    GenericEventRecord,
    DateError,
>)
    ensures
        built_as(
            r,
            |er: GenericEventRecord|
                record_is(
                    er,
                    install_ts(svc.install_date),
                    "service_install_date"@,
                    "SVCLIST"@,
                    hostname@,
                    opt_text(svc.name, "*NA"@),
                    "name"@,
                    opt_text(svc.path_name, "*NA"@),
                    "path_name"@,
                    opt_text(svc.status, "*NA"@),
                    "status"@,
                    rawevent@,
                ),
        ),
{
    let fallback = fallback_date();
    let ts = match &svc.install_date {
        Some(install_date) => match etw_timestamp(install_date.as_str()) {
            Ok(t) => t,
            Err(e) => return Err(e),
        },
        None => fallback,
    };
    Ok(
        GenericEventRecord {
            id: None,
            ts: ts,
            ts_type: "service_install_date".to_string(),
            src: "SVCLIST".to_string(),
            host: hostname,
            context1: text_or_na(svc.name),
            context1_attrib: "name".to_string(),
            context2: text_or_na(svc.path_name),
            context2_attrib: "path_name".to_string(),
            context3: text_or_na(svc.status),
            context3_attrib: "status".to_string(),
            rawevent: rawevent,
        },
    )
}

/// Whether two TCPIP events agree on every decoded property (all fields but
/// the description and the two IPv4 texts).
pub open spec fn same_tcp_properties(a: GeneralNetEvent, b: GeneralNetEvent) -> bool {
    &&& a.ts_str == b.ts_str
    &&& a.event_id == b.event_id
    &&& a.provider_name == b.provider_name
    &&& a.tcb == b.tcb
    &&& a.local_address_length == b.local_address_length
    &&& a.local_address == b.local_address
    &&& a.remote_address_length == b.remote_address_length
    &&& a.remote_address == b.remote_address
    &&& a.new_state == b.new_state
    &&& a.rexmit_count == b.rexmit_count
    &&& a.status == b.status
    &&& a.process_id == b.process_id
    &&& a.compartment == b.compartment
    &&& a.path == b.path
    &&& a.buffer_size == b.buffer_size
    &&& a.ndk_qp == b.ndk_qp
    &&& a.request_context == b.request_context
    &&& a.sge_address == b.sge_address
    &&& a.sge_length == b.sge_length
    &&& a.sge_memory_region_token == b.sge_memory_region_token
    &&& a.num_sge == b.num_sge
    &&& a.flags == b.flags
    &&& a.sge_index == b.sge_index
    &&& a.remote_token == b.remote_token
    &&& a.state == b.state
    &&& a.pid == b.pid
    &&& a.request_type == b.request_type
    &&& a.tcb_or_endpoint == b.tcb_or_endpoint
    &&& a.interface_index == b.interface_index
    &&& a.address_length == b.address_length
    &&& a.remote_port == b.remote_port
    &&& a.local_port == b.local_port
    &&& a.partition_id == b.partition_id
    &&& a.num_entries == b.num_entries
    &&& a.name_res_context == b.name_res_context
    &&& a.dns_name == b.dns_name
    &&& a.data_bytes_out == b.data_bytes_out
    &&& a.data_bytes_in == b.data_bytes_in
    &&& a.data_segments_out == b.data_segments_out
    &&& a.data_segments_in == b.data_segments_in
    &&& a.segments_out == b.segments_out
    &&& a.segments_in == b.segments_in
    &&& a.non_recov_da == b.non_recov_da
    &&& a.non_recov_da_episodes == b.non_recov_da_episodes
    &&& a.dup_acks_in == b.dup_acks_in
    &&& a.bytes_retrans == b.bytes_retrans
    &&& a.timeouts == b.timeouts
    &&& a.spurious_rto_detections == b.spurious_rto_detections
    &&& a.fast_retran == b.fast_retran
    &&& a.max_ssthresh == b.max_ssthresh
    &&& a.max_ss_cwnd == b.max_ss_cwnd
    &&& a.max_ca_cwnd == b.max_ca_cwnd
    &&& a.snd_lim_trans_rwin == b.snd_lim_trans_rwin
    &&& a.snd_lim_time_rwin == b.snd_lim_time_rwin
    &&& a.snd_lim_bytes_rwin == b.snd_lim_bytes_rwin
    &&& a.snd_lim_trans_cwnd == b.snd_lim_trans_cwnd
    &&& a.snd_lim_time_cwnd == b.snd_lim_time_cwnd
    &&& a.snd_lim_bytes_cwnd == b.snd_lim_bytes_cwnd
    &&& a.snd_lim_trans_snd == b.snd_lim_trans_snd
    &&& a.snd_lim_time_r_snd == b.snd_lim_time_r_snd
    &&& a.snd_lim_bytes_r_snd == b.snd_lim_bytes_r_snd
    &&& a.connection_time_ms == b.connection_time_ms
    &&& a.timestamps_enabled == b.timestamps_enabled
    &&& a.rtt_us == b.rtt_us
    &&& a.min_rtt_us == b.min_rtt_us
    &&& a.max_rtt_us == b.max_rtt_us
    &&& a.syn_retrans == b.syn_retrans
    &&& a.congestion_algorithm == b.congestion_algorithm
    &&& a.cwnd == b.cwnd
    &&& a.ss_thresh == b.ss_thresh
    &&& a.rcv_wnd == b.rcv_wnd
    &&& a.rcv_buf == b.rcv_buf
    &&& a.snd_wnd == b.snd_wnd
    &&& a.process_start_key == b.process_start_key
}

/// Whether the address bytes cover the half of the declared length that is
/// read when the length is above 15.
pub open spec fn address_fits(address: Option<Vec<u8>>, address_length: Option<u32>) -> bool {
    let len = match address_length {
        Some(l) => l as nat,
        None => 0,
    };
    let n = match address {
        Some(b) => b@.len(),
        None => 0,
    };
    len > 15 ==> len / 2 <= n
}

/// The bytes of an optional address.
pub open spec fn address_view(address: Option<Vec<u8>>) -> Option<Seq<u8>> {
    match address {
        Some(b) => Some(b@),
        None => None,
    }
}

/// Completes a decoded Microsoft-Windows-TCPIP event: `None` for an event id
/// the observer does not track; otherwise the event with its description and
/// the IPv4 texts of its local and remote addresses.
pub fn parse_etw_tcp_event(raw: GeneralNetEvent) -> (r: Option<GeneralNetEvent>)
    requires
        tcp_event_desc_spec(raw.event_id) != "Other"@ ==> address_fits(
            raw.local_address,
            raw.local_address_length,
        ),
        tcp_event_desc_spec(raw.event_id) != "Other"@ ==> address_fits(
            raw.remote_address,
            raw.remote_address_length,
        ),
    ensures
        r is None <==> tcp_event_desc_spec(raw.event_id) == "Other"@,
        r is Some ==> {
            let e = r->Some_0;
            &&& same_tcp_properties(e, raw)
            &&& e.event_description@ == tcp_event_desc_spec(raw.event_id)
            &&& e.local_address_ipv4@ == address_ipv4_spec(
                address_view(raw.local_address),
                raw.local_address_length,
            )
            &&& e.remote_address_ipv4@ == address_ipv4_spec(
                address_view(raw.remote_address),
                raw.remote_address_length,
            )
        },
{
    if !crate::etwdesc::tcp_event_tracked(raw.event_id) {
        return None;
    }
    let mut e = raw;
    e.event_description = tcp_event_desc(e.event_id).to_string();
    e.local_address_ipv4 = address_to_ipv4(&e.local_address, e.local_address_length);
    e.remote_address_ipv4 = address_to_ipv4(&e.remote_address, e.remote_address_length);
    Some(e)
}

/// Whether two DNS-Client events agree on every field but the description.
pub open spec fn same_dns_properties(a: GenericDnsEvent, b: GenericDnsEvent) -> bool {
    &&& a.ts_str == b.ts_str
    &&& a.event_id == b.event_id
    &&& a.provider_name == b.provider_name
    &&& a.location == b.location
    &&& a.context == b.context
    &&& a.interface == b.interface
    &&& a.total_server_count == b.total_server_count
    &&& a.index == b.index
    &&& a.dynamic_address == b.dynamic_address
    &&& a.address_length == b.address_length
    &&& a.address == b.address
    &&& a.error_code == b.error_code
    &&& a.dns_suffix == b.dns_suffix
    &&& a.ad_suffix == b.ad_suffix
    &&& a.query_name == b.query_name
    &&& a.dns_address_length == b.dns_address_length
    &&& a.dns_address == b.dns_address
    &&& a.key_name == b.key_name
    &&& a.dns_sec_validation_required == b.dns_sec_validation_required
    &&& a.dns_query_over_ip_sec == b.dns_query_over_ip_sec
    &&& a.dns_encryption == b.dns_encryption
    &&& a.direct_access_server_list == b.direct_access_server_list
    &&& a.remote_ipsec == b.remote_ipsec
    &&& a.remote_encryption == b.remote_encryption
    &&& a.proxy_type == b.proxy_type
    &&& a.proxy_name == b.proxy_name
    &&& a.rule_name == b.rule_name
    &&& a.response_question == b.response_question
    &&& a.generic_server_list == b.generic_server_list
    &&& a.idn_config == b.idn_config
    &&& a.query_type == b.query_type
    &&& a.query_options == b.query_options
    &&& a.status == b.status
    &&& a.server_list == b.server_list
    &&& a.is_network_query == b.is_network_query
    &&& a.network_query_index == b.network_query_index
    &&& a.interface_index == b.interface_index
    &&& a.is_async_query == b.is_async_query
    &&& a.query_status == b.query_status
    &&& a.query_results == b.query_results
    &&& a.is_parallel_network_query == b.is_parallel_network_query
    &&& a.network_index == b.network_index
    &&& a.interface_count == b.interface_count
    &&& a.adapter_name == b.adapter_name
    &&& a.local_address == b.local_address
    &&& a.dns_server_address == b.dns_server_address
    &&& a.dns_server_ip_address == b.dns_server_ip_address
    &&& a.response_status == b.response_status
    &&& a.host_name == b.host_name
    &&& a.adapter_suffix_name == b.adapter_suffix_name
    &&& a.dns_server_list == b.dns_server_list
    &&& a.sent_update_server == b.sent_update_server
    &&& a.ipaddress == b.ipaddress
    &&& a.warning_code == b.warning_code
    &&& a.next_state == b.next_state
    &&& a.update_reason_code == b.update_reason_code
    &&& a.source_address == b.source_address
    &&& a.source_port == b.source_port
    &&& a.destination_address == b.destination_address
    &&& a.destination_port == b.destination_port
    &&& a.protocol == b.protocol
    &&& a.reference_context == b.reference_context
    &&& a.if_guid == b.if_guid
    &&& a.if_index == b.if_index
    &&& a.if_luid == b.if_luid
}

/// Whether two Kernel-Registry events agree on every field but the description.
pub open spec fn same_reg_properties(a: GenericRegEvent, b: GenericRegEvent) -> bool {
    &&& a.ts_str == b.ts_str
    &&& a.event_id == b.event_id
    &&& a.provider_name == b.provider_name
    &&& a.base_object == b.base_object
    &&& a.key_object == b.key_object
    &&& a.status == b.status
    &&& a.disposition == b.disposition
    &&& a.base_name == b.base_name
    &&& a.relative_name == b.relative_name
    &&& a.key_name == b.key_name
    &&& a.info_class == b.info_class
    &&& a.data_size == b.data_size
    &&& a.captured_data_size == b.captured_data_size
    &&& a.captured_data == b.captured_data
    &&& a.etype == b.etype
    &&& a.value_name == b.value_name
    &&& a.previous_data_type == b.previous_data_type
    &&& a.previous_data_size == b.previous_data_size
    &&& a.previous_data_captured_size == b.previous_data_captured_size
    &&& a.previous_data == b.previous_data
    &&& a.index == b.index
    &&& a.entry_count == b.entry_count
    &&& a.hive_file_path == b.hive_file_path
    &&& a.file_size == b.file_size
    &&& a.total_entry_size == b.total_entry_size
    &&& a.bytes_recovered == b.bytes_recovered
    &&& a.status_code == b.status_code
    &&& a.hive_mount_point == b.hive_mount_point
    &&& a.flush_flags == b.flush_flags
    &&& a.bytes_gathered == b.bytes_gathered
    &&& a.writes_issued == b.writes_issued
    &&& a.bytes_written == b.bytes_written
    &&& a.source_file == b.source_file
    &&& a.flags == b.flags
    &&& a.source_key_path == b.source_key_path
}

/// Completes a decoded DNS-Client event with its description (`not_tracked`
/// for an id the observer does not name); every event is kept.
pub fn parse_dns_event(raw: GenericDnsEvent) -> (e: GenericDnsEvent)
    ensures
        same_dns_properties(e, raw),
        e.event_desc@ == dns_event_desc_spec(raw.event_id),
{
    let mut e = raw;
    e.event_desc = dns_event_desc(e.event_id).to_string();
    e
}

/// Completes a decoded Kernel-Registry event with its description
/// (`not_tracked` for an id the observer does not name).
pub fn parse_etw_reg_event(raw: GenericRegEvent) -> (e: GenericRegEvent)
    ensures
        same_reg_properties(e, raw),
        e.event_desc@ == reg_event_desc_spec(raw.event_id),
{
    let mut e = raw;
    e.event_desc = reg_event_desc(e.event_id).to_string();
    e
}

/// The table the general event cache keeps its records in.
pub const CACHE_SCHEMA: &'static str = "\nCREATE TABLE IF NOT EXISTS events (  \n  ts TIMESTAMP, \n  src TEXT, \n  host TEXT,\n  context1 TEXT, \n  context1_attrib TEXT,\n  context2 TEXT, \n  context2_attrib TEXT,\n  context3 TEXT, \n  context3_attrib TEXT,\n  rawevent TEXT\n);\n";

/// The text the cache stores a record's time as: chrono's rendering of it
/// with `%Y-%m-%d %H:%M:%S`.
pub open spec fn cache_ts_text(ts: Timestamp) -> Option<Seq<char>> {
    ts_format_text(ts, "%Y-%m-%d %H:%M:%S"@)
}

/// The time text a record is stored with: `yyyy-mm-dd HH:MM:SS` for an
/// ordinary date.
pub fn event_ts_text(er: &GenericEventRecord) -> (r: Option<String>)
    ensures
        match r {
            Some(s) => cache_ts_text(er.ts) == Some(s@),
            None => cache_ts_text(er.ts) is None,
        },
        plain_writable(er.ts) ==> r is Some && r->0@ == plain_datetime_text(er.ts),
{
    format_timestamp(er.ts, "%Y-%m-%d %H:%M:%S")
}

} // verus!
