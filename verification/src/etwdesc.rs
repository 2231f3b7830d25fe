use vstd::prelude::*;

use crate::text::{decimal, digit_char};

verus! {

/// Name of a Microsoft-Windows-TCPIP event id tracked by the TCP observer
/// ("Other" for the rest).
pub open spec fn tcp_event_desc_spec(event_id: u16) -> Seq<char> {
    if event_id == 1002 {
        "TcpRequestConnect"@
    } else if event_id == 1017 {
        "TcpAcceptListenerComplete"@
    } else if event_id == 1033 {
        "TcpConnectTcbComplete"@
    } else if event_id == 1477 {
        "TcpConnectionSummary1477"@
    } else {
        "Other"@
    }
}

/// The TCP observer's event-id table.
pub fn tcp_event_desc(event_id: u16) -> (d: &'static str)
    ensures
        d@ == tcp_event_desc_spec(event_id),
{
    match event_id {
        1002 => "TcpRequestConnect",
        1017 => "TcpAcceptListenerComplete",
        1033 => "TcpConnectTcbComplete",
        1477 => "TcpConnectionSummary1477",
        _ => "Other",
    }
}

/// Whether the TCP observer records an event: every id but the "Other" ones.
pub fn tcp_event_tracked(event_id: u16) -> (b: bool)
    ensures
        b == (event_id == 1002 || event_id == 1017 || event_id == 1033 || event_id == 1477),
        b <==> tcp_event_desc_spec(event_id) != "Other"@,
{
    proof {
        reveal_strlit("Other");
        reveal_strlit("TcpRequestConnect");
        reveal_strlit("TcpAcceptListenerComplete");
        reveal_strlit("TcpConnectTcbComplete");
        reveal_strlit("TcpConnectionSummary1477");
        assert("Other"@.len() == 5);
        assert("TcpRequestConnect"@.len() == 17);
        assert("TcpAcceptListenerComplete"@.len() == 25);
        assert("TcpConnectTcbComplete"@.len() == 21);
        assert("TcpConnectionSummary1477"@.len() == 24);
    }
    event_id == 1002 || event_id == 1017 || event_id == 1033 || event_id == 1477
}

/// Name of a Microsoft-Windows-DNS-Client event id.
pub open spec fn dns_event_desc_spec(event_id: u16) -> Seq<char> {
    if event_id == 1001 {
        "DnsServerForInterface"@
    } else if event_id == 3006 {
        "task_03006"@
    } else if event_id == 3008 {
        "task_03008"@
    } else if event_id == 3009 {
        "task_03009"@
    } else if event_id == 3016 {
        "task_03016"@
    } else if event_id == 3018 {
        "task_03018"@
    } else if event_id == 3019 {
        "task_03019"@
    } else if event_id == 3010 {
        "task_03010"@
    } else if event_id == 3011 {
        "task_03011"@
    } else if event_id == 3020 {
        "task_03020"@
    } else if event_id == 3013 {
        "task_03013"@
    } else {
        "not_tracked"@
    }
}

/// The DNS observer's event-id table.
pub fn dns_event_desc(event_id: u16) -> (d: &'static str)
    ensures
        d@ == dns_event_desc_spec(event_id),
{
    match event_id {
        1001 => "DnsServerForInterface",
        3006 => "task_03006",
        3008 => "task_03008",
        3009 => "task_03009",
        3016 => "task_03016",
        3018 => "task_03018",
        3019 => "task_03019",
        3010 => "task_03010",
        3011 => "task_03011",
        3020 => "task_03020",
        3013 => "task_03013",
        _ => "not_tracked",
    }
}

/// Name of a Microsoft-Windows-Kernel-Registry event id.
pub open spec fn reg_event_desc_spec(event_id: u16) -> Seq<char> {
    if event_id == 1 {
        "task_0CreateKey"@
    } else if event_id == 2 {
        "task_0OpenKey"@
    } else if event_id == 3 {
        "task_0DeleteKey"@
    } else if event_id == 4 {
        "task_0QueryKey"@
    } else if event_id == 5 {
        "task_0SetValueKey"@
    } else if event_id == 6 {
        "task_0DeleteValueKey"@
    } else if event_id == 7 {
        "task_0QueryValueKey"@
    } else {
        "not_tracked"@
    }
}

/// The registry observer's event-id table.
pub fn reg_event_desc(event_id: u16) -> (d: &'static str)
    ensures
        d@ == reg_event_desc_spec(event_id),
{
    match event_id {
        1 => "task_0CreateKey",
        2 => "task_0OpenKey",
        3 => "task_0DeleteKey",
        4 => "task_0QueryKey",
        5 => "task_0SetValueKey",
        6 => "task_0DeleteValueKey",
        7 => "task_0QueryValueKey",
        _ => "not_tracked",
    }
}

/// The security-auditing observer's event-id table.
pub fn secaudit_event_desc(event_id: u16) -> (d: &'static str)
    ensures
        d@ == (if event_id == 4688 { "task_04688"@ } else { "not_tracked"@ }),
{
    match event_id {
        4688 => "task_04688",
        _ => "not_tracked",
    }
}

/// Name of a Microsoft-Windows-Kernel-Process event id.
pub open spec fn kernproc_event_desc_spec(event_id: u16) -> Seq<char> {
    if event_id == 5 {
        "ImageLoad"@
    } else if event_id == 6 {
        "ImageUnload"@
    } else if event_id == 15 {
        "ProcessRundown"@
    } else {
        "Other"@
    }
}

/// The kernel-process observer's event-id table.
pub fn kernproc_event_desc(event_id: u16) -> (d: &'static str)
    ensures
        d@ == kernproc_event_desc_spec(event_id),
{
    match event_id {
        5 => "ImageLoad",
        6 => "ImageUnload",
        15 => "ProcessRundown",
        _ => "Other",
    }
}

/// Name of a Microsoft-Windows-DotNETRuntimeRundown event id.
pub open spec fn dotnet_rundown_event_desc_spec(event_id: u16) -> Seq<char> {
    if event_id == 151 {
        "LoaderDomainModuleDCStart"@
    } else if event_id == 157 {
        "LoaderAppDomainDCStart"@
    } else if event_id == 158 {
        "LoaderAppDomainDCStop"@
    } else if event_id == 159 {
        "LoaderThreadDCStop"@
    } else if event_id == 187 {
        "RuntimeStart"@
    } else {
        "Other"@
    }
}

/// The .NET rundown observer's event-id table.
pub fn dotnet_rundown_event_desc(event_id: u16) -> (d: &'static str)
    ensures
        d@ == dotnet_rundown_event_desc_spec(event_id),
{
    match event_id {
        151 => "LoaderDomainModuleDCStart",
        157 => "LoaderAppDomainDCStart",
        158 => "LoaderAppDomainDCStop",
        159 => "LoaderThreadDCStop",
        187 => "RuntimeStart",
        _ => "Other",
    }
}

/// Name of a Microsoft-Windows-DotNETRuntime event id.
pub open spec fn dotnet_event_desc_spec(event_id: u16) -> Seq<char> {
    if event_id == 156 {
        "LoaderAppDomainLoad"@
    } else if event_id == 83 {
        "AppDomainResourceManagementMemAllocated"@
    } else if event_id == 85 {
        "AppDomainResourceManagementThreadCreated"@
    } else if event_id == 87 {
        "AppDomainResourceManagementDomainEnter"@
    } else if event_id == 151 {
        "LoaderDomainModuleLoad"@
    } else if event_id == 154 {
        "LoaderAssemblyLoad"@
    } else {
        "Other"@
    }
}

/// The .NET runtime observer's event-id table.
pub fn dotnet_event_desc(event_id: u16) -> (d: &'static str)
    ensures
        d@ == dotnet_event_desc_spec(event_id),
{
    match event_id {
        156 => "LoaderAppDomainLoad",
        83 => "AppDomainResourceManagementMemAllocated",
        85 => "AppDomainResourceManagementThreadCreated",
        87 => "AppDomainResourceManagementDomainEnter",
        151 => "LoaderDomainModuleLoad",
        154 => "LoaderAssemblyLoad",
        _ => "Other",
    }
}

/// Name of a Microsoft-Windows-TCPIP event id in the TCP/IP test tracer's
/// table (the first entry wins where the table lists an id twice).
pub open spec fn tcpip_event_desc_spec(event_id: u16) -> Seq<char> {
    match event_id {
        0 => "TcpIp/invalid"@,
        1214 => "TcpIp/packet_drop"@,
        1193 => "TcpIp/port_release"@,
        1038 => "TcpIp/connection_close_issued"@,
        1040 => "TcpIp/connection_abort_complete"@,
        1044 => "TcpIp/connection_abort"@,
        1039 => "TcpIp/connection_abort_issued"@,
        1479 => "TcpIp/connection_sent_RST"@,
        1324 => "TcpIp/neighbor_state_change"@,
        1033 => "TcpIp/connect_complete"@,
        1002 => "TcpIp/connect_request"@,
        1013 => "TcpIp/connect_proceeding"@,
        1001 => "TcpIp/endpoint_created"@,
        1003 => "TcpIp/inspect_connect_complete"@,
        1004 => "TcpIp/Tcb_is_going_to_output_SYN"@,
        1008 => "TcpIp/endpoint_bound"@,
        1009 => "TcpIp/endpoint_closed"@,
        1031 => "TcpIp/connection_connect_proceeding"@,
        1034 => "TcpIp/connection_attempt_failed"@,
        1042 => "TcpIp/connection_disconnect_issued"@,
        1043 => "TcpIp/connection_disconnect_completed"@,
        1051 => "TcpIp/connection_transition"@,
        1074 => "TcpIp/connection_received_data"@,
        1104 => "TcpIp/option_set_for_connection"@,
        1105 => "TcpIp/socket_set_for_connection"@,
        1156 => "TcpIp/connection_posted"@,
        1157 => "TcpIp/connection_indicated_bytes_accepted"@,
        1158 => "TcpIp/connection_delivery_satisfied"@,
        1159 => "TcpIp/connection_send_posted_bytes"@,
        1167 => "TcpIp/connection_measurement_complete"@,
        1169 => "Udp/sending_message"@,
        1170 => "UDP/delivering_bytes"@,
        1176 => "TcpIp/connection_delivering_FIN"@,
        1183 => "TcpIp/connection_connect_failed"@,
        1186 => "TcpIp/retransmitting_connection_attempt"@,
        1188 => "TcpIp/connection_send_keep_alive"@,
        1191 => "TcpIp/endpoint_or_connection_acquired_port_number"@,
        1192 => "TcpIp/connection_attempted_to_acquire_weak_reference_on_port"@,
        1196 => "TcpIp/connection_BH_receive_ACK"@,
        1202 => "TcpIp/interface_rundown"@,
        1203 => "TcpIp/interface_linkspeed_change"@,
        1215 => "TcpIp/network_layer_dropped_packet"@,
        1223 => "TcpIp/connection_committed"@,
        1229 => "TcpIp/send_queue_idle"@,
        1300 => "TcpIp/connection_exists"@,
        1330 => "TcpIp/connection_cumulative_ack_event"@,
        1332 => "TcpIp/connection_send-event"@,
        1351 => "TcpIp/connection_send_retransmit_round_with_snduna"@,
        1377 => "WFP-ALE/leaving_low_memory_state"@,
        1391 => "Udp/endpoint_created"@,
        1396 => "TcpIp/endpoint_bound_pid"@,
        1397 => "Udp/endpoint_closed"@,
        1398 => "Udp/endpoint_closed"@,
        1429 => "TcpIp/connection_cumulative_ack_event"@,
        1452 => "TcpIp/route_rundown"@,
        1454 => "INETINSPECT"@,
        1455 => "INETINSPECT"@,
        1466 => "WFP-ALE/remoteendpoint_insertion"@,
        1467 => "WFP-ALE/remote_endpoint_deletion"@,
        1475 => "TcpIp/CUBIC_hystart_state_change_event"@,
        1486 => "TcpIp/status_indication_received"@,
        1516 => "TcpIp/software_rsc"@,
        _ => "Unknown"@,
    }
}

/// The TCP/IP test tracer's event-id table.
pub fn tcpip_event_desc(event_id: u16) -> (d: &'static str)
    ensures
        d@ == tcpip_event_desc_spec(event_id),
{
    match event_id {
        0 => "TcpIp/invalid",
        1214 => "TcpIp/packet_drop",
        1193 => "TcpIp/port_release",
        1038 => "TcpIp/connection_close_issued",
        1040 => "TcpIp/connection_abort_complete",
        1044 => "TcpIp/connection_abort",
        1039 => "TcpIp/connection_abort_issued",
        1479 => "TcpIp/connection_sent_RST",
        1324 => "TcpIp/neighbor_state_change",
        1033 => "TcpIp/connect_complete",
        1002 => "TcpIp/connect_request",
        1013 => "TcpIp/connect_proceeding",
        1001 => "TcpIp/endpoint_created",
        1003 => "TcpIp/inspect_connect_complete",
        1004 => "TcpIp/Tcb_is_going_to_output_SYN",
        1008 => "TcpIp/endpoint_bound",
        1009 => "TcpIp/endpoint_closed",
        1031 => "TcpIp/connection_connect_proceeding",
        1034 => "TcpIp/connection_attempt_failed",
        1042 => "TcpIp/connection_disconnect_issued",
        1043 => "TcpIp/connection_disconnect_completed",
        1051 => "TcpIp/connection_transition",
        1074 => "TcpIp/connection_received_data",
        1104 => "TcpIp/option_set_for_connection",
        1105 => "TcpIp/socket_set_for_connection",
        1156 => "TcpIp/connection_posted",
        1157 => "TcpIp/connection_indicated_bytes_accepted",
        1158 => "TcpIp/connection_delivery_satisfied",
        1159 => "TcpIp/connection_send_posted_bytes",
        1167 => "TcpIp/connection_measurement_complete",
        1169 => "Udp/sending_message",
        1170 => "UDP/delivering_bytes",
        1176 => "TcpIp/connection_delivering_FIN",
        1183 => "TcpIp/connection_connect_failed",
        1186 => "TcpIp/retransmitting_connection_attempt",
        1188 => "TcpIp/connection_send_keep_alive",
        1191 => "TcpIp/endpoint_or_connection_acquired_port_number",
        1192 => "TcpIp/connection_attempted_to_acquire_weak_reference_on_port",
        1196 => "TcpIp/connection_BH_receive_ACK",
        1202 => "TcpIp/interface_rundown",
        1203 => "TcpIp/interface_linkspeed_change",
        1215 => "TcpIp/network_layer_dropped_packet",
        1223 => "TcpIp/connection_committed",
        1229 => "TcpIp/send_queue_idle",
        1300 => "TcpIp/connection_exists",
        1330 => "TcpIp/connection_cumulative_ack_event",
        1332 => "TcpIp/connection_send-event",
        1351 => "TcpIp/connection_send_retransmit_round_with_snduna",
        1377 => "WFP-ALE/leaving_low_memory_state",
        1391 => "Udp/endpoint_created",
        1396 => "TcpIp/endpoint_bound_pid",
        1397 => "Udp/endpoint_closed",
        1398 => "Udp/endpoint_closed",
        1429 => "TcpIp/connection_cumulative_ack_event",
        1452 => "TcpIp/route_rundown",
        1454 => "INETINSPECT",
        1455 => "INETINSPECT",
        1466 => "WFP-ALE/remoteendpoint_insertion",
        1467 => "WFP-ALE/remote_endpoint_deletion",
        1475 => "TcpIp/CUBIC_hystart_state_change_event",
        1486 => "TcpIp/status_indication_received",
        1516 => "TcpIp/software_rsc",
        _ => "Unknown",
    }
}

/// Name of a Microsoft-Windows-Kernel-File event id the file observer
/// prints (none for the others).
pub open spec fn kernfile_event_desc_spec(event_id: u16) -> Option<Seq<char>> {
    if event_id == 26 {
        Some("DeletePath"@)
    } else if event_id == 28 {
        Some("SetLinkPath"@)
    } else if event_id == 30 {
        Some("CreateNewFile"@)
    } else {
        None
    }
}

/// The file observer's event-id table.
pub fn kernfile_event_desc(event_id: u16) -> (d: Option<&'static str>)
    ensures
        match d {
            Some(s) => kernfile_event_desc_spec(event_id) == Some(s@),
            None => kernfile_event_desc_spec(event_id) is None,
        },
{
    match event_id {
        26 => Some("DeletePath"),
        28 => Some("SetLinkPath"),
        30 => Some("CreateNewFile"),
        _ => None,
    }
}


/// The DNS-Client observer names exactly the ids of its filter list (1001,
/// 3006, 3008, 3009, 3016, 3018, 3019, 3010, 3011, 3020, 3013), each by its
/// own name: 1001 is `DnsServerForInterface`, and each 3000-range id `n` is
/// the task `task_0n`; every other id is `not_tracked`.
pub proof fn lemma_dns_event_labels(id: u16)
    ensures
        dns_event_desc_spec(id) != "not_tracked"@ <==> (id == 1001 || id == 3006 || id == 3008
            || id == 3009 || id == 3016 || id == 3018 || id == 3019 || id == 3010 || id == 3011
            || id == 3020 || id == 3013),
        id == 1001 ==> dns_event_desc_spec(id) == "DnsServerForInterface"@,
        dns_event_desc_spec(id) != "not_tracked"@ && id != 1001 ==> dns_event_desc_spec(id) == "task_0"@
            + decimal(id as nat),
{
    reveal_strlit("not_tracked");
    reveal_strlit("DnsServerForInterface");
    reveal_strlit("task_0");
    reveal_strlit("task_03006");
    reveal_strlit("task_03008");
    reveal_strlit("task_03009");
    reveal_strlit("task_03016");
    reveal_strlit("task_03018");
    reveal_strlit("task_03019");
    reveal_strlit("task_03010");
    reveal_strlit("task_03011");
    reveal_strlit("task_03020");
    reveal_strlit("task_03013");
    assert("not_tracked"@.len() == 11);
    assert("DnsServerForInterface"@.len() == 21);
    assert("task_03006"@.len() == 10);
    assert("task_03008"@.len() == 10);
    assert("task_03009"@.len() == 10);
    assert("task_03016"@.len() == 10);
    assert("task_03018"@.len() == 10);
    assert("task_03019"@.len() == 10);
    assert("task_03010"@.len() == 10);
    assert("task_03011"@.len() == 10);
    assert("task_03020"@.len() == 10);
    assert("task_03013"@.len() == 10);
    if 3000 <= id < 4000 {
        let n = id as nat;
        reveal_with_fuel(decimal, 5);
        assert(decimal(n) =~= seq![
            digit_char(n / 1000),
            digit_char((n / 100) % 10),
            digit_char((n / 10) % 10),
            digit_char(n % 10),
        ]);
        assert("task_0"@ + decimal(n) =~= dns_event_desc_spec(id)
            || dns_event_desc_spec(id) == "not_tracked"@);
    }
}

/// The .NET runtime observer names exactly the ids it subscribes to, each by
/// its own event name: 156 `LoaderAppDomainLoad`, 83
/// `AppDomainResourceManagementMemAllocated`, 85
/// `AppDomainResourceManagementThreadCreated`, 87
/// `AppDomainResourceManagementDomainEnter`, 151 `LoaderDomainModuleLoad`,
/// 154 `LoaderAssemblyLoad`; every other id is `Other`, and no two
/// subscribed ids share a name.
pub proof fn lemma_dotnet_event_labels(id: u16, other: u16)
    ensures
        dotnet_event_desc_spec(id) != "Other"@ <==> (id == 156 || id == 83 || id == 85 || id == 87
            || id == 151 || id == 154),
        id == 156 ==> dotnet_event_desc_spec(id) == "LoaderAppDomainLoad"@,
        id == 83 ==> dotnet_event_desc_spec(id) == "AppDomainResourceManagementMemAllocated"@,
        id == 85 ==> dotnet_event_desc_spec(id) == "AppDomainResourceManagementThreadCreated"@,
        id == 87 ==> dotnet_event_desc_spec(id) == "AppDomainResourceManagementDomainEnter"@,
        id == 151 ==> dotnet_event_desc_spec(id) == "LoaderDomainModuleLoad"@,
        id == 154 ==> dotnet_event_desc_spec(id) == "LoaderAssemblyLoad"@,
        dotnet_event_desc_spec(id) != "Other"@ && id != other ==> dotnet_event_desc_spec(id)
            != dotnet_event_desc_spec(other),
{
    reveal_strlit("Other");
    reveal_strlit("LoaderAppDomainLoad");
    reveal_strlit("AppDomainResourceManagementMemAllocated");
    reveal_strlit("AppDomainResourceManagementThreadCreated");
    reveal_strlit("AppDomainResourceManagementDomainEnter");
    reveal_strlit("LoaderDomainModuleLoad");
    reveal_strlit("LoaderAssemblyLoad");
    assert("Other"@.len() == 5);
    assert("LoaderAppDomainLoad"@.len() == 19);
    assert("AppDomainResourceManagementMemAllocated"@.len() == 39);
    assert("AppDomainResourceManagementThreadCreated"@.len() == 40);
    assert("AppDomainResourceManagementDomainEnter"@.len() == 38);
    assert("LoaderDomainModuleLoad"@.len() == 22);
    assert("LoaderAssemblyLoad"@.len() == 18);
}

/// The other observers' tables name exactly the ids they track, each by its
/// own name, and give every other id their "untracked" label: TCP 1002
/// `TcpRequestConnect`, 1017 `TcpAcceptListenerComplete`, 1033
/// `TcpConnectTcbComplete`, 1477 `TcpConnectionSummary1477`; registry 1 to 7
/// the key operations `task_0CreateKey` ... `task_0QueryValueKey`; kernel
/// process 5 `ImageLoad`, 6 `ImageUnload`, 15 `ProcessRundown`; .NET rundown
/// 151 `LoaderDomainModuleDCStart`, 157 `LoaderAppDomainDCStart`, 158
/// `LoaderAppDomainDCStop`, 159 `LoaderThreadDCStop`, 187 `RuntimeStart`;
/// kernel file 26 `DeletePath`, 28 `SetLinkPath`, 30 `CreateNewFile`.
pub proof fn lemma_event_tables(id: u16)
    ensures
        tcp_event_desc_spec(id) != "Other"@ <==> (id == 1002 || id == 1017 || id == 1033 || id
            == 1477),
        id == 1002 ==> tcp_event_desc_spec(id) == "TcpRequestConnect"@,
        id == 1017 ==> tcp_event_desc_spec(id) == "TcpAcceptListenerComplete"@,
        id == 1033 ==> tcp_event_desc_spec(id) == "TcpConnectTcbComplete"@,
        id == 1477 ==> tcp_event_desc_spec(id) == "TcpConnectionSummary1477"@,
        reg_event_desc_spec(id) != "not_tracked"@ <==> 1 <= id <= 7,
        id == 1 ==> reg_event_desc_spec(id) == "task_0CreateKey"@,
        id == 2 ==> reg_event_desc_spec(id) == "task_0OpenKey"@,
        id == 3 ==> reg_event_desc_spec(id) == "task_0DeleteKey"@,
        id == 4 ==> reg_event_desc_spec(id) == "task_0QueryKey"@,
        id == 5 ==> reg_event_desc_spec(id) == "task_0SetValueKey"@,
        id == 6 ==> reg_event_desc_spec(id) == "task_0DeleteValueKey"@,
        id == 7 ==> reg_event_desc_spec(id) == "task_0QueryValueKey"@,
        kernproc_event_desc_spec(id) != "Other"@ <==> (id == 5 || id == 6 || id == 15),
        id == 5 ==> kernproc_event_desc_spec(id) == "ImageLoad"@,
        id == 6 ==> kernproc_event_desc_spec(id) == "ImageUnload"@,
        id == 15 ==> kernproc_event_desc_spec(id) == "ProcessRundown"@,
        dotnet_rundown_event_desc_spec(id) != "Other"@ <==> (id == 151 || id == 157 || id == 158
            || id == 159 || id == 187),
        id == 151 ==> dotnet_rundown_event_desc_spec(id) == "LoaderDomainModuleDCStart"@,
        id == 157 ==> dotnet_rundown_event_desc_spec(id) == "LoaderAppDomainDCStart"@,
        id == 158 ==> dotnet_rundown_event_desc_spec(id) == "LoaderAppDomainDCStop"@,
        id == 159 ==> dotnet_rundown_event_desc_spec(id) == "LoaderThreadDCStop"@,
        id == 187 ==> dotnet_rundown_event_desc_spec(id) == "RuntimeStart"@,
        kernfile_event_desc_spec(id) is Some <==> (id == 26 || id == 28 || id == 30),
        id == 26 ==> kernfile_event_desc_spec(id) == Some("DeletePath"@),
        id == 28 ==> kernfile_event_desc_spec(id) == Some("SetLinkPath"@),
        id == 30 ==> kernfile_event_desc_spec(id) == Some("CreateNewFile"@),
{
    reveal_strlit("Other");
    reveal_strlit("not_tracked");
    reveal_strlit("TcpRequestConnect");
    reveal_strlit("TcpAcceptListenerComplete");
    reveal_strlit("TcpConnectTcbComplete");
    reveal_strlit("TcpConnectionSummary1477");
    reveal_strlit("task_0CreateKey");
    reveal_strlit("task_0OpenKey");
    reveal_strlit("task_0DeleteKey");
    reveal_strlit("task_0QueryKey");
    reveal_strlit("task_0SetValueKey");
    reveal_strlit("task_0DeleteValueKey");
    reveal_strlit("task_0QueryValueKey");
    reveal_strlit("ImageLoad");
    reveal_strlit("ImageUnload");
    reveal_strlit("ProcessRundown");
    reveal_strlit("LoaderDomainModuleDCStart");
    reveal_strlit("LoaderAppDomainDCStart");
    reveal_strlit("LoaderAppDomainDCStop");
    reveal_strlit("LoaderThreadDCStop");
    reveal_strlit("RuntimeStart");
    assert("Other"@.len() == 5);
    assert("not_tracked"@.len() == 11);
    assert("TcpRequestConnect"@.len() == 17);
    assert("TcpAcceptListenerComplete"@.len() == 25);
    assert("TcpConnectTcbComplete"@.len() == 21);
    assert("TcpConnectionSummary1477"@.len() == 24);
    assert("task_0CreateKey"@.len() == 15);
    assert("task_0OpenKey"@.len() == 13);
    assert("task_0DeleteKey"@.len() == 15);
    assert("task_0QueryKey"@.len() == 14);
    assert("task_0SetValueKey"@.len() == 17);
    assert("task_0DeleteValueKey"@.len() == 20);
    assert("task_0QueryValueKey"@.len() == 19);
    assert("ImageLoad"@.len() == 9);
    assert("ImageUnload"@.len() == 11);
    assert("ProcessRundown"@.len() == 14);
    assert("LoaderDomainModuleDCStart"@.len() == 25);
    assert("LoaderAppDomainDCStart"@.len() == 22);
    assert("LoaderAppDomainDCStop"@.len() == 21);
    assert("LoaderThreadDCStop"@.len() == 18);
    assert("RuntimeStart"@.len() == 12);
}

} // verus!
