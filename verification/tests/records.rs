use telemetry_kit::eventrec::{
    dnsevent_to_er, fileevent_to_er, netconn_to_er, netevent_to_er, parse_dns_event,
    parse_etw_reg_event, parse_etw_tcp_event, pi_to_er, regevent_to_er, service_to_er,
    event_ts_text,
};
use telemetry_kit::etw_templates::{GeneralNetEvent, GenericDnsEvent, GenericFileEvent, GenericRegEvent};
use telemetry_kit::procinfo::{
    convert_wmi_datetime_to_datetime, convert_wmi_datetime_to_datetime_utc, default_process,
    get_default_date, get_process_by_id, get_process_list, get_hostname, proc_hm_to_pi,
    process_to_info, start_trace_process_id, DateError, Process, ProcessInfo, WmiValue,
};
use telemetry_kit::snapshot::{get_netconn_list, socket_to_netconn, service_reg_from_values, Netconn, Service, SocketProtocol, SocketRow};
use telemetry_kit::timefmt::Timestamp;

fn net_event(event_id: u16, ts_str: &str) -> GeneralNetEvent {
    GeneralNetEvent {
        ts_str: ts_str.to_string(),
        event_id: event_id,
        event_description: String::new(),
        provider_name: "Microsoft-Windows-TCPIP".to_string(),
        tcb: None,
        local_address_length: None,
        local_address: None,
        remote_address_length: None,
        remote_address: None,
        new_state: None,
        rexmit_count: None,
        status: None,
        process_id: None,
        compartment: None,
        path: None,
        buffer_size: None,
        ndk_qp: None,
        request_context: None,
        sge_address: None,
        sge_length: None,
        sge_memory_region_token: None,
        num_sge: None,
        flags: None,
        sge_index: None,
        remote_token: None,
        state: None,
        pid: None,
        request_type: None,
        tcb_or_endpoint: None,
        interface_index: None,
        address_length: None,
        remote_port: None,
        local_port: None,
        partition_id: None,
        num_entries: None,
        name_res_context: None,
        dns_name: None,
        data_bytes_out: None,
        data_bytes_in: None,
        data_segments_out: None,
        data_segments_in: None,
        segments_out: None,
        segments_in: None,
        non_recov_da: None,
        non_recov_da_episodes: None,
        dup_acks_in: None,
        bytes_retrans: None,
        timeouts: None,
        spurious_rto_detections: None,
        fast_retran: None,
        max_ssthresh: None,
        max_ss_cwnd: None,
        max_ca_cwnd: None,
        snd_lim_trans_rwin: None,
        snd_lim_time_rwin: None,
        snd_lim_bytes_rwin: None,
        snd_lim_trans_cwnd: None,
        snd_lim_time_cwnd: None,
        snd_lim_bytes_cwnd: None,
        snd_lim_trans_snd: None,
        snd_lim_time_r_snd: None,
        snd_lim_bytes_r_snd: None,
        connection_time_ms: None,
        timestamps_enabled: None,
        rtt_us: None,
        min_rtt_us: None,
        max_rtt_us: None,
        syn_retrans: None,
        congestion_algorithm: None,
        cwnd: None,
        ss_thresh: None,
        rcv_wnd: None,
        rcv_buf: None,
        snd_wnd: None,
        process_start_key: None,
        local_address_ipv4: String::new(),
        remote_address_ipv4: String::new(),
    }
}
fn dns_event(event_id: u16, ts_str: &str) -> GenericDnsEvent {
    GenericDnsEvent {
        ts_str: ts_str.to_string(),
        event_id: event_id,
        event_desc: String::new(),
        provider_name: "Microsoft-Windows-DNS-Client".to_string(),
        location: None,
        context: None,
        interface: None,
        total_server_count: None,
        index: None,
        dynamic_address: None,
        address_length: None,
        address: None,
        error_code: None,
        dns_suffix: None,
        ad_suffix: None,
        query_name: None,
        dns_address_length: None,
        dns_address: None,
        key_name: None,
        dns_sec_validation_required: None,
        dns_query_over_ip_sec: None,
        dns_encryption: None,
        direct_access_server_list: None,
        remote_ipsec: None,
        remote_encryption: None,
        proxy_type: None,
        proxy_name: None,
        rule_name: None,
        response_question: None,
        generic_server_list: None,
        idn_config: None,
        query_type: None,
        query_options: None,
        status: None,
        server_list: None,
        is_network_query: None,
        network_query_index: None,
        interface_index: None,
        is_async_query: None,
        query_status: None,
        query_results: None,
        is_parallel_network_query: None,
        network_index: None,
        interface_count: None,
        adapter_name: None,
        local_address: None,
        dns_server_address: None,
        dns_server_ip_address: None,
        response_status: None,
        host_name: None,
        adapter_suffix_name: None,
        dns_server_list: None,
        sent_update_server: None,
        ipaddress: None,
        warning_code: None,
        next_state: None,
        update_reason_code: None,
        source_address: None,
        source_port: None,
        destination_address: None,
        destination_port: None,
        protocol: None,
        reference_context: None,
        if_guid: None,
        if_index: None,
        if_luid: None,
    }
}
fn reg_event(event_id: u16, ts_str: &str) -> GenericRegEvent {
    GenericRegEvent {
        ts_str: ts_str.to_string(),
        event_id: event_id,
        event_desc: String::new(),
        provider_name: "Microsoft-Windows-Kernel-Registry".to_string(),
        base_object: None,
        key_object: None,
        status: None,
        disposition: None,
        base_name: None,
        relative_name: None,
        key_name: None,
        info_class: None,
        data_size: None,
        captured_data_size: None,
        captured_data: None,
        etype: None,
        value_name: None,
        previous_data_type: None,
        previous_data_size: None,
        previous_data_captured_size: None,
        previous_data: None,
        index: None,
        entry_count: None,
        hive_file_path: None,
        file_size: None,
        total_entry_size: None,
        bytes_recovered: None,
        status_code: None,
        hive_mount_point: None,
        flush_flags: None,
        bytes_gathered: None,
        writes_issued: None,
        bytes_written: None,
        source_file: None,
        flags: None,
        source_key_path: None,
    }
}
fn file_event(event_id: u16, ts_str: &str) -> GenericFileEvent {
    GenericFileEvent {
        ts_str: ts_str.to_string(),
        event_id: event_id,
        event_desc: String::new(),
        provider_name: "Microsoft-Windows-Kernel-File".to_string(),
        irp: None,
        thread_id: None,
        file_object: None,
        file_key: None,
        extra_information: None,
        info_class: None,
        file_path: None,
        issuing_thread_id: None,
        create_options: None,
        create_attributes: None,
        share_access: None,
        file_name: None,
    }
}


fn ts(year: i32, month: u32, day: u32, hour: u32, minute: u32, second: u32) -> Timestamp {
    Timestamp { year, month, day, hour, minute, second, nanosecond: 0 }
}

fn epoch() -> Timestamp {
    ts(1970, 1, 1, 0, 0, 0)
}

fn text(k: &str, v: &str) -> (String, WmiValue) {
    (k.to_string(), WmiValue::Text(v.to_string()))
}

fn num(k: &str, v: u32) -> (String, WmiValue) {
    (k.to_string(), WmiValue::UI4(v))
}

fn null(k: &str) -> (String, WmiValue) {
    (k.to_string(), WmiValue::Null)
}

fn sample_process(pid: u32, creation: Option<&str>) -> Process {
    Process {
        process_id: pid,
        name: "svchost.exe".to_string(),
        executable_path: Some("C:\\Windows\\System32\\svchost.exe".to_string()),
        command_line: None,
        creation_date: creation.map(|s| s.to_string()),
        description: Some("Host Process".to_string()),
        handle: Some("812".to_string()),
        handle_count: Some(431),
        parent_process_id: Some(4),
        os_name: None,
        windows_version: Some("10.0.19045".to_string()),
        session_id: Some(0),
    }
}

fn sample_info() -> ProcessInfo {
    ProcessInfo {
        process_id: 812,
        hostname: "labhost2".to_string(),
        name: "svchost.exe".to_string(),
        executable_path: "C:\\Windows\\System32\\svchost.exe".to_string(),
        command_line: "*NA".to_string(),
        parent_process_id: 4,
        creation_date: ts(2024, 1, 2, 3, 4, 5),
        creation_date_utc: ts(2024, 1, 2, 3, 4, 5),
        description: "*NA".to_string(),
        handle: "812".to_string(),
        handle_count: 0,
        os_name: "*NA".to_string(),
        windows_version: "*NA".to_string(),
        session_id: 0,
    }
}

#[test]
fn default_date_is_unix_epoch() {
    assert_eq!(get_default_date(), epoch());
}

#[test]
fn wmi_datetime_reads_first_fourteen_characters() {
    assert_eq!(convert_wmi_datetime_to_datetime("20240102030405.123456+060"), Ok(ts(2024, 1, 2, 3, 4, 5)));
}

#[test]
fn wmi_datetime_short_or_bad_text_gives_epoch() {
    assert_eq!(convert_wmi_datetime_to_datetime("2024"), Ok(epoch()));
    assert_eq!(convert_wmi_datetime_to_datetime("1970-01-01T00:00:00"), Ok(epoch()));
    assert_eq!(convert_wmi_datetime_to_datetime("not-a-wmi-date-at-all"), Ok(epoch()));
    assert_eq!(convert_wmi_datetime_to_datetime_utc("*NA"), Ok(epoch()));
}

#[test]
fn wmi_datetime_utc_converts_parsed_dates() {
    let r = convert_wmi_datetime_to_datetime_utc("20240615120000.000000+000");
    assert!(r.is_ok() || r == Err(DateError::LocalTime));
    if let Ok(u) = r {
        // Whatever the machine's zone, the UTC time is within a day of the
        // local one and keeps its (zero) fraction of a second.
        assert_eq!(u.nanosecond, 0);
        assert_eq!((u.year, u.month), (2024, 6));
        assert!(u.day >= 14 && u.day <= 16);
        let local_secs = 15 * 86400 + 12 * 3600;
        let utc_secs = (u.day as i64) * 86400 + (u.hour as i64) * 3600 + (u.minute as i64) * 60 + u.second as i64;
        assert!((local_secs - utc_secs).abs() < 86400);
    }
}

#[test]
fn win32_process_properties_fill_process_info() {
    let props = vec![
        text("Name", "notepad.exe"),
        null("CommandLine"),
        num("ParentProcessId", 1200),
        num("ProcessId", 4321),
        text("CreationDate", "20240102030405.000000+000"),
        text("Description", "Notepad"),
        null("ExecutablePath"),
        text("Handle", "4321"),
        num("SessionId", 1),
    ];
    let pi = proc_hm_to_pi(&props, "Win32_Process", "labhost2".to_string(), &None).unwrap();
    assert_eq!(pi.name, "notepad.exe");
    assert_eq!(pi.command_line, "None");
    assert_eq!(pi.parent_process_id, 1200);
    assert_eq!(pi.process_id, 4321);
    assert_eq!(pi.creation_date, ts(2024, 1, 2, 3, 4, 5));
    assert_eq!(pi.description, "Notepad");
    assert_eq!(pi.executable_path, "None");
    assert_eq!(pi.handle, "4321");
    assert_eq!(pi.session_id, 1);
    assert_eq!(pi.hostname, "labhost2");
    assert_eq!(pi.os_name, "*NA");
    assert_eq!(pi.windows_version, "*NA");
    assert_eq!(pi.handle_count, 0);
}

#[test]
fn process_start_trace_uses_details() {
    let event = vec![text("ProcessName", "cmd.exe"), num("ParentProcessID", 10), num("ProcessID", 77)];
    assert_eq!(start_trace_process_id(&event), 77);
    let details = vec![
        text("CommandLine", "cmd.exe /c dir"),
        text("CreationDate", "20230405060708.500000-420"),
        null("Description"),
        text("ExecutablePath", "C:\\Windows\\cmd.exe"),
        text("Handle", "77"),
        num("SessionId", 2),
        text("OSName", "Windows 10"),
    ];
    let pi = proc_hm_to_pi(&event, "Win32_ProcessStartTrace", "h".to_string(), &Some(details)).unwrap();
    assert_eq!(pi.name, "cmd.exe");
    assert_eq!(pi.parent_process_id, 10);
    assert_eq!(pi.process_id, 77);
    assert_eq!(pi.command_line, "cmd.exe /c dir");
    assert_eq!(pi.creation_date, ts(2023, 4, 5, 6, 7, 8));
    assert_eq!(pi.description, "*NA");
    assert_eq!(pi.executable_path, "C:\\Windows\\cmd.exe");
    assert_eq!(pi.handle, "77");
    assert_eq!(pi.session_id, 2);
    assert_eq!(pi.os_name, "Windows 10");
}

#[test]
fn process_start_trace_without_details() {
    let event = vec![text("ProcessName", "cmd.exe"), num("ProcessID", 77)];
    let pi = proc_hm_to_pi(&event, "Win32_ProcessStartTrace", "h".to_string(), &None).unwrap();
    assert_eq!(pi.command_line, "N/A");
    assert_eq!(pi.creation_date, epoch());
    assert_eq!(pi.creation_date_utc, epoch());
    assert_eq!(pi.description, "*NA");
    assert_eq!(pi.session_id, 0);
}

#[test]
fn unknown_class_gives_defaults() {
    let event = vec![text("Name", "x")];
    let pi = proc_hm_to_pi(&event, "Win32_Thread", "h".to_string(), &None).unwrap();
    assert_eq!(pi.name, "*NA");
    assert_eq!(pi.process_id, 0);
    assert_eq!(pi.creation_date, epoch());
}

#[test]
fn process_lookup_takes_first_row_or_default() {
    let found = get_process_by_id(Some(vec![sample_process(812, None), sample_process(9, None)]));
    assert_eq!(found.process_id, 812);
    let missing = get_process_by_id(Some(vec![]));
    assert_eq!(missing.process_id, 0);
    assert_eq!(missing.name, "*NA");
    assert_eq!(missing.handle_count, Some(0));
    let failed = get_process_by_id(None);
    assert_eq!(failed.creation_date, Some("*NA".to_string()));
    assert_eq!(default_process().session_id, Some(0));
}

#[test]
fn process_row_to_info_fills_defaults() {
    let pi = process_to_info(sample_process(812, Some("20240102030405.000000+000")), &"labhost2".to_string()).unwrap();
    assert_eq!(pi.command_line, "*NA");
    assert_eq!(pi.os_name, "*NA");
    assert_eq!(pi.handle_count, 431);
    assert_eq!(pi.parent_process_id, 4);
    assert_eq!(pi.creation_date, ts(2024, 1, 2, 3, 4, 5));
    let list = get_process_list(vec![sample_process(1, None), sample_process(2, Some("x"))], "h".to_string()).unwrap();
    assert_eq!(list.len(), 2);
    assert_eq!(list[0].creation_date, epoch());
    assert_eq!(list[1].process_id, 2);
}

#[test]
fn hostname_query_first_row_or_unknown() {
    let rows = Some(vec![vec![text("DNSHostName", "labhost2")]]);
    assert_eq!(get_hostname(&rows), "labhost2");
    assert_eq!(get_hostname(&Some(vec![])), "Unknown");
    assert_eq!(get_hostname(&None), "Unknown");
    assert_eq!(get_hostname(&Some(vec![vec![null("DNSHostName")]])), "Unknown");
}

#[test]
fn process_info_record() {
    let er = pi_to_er(&sample_info(), "PROCLIST", "{}".to_string()).unwrap();
    assert_eq!(er.id, None);
    assert_eq!(er.ts, ts(2024, 1, 2, 3, 4, 5));
    assert_eq!(er.ts_type, "process_creation_date");
    assert_eq!(er.src, "PROCLIST");
    assert_eq!(er.host, "labhost2");
    assert_eq!(er.context1, "svchost.exe");
    assert_eq!(er.context1_attrib, "ProcessName");
    assert_eq!(er.context2, "812");
    assert_eq!(er.context2_attrib, "PID");
    assert_eq!(er.context3, "4");
    assert_eq!(er.context3_attrib, "PPID");
    assert_eq!(er.rawevent, "{}");
    assert_eq!(event_ts_text(&er), Some("2024-01-02 03:04:05".to_string()));
}

#[test]
fn net_event_record() {
    let mut ev = net_event(1002, "2024-03-04T05:06:07Z");
    ev.remote_address_ipv4 = "10.1.2.3".to_string();
    let er = netevent_to_er(ev, "labhost2".to_string(), "raw".to_string()).unwrap();
    assert_eq!(er.ts, ts(2024, 3, 4, 5, 6, 7));
    assert_eq!(er.ts_type, "netevent_timestamp");
    assert_eq!(er.src, "ETW_MSWINTCP");
    assert_eq!(er.host, "labhost2");
    assert_eq!(er.context1, "1002");
    assert_eq!(er.context2, "Microsoft-Windows-TCPIP");
    assert_eq!(er.context3, "10.1.2.3");
    assert_eq!(er.context3_attrib, "remote_address_ipv4");
}

#[test]
fn dns_event_record_without_query_name() {
    let er = dnsevent_to_er(dns_event(3008, "bad time"), "h".to_string(), "r".to_string()).unwrap();
    assert_eq!(er.ts, epoch());
    assert_eq!(er.context3, "*NA");
    assert_eq!(er.context3_attrib, "query_name");
    let mut ev = dns_event(3020, "2024-01-01T00:00:01Z");
    ev.query_name = Some("example.com".to_string());
    let er = dnsevent_to_er(ev, "h".to_string(), "r".to_string()).unwrap();
    assert_eq!(er.context3, "example.com");
    assert_eq!(er.src, "ETW_MSWINDNS");
    assert_eq!(er.ts_type, "dnsevent_timestamp");
}

#[test]
fn registry_and_file_event_records() {
    let mut ev = reg_event(1, "2024-01-01T00:00:01Z");
    ev.relative_name = Some("\\REGISTRY\\MACHINE\\Software".to_string());
    let er = regevent_to_er(ev, "h".to_string(), "r".to_string()).unwrap();
    assert_eq!(er.context3, "\\REGISTRY\\MACHINE\\Software");
    assert_eq!(er.src, "ETW_MSWINREG");
    let er = fileevent_to_er(file_event(30, "2024-01-01T00:00:01Z"), "h".to_string(), "r".to_string()).unwrap();
    assert_eq!(er.context3, "*NA");
    assert_eq!(er.context3_attrib, "file_name");
    assert_eq!(er.ts_type, "filevent_timestamp");
    assert_eq!(er.src, "ETW_MSWINFILE");
}

#[test]
fn tcp_event_untracked_ids_are_dropped() {
    assert!(parse_etw_tcp_event(net_event(1014, "t")).is_none());
    assert!(parse_etw_tcp_event(net_event(1300, "t")).is_none());
}

#[test]
fn tcp_event_gets_description_and_ipv4_texts() {
    let mut ev = net_event(1033, "t");
    ev.local_address_length = Some(16);
    ev.local_address = Some(vec![2, 0, 0x01, 0xbb, 192, 168, 1, 20, 0, 0, 0, 0, 0, 0, 0, 0]);
    ev.remote_address_length = Some(8);
    ev.remote_address = Some(vec![2, 0, 0, 80]);
    let done = parse_etw_tcp_event(ev).unwrap();
    assert_eq!(done.event_description, "TcpConnectTcbComplete");
    assert_eq!(done.local_address_ipv4, "192.168.1.20");
    assert_eq!(done.remote_address_ipv4, "");
    assert_eq!(done.local_address_length, Some(16));
}

#[test]
fn dns_and_registry_events_get_descriptions() {
    assert_eq!(parse_dns_event(dns_event(3006, "t")).event_desc, "task_03006");
    assert_eq!(parse_dns_event(dns_event(42, "t")).event_desc, "not_tracked");
    assert_eq!(parse_etw_reg_event(reg_event(5, "t")).event_desc, "task_0SetValueKey");
}

fn sample_service(install_date: Option<&str>) -> Service {
    Service {
        accept_pause: false,
        accept_stop: true,
        caption: Some("Print Spooler".to_string()),
        check_point: 0,
        creation_class_name: None,
        delayed_auto_start: false,
        description: None,
        desktop_interact: false,
        display_name: Some("Print Spooler".to_string()),
        error_control: None,
        exit_code: 0,
        install_date: install_date.map(|s| s.to_string()),
        name: Some("Spooler".to_string()),
        path_name: None,
        process_id: 2000,
        service_specific_exit_code: 0,
        service_type: None,
        started: true,
        start_mode: None,
        start_name: None,
        state: None,
        status: Some("OK".to_string()),
        system_creation_class_name: None,
        system_name: None,
        tag_id: 0,
        wait_hint: 0,
    }
}

#[test]
fn service_record() {
    let er = service_to_er(sample_service(Some("2022-02-03T04:05:06Z")), "h".to_string(), "r".to_string()).unwrap();
    assert_eq!(er.ts, ts(2022, 2, 3, 4, 5, 6));
    assert_eq!(er.context1, "Spooler");
    assert_eq!(er.context2, "*NA");
    assert_eq!(er.context3, "OK");
    assert_eq!(er.ts_type, "service_install_date");
    let er = service_to_er(sample_service(None), "h".to_string(), "r".to_string()).unwrap();
    assert_eq!(er.ts, epoch());
}

fn sample_socket(protocol: SocketProtocol) -> SocketRow {
    SocketRow {
        protocol,
        local_addr: "127.0.0.1".to_string(),
        local_port: 135,
        remote_addr: "0.0.0.0".to_string(),
        remote_port: 0,
        associated_pids: vec![1044],
    }
}

#[test]
fn sockets_become_connections() {
    let nc = socket_to_netconn(sample_socket(SocketProtocol::Udp), "h".to_string(), vec![]);
    assert_eq!(nc.conntype, "UDP");
    assert_eq!(nc.state, "*NA");
    assert_eq!(nc.associated_pids, vec![1044]);
    let nc = socket_to_netconn(
        sample_socket(SocketProtocol::Tcp { state: "LISTEN".to_string() }),
        "h".to_string(),
        vec![],
    );
    assert_eq!(nc.conntype, "TCP");
    assert_eq!(nc.state, "LISTEN");
    assert_eq!(nc.local_port, 135);
}

#[test]
fn connection_record_without_process() {
    let nc = socket_to_netconn(sample_socket(SocketProtocol::Udp), "h".to_string(), vec![]);
    let er = netconn_to_er(nc, "labhost2".to_string(), "r".to_string()).unwrap();
    assert_eq!(er.ts, epoch());
    assert_eq!(er.ts_type, "netevent_timestamp");
    assert_eq!(er.context1, "127.0.0.1");
    assert_eq!(er.context2, "0.0.0.0");
    assert_eq!(er.context3, "UDP");
    assert_eq!(er.src, "NETCONN");
}

#[test]
fn connection_record_with_process_without_date() {
    let nc: Netconn = socket_to_netconn(sample_socket(SocketProtocol::Udp), "h".to_string(), vec![sample_process(1044, None)]);
    let er = netconn_to_er(nc, "labhost2".to_string(), "r".to_string()).unwrap();
    assert_eq!(er.ts_type, "process_creation_timestamp");
    assert_eq!(er.ts, epoch());
}

#[test]
fn registry_service_defaults() {
    let s = service_reg_from_values("Spooler".to_string(), None, Some(1), None, None, None, Some(16), epoch());
    assert_eq!(s.display_name, "");
    assert_eq!(s.error_control, 1);
    assert_eq!(s.start, 0);
    assert_eq!(s.service_type, 16);
}

#[test]
fn connection_list_keeps_socket_order() {
    let list = get_netconn_list(
        vec![
            (sample_socket(SocketProtocol::Udp), vec![]),
            (sample_socket(SocketProtocol::Tcp { state: "ESTABLISHED".to_string() }), vec![sample_process(9, None)]),
        ],
        "h".to_string(),
    );
    assert_eq!(list.len(), 2);
    assert_eq!(list[0].conntype, "UDP");
    assert_eq!(list[1].state, "ESTABLISHED");
    assert_eq!(list[1].associated_processes.len(), 1);
    assert_eq!(list[1].hostname, "h");
}
