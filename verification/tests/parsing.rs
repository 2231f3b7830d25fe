use telemetry_kit::etwdesc::{
    dns_event_desc, dotnet_event_desc, dotnet_rundown_event_desc, kernfile_event_desc,
    kernproc_event_desc, reg_event_desc, secaudit_event_desc, tcp_event_desc, tcp_event_tracked,
    tcpip_event_desc,
};
use telemetry_kit::listing::get_files;
use telemetry_kit::netaddr::{address_to_ipv4, hex_of_prefix, hex_to_ipv4, truncate};
use telemetry_kit::sqldump::{get_ch_timestamp, get_moz_ts, get_ts, table_header, try_field_cells, try_row_cells, Field};
use telemetry_kit::text::{i64_to_decimal, replace_str, str_eq, str_starts_with, u128_to_decimal, u64_to_decimal};

#[test]
fn decimal_texts() {
    assert_eq!(u64_to_decimal(0), "0");
    assert_eq!(u64_to_decimal(1234567890), "1234567890");
    assert_eq!(u128_to_decimal(u64::MAX as u128 + 1), "18446744073709551616");
    assert_eq!(i64_to_decimal(-42), "-42");
    assert_eq!(i64_to_decimal(i64::MIN), "-9223372036854775808");
}

#[test]
fn replace_and_prefix() {
    assert_eq!(replace_str("<root>\\#c\\System", "#c\\", ""), "<root>\\System");
    assert_eq!(replace_str("aaaa", "aa", "b"), "bb");
    assert_eq!(replace_str("@Name", "@", ""), "Name");
    assert!(str_starts_with("<root>\\System\\EventID", "<root>\\System"));
    assert!(!str_starts_with("<root>", "<root>\\System"));
    assert!(str_eq("abc", "abc"));
    assert!(!str_eq("abc", "abd"));
}

#[test]
fn hex_text_to_ipv4() {
    assert_eq!(hex_to_ipv4("020001bbc0a80114"), Some("192.168.1.20".to_string()));
    assert_eq!(hex_to_ipv4("00000000080808080000"), Some("8.8.8.8".to_string()));
    assert_eq!(hex_to_ipv4("0200zzbbc0a80114"), None);
}

#[test]
fn address_fields_to_ipv4() {
    let addr = Some(vec![2u8, 0, 0, 80, 10, 0, 0, 7, 0, 0, 0, 0, 0, 0, 0, 0]);
    assert_eq!(address_to_ipv4(&addr, Some(16)), "10.0.0.7");
    assert_eq!(address_to_ipv4(&addr, Some(15)), "");
    assert_eq!(address_to_ipv4(&None, None), "");
    assert_eq!(hex_of_prefix(&vec![0u8, 171, 16], 3), "00ab10");
}

#[test]
fn truncate_at_char_boundary() {
    assert_eq!(truncate("hello", 3), "hel");
    assert_eq!(truncate("hello", 10), "hello");
    assert_eq!(truncate("h\u{e9}llo", 2), "h\u{e9}llo");
    assert_eq!(truncate("h\u{e9}llo", 3), "h\u{e9}");
}

#[test]
fn directory_listing_entries() {
    let files = get_files("100 a.txt\n\n200 b.txt extra\nx y\n7\n".to_string());
    let got: Vec<(String, i64)> = files.into_iter().map(|f| (f.filename, f.filesize)).collect();
    assert_eq!(
        got,
        vec![("a.txt".to_string(), 100), ("b.txt".to_string(), 200), ("y".to_string(), 0)]
    );
}

#[test]
fn event_id_tables() {
    assert_eq!(tcp_event_desc(1002), "TcpRequestConnect");
    assert_eq!(tcp_event_desc(1), "Other");
    assert!(tcp_event_tracked(1477));
    assert!(!tcp_event_tracked(1038));
    assert_eq!(tcp_event_desc(1300), "Other");
    assert!(!tcp_event_tracked(1300));
    assert_eq!(dns_event_desc(1001), "DnsServerForInterface");
    assert_eq!(dns_event_desc(3009), "task_03009");
    assert_eq!(reg_event_desc(3), "task_0DeleteKey");
    assert_eq!(reg_event_desc(9), "not_tracked");
    assert_eq!(secaudit_event_desc(4688), "task_04688");
    assert_eq!(kernproc_event_desc(15), "ProcessRundown");
    assert_eq!(dotnet_rundown_event_desc(187), "RuntimeStart");
    assert_eq!(dotnet_event_desc(154), "LoaderAssemblyLoad");
    assert_eq!(kernfile_event_desc(28), Some("SetLinkPath"));
    assert_eq!(kernfile_event_desc(29), None);
    assert_eq!(tcpip_event_desc(1002), "TcpIp/connect_request");
}

fn field(name: &str, coltype: &str, nullable: i64) -> Field {
    Field { name: name.to_string(), ord: 0, coltype: coltype.to_string(), nullable }
}

#[test]
fn dump_header_adds_utc_columns() {
    let fields = vec![field("url", "str", 0), field("last_visit", "chrome_ts", 0), field("when", "timestamp", 1)];
    assert_eq!(table_header(&fields), vec!["url", "last_visit", "last_visit_dtutc", "when", "when_dtutc"]);
}

#[test]
fn dump_time_texts() {
    assert_eq!(get_ts(0), "1970-01-01 00:00:00 UTC");
    assert_eq!(get_moz_ts(1_700_000_000_123_456), "2023-11-14 22:13:20 UTC");
    assert_eq!(get_ch_timestamp(11_644_473_600_000_000), "1970-01-01 00:00:00 UTC");
    assert_eq!(get_ch_timestamp(0), "1601-01-01 00:00:00 UTC");
    assert_eq!(get_ch_timestamp(1_500_000), "1601-01-01 00:00:01.500 UTC");
}

#[test]
fn dump_cells() {
    let f = field("when", "timestamp", 0);
    assert_eq!(
        try_field_cells(&f, Some("1700000000".to_string()), Some(1_700_000_000)),
        Some(vec!["1700000000".to_string(), "2023-11-14 22:13:20".to_string()])
    );
    let n = field("when", "timestamp", 1);
    assert_eq!(
        try_field_cells(&n, None, None),
        Some(vec!["NULL".to_string(), "1970-01-01 00:00:00".to_string()])
    );
    let s = field("name", "str", 0);
    assert_eq!(try_field_cells(&s, None, None), None);
    assert_eq!(try_field_cells(&s, Some("x".to_string()), None), Some(vec!["x".to_string()]));
}

#[test]
fn dump_row_cells() {
    let fields = vec![field("url", "str", 0), field("visit", "moz_ts", 1)];
    let row = try_row_cells(
        &fields,
        &vec![Some("https://a.example".to_string()), Some("1700000000123456".to_string())],
        &vec![None, Some(1_700_000_000_123_456)],
    );
    assert_eq!(
        row,
        Some(vec![
            "https://a.example".to_string(),
            "1700000000123456".to_string(),
            "2023-11-14 22:13:20".to_string()
        ])
    );
    assert_eq!(try_row_cells(&fields, &vec![None, None], &vec![None, None]), None);
}
