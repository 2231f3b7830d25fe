use telemetry_kit::channels::{default_elog_scope, ChannelEnumerator, ChannelPhase, NextPathResult};
use telemetry_kit::observables::{grab_observables, observable_lines};
use telemetry_kit::pushover::{host_message, message_url, Config, NetInfo};
use telemetry_kit::syncplan::{copied_rows, copy_step, next_offset, page_query, sync_offset, with_id};
use telemetry_kit::webroutes::{index, obs, rocket, MountTarget};
use telemetry_kit::weljson::JsonValue;

fn units(s: &str) -> Vec<u16> {
    let mut v: Vec<u16> = s.encode_utf16().collect();
    v.push(0);
    v.resize(256, 0);
    v
}

fn result(ok: bool, path: &str, last_error: u32) -> NextPathResult {
    let used = if path.is_empty() { 0 } else { path.encode_utf16().count() as u32 + 1 };
    NextPathResult { ok, buffer: units(path), buffer_used: used, last_error }
}

#[test]
fn channel_walk_keeps_read_paths() {
    let mut e = ChannelEnumerator::new(true);
    let s = e.on_result(&result(true, "", 0));
    assert!(s.call_again);
    assert_eq!(e.phase, ChannelPhase::Read);
    let s = e.on_result(&result(true, "Application", 0));
    assert!(s.call_again);
    assert!(s.reported.is_none());
    assert_eq!(e.phase, ChannelPhase::Probe);
    let s = e.on_result(&result(false, "", 122));
    assert!(s.call_again);
    assert_eq!(e.phase, ChannelPhase::Retry);
    let s = e.on_result(&result(true, "System", 0));
    assert!(s.call_again);
    let s = e.on_result(&result(true, "", 0));
    assert!(s.call_again);
    let s = e.on_result(&result(true, "Security", 259));
    assert!(!s.call_again);
    assert_eq!(e.phase, ChannelPhase::Done);
    let names: Vec<String> = e.channels.iter().map(|c| c.channel_name.clone()).collect();
    assert_eq!(names, vec!["Application", "System", "Security"]);
    assert!(e.channels.iter().all(|c| c.query == "*"));
}

#[test]
fn channel_walk_reports_retried_paths_when_asked() {
    let mut e = ChannelEnumerator::new(false);
    e.on_result(&result(false, "", 122));
    let s = e.on_result(&result(true, "Setup", 0));
    assert_eq!(s.reported, Some("Setup".to_string()));
    assert!(e.channels.is_empty());
    let s = e.on_result(&result(false, "", 5));
    assert!(!s.call_again);
}

#[test]
fn default_scope_is_three_logs() {
    let scope = default_elog_scope();
    let names: Vec<&str> = scope.iter().map(|c| c.channel_name.as_str()).collect();
    assert_eq!(names, vec!["Application", "System", "Security"]);
}

#[test]
fn observables_in_text() {
    let text = "beacon to 10.0.0.1 and 10.0.0.1 again, see https://evil.example.com/x and mail bob@example.org \
                hash d41d8cd98f00b204e9800998ecf8427e";
    let obs = grab_observables(text).unwrap();
    let got: Vec<(String, String)> = obs.iter().map(|o| (o.observable.clone(), o.obs_type.clone())).collect();
    assert_eq!(
        got,
        vec![
            ("10.0.0.1".to_string(), "ipv4".to_string()),
            ("evil.example.com".to_string(), "domain".to_string()),
            ("example.org".to_string(), "domain".to_string()),
            ("bob@example.org".to_string(), "email".to_string()),
            ("d41d8cd98f00b204e9800998ecf8427e".to_string(), "md5".to_string()),
            ("https://evil.example.com/x".to_string(), "url".to_string()),
        ]
    );
    let lines = observable_lines(&obs);
    assert_eq!(lines[0], "observable,type");
    assert_eq!(lines[1], "10.0.0.1,ipv4");
    assert_eq!(lines.len(), 7);
}

#[test]
fn pushover_message_and_url() {
    let config = Config { pushovertoken: "tok".to_string(), pushoveruser: "usr".to_string() };
    let ni = NetInfo { ip: "10.1.1.5".to_string(), hostname: "labhost2".to_string() };
    let msg = host_message(&config, &ni);
    assert_eq!(msg.message, "Hostname: labhost2, IP: 10.1.1.5");
    assert_eq!(msg.title, "labhost2");
    assert_eq!(
        message_url(&msg),
        "https://api.pushover.net/1/messages.json?user=usr&token=tok&title=labhost2&message=Hostname: labhost2, IP: 10.1.1.5"
    );
}

#[test]
fn status_pages_and_mounts() {
    assert_eq!(index(), "[*] running...");
    assert_eq!(obs(), "[*] running...");
    let mounts = rocket();
    assert_eq!(mounts.len(), 3);
    assert_eq!(mounts[0].base, "/");
    assert!(matches!(&mounts[1].target, MountTarget::Get { path, handler } if path == "/obs" && handler == "obs"));
    assert!(matches!(&mounts[2].target, MountTarget::Files { dir } if dir == "static"));
}

#[test]
fn copy_batches() {
    assert_eq!(sync_offset(Some(120), 100), 20);
    assert_eq!(sync_offset(None, 100), 0);
    assert_eq!(copy_step(0, true, 0), None);
    assert_eq!(copy_step(0, false, 0), None);
    assert_eq!(copy_step(10, false, 9), Some(19));
    assert_eq!(copied_rows(vec![1, 2, 3]), vec![2, 3]);
    assert_eq!(copied_rows::<i32>(vec![]), Vec::<i32>::new());
}

#[test]
fn paged_copy_loses_only_the_first_row() {
    let table: Vec<i32> = (0..23).collect();
    let batch = 5usize;
    let mut offset: i64 = 0;
    let mut copied: Vec<i32> = Vec::new();
    loop {
        let start = (offset as usize).min(table.len());
        let end = (start + batch).min(table.len());
        let page: Vec<i32> = table[start..end].to_vec();
        let empty = page.is_empty();
        let rows = copied_rows(page);
        let n = rows.len() as i64;
        copied.extend(rows);
        match copy_step(offset, empty, n) {
            Some(next) => offset = next,
            None => break,
        }
    }
    assert_eq!(copied, (1..23).collect::<Vec<i32>>());
}

#[test]
fn export_pages() {
    assert_eq!(page_query(0), "SELECT rawevent, id FROM events LIMIT 1000 OFFSET 0");
    assert_eq!(page_query(300), "SELECT rawevent, id FROM events LIMIT 1000 OFFSET 300");
    assert_eq!(next_offset(300), 400);
}

fn number(v: &JsonValue) -> Option<String> {
    match v {
        JsonValue::Number(n) => Some(n.clone()),
        _ => None,
    }
}

#[test]
fn record_gets_its_id() {
    let rec = JsonValue::Object(vec![("Channel".to_string(), JsonValue::Str("System".to_string()))]);
    match with_id(rec, 42) {
        JsonValue::Object(m) => {
            assert_eq!(m.len(), 2);
            assert_eq!(m[1].0, "id");
            assert_eq!(number(&m[1].1), Some("42".to_string()));
        },
        _ => panic!("expected an object"),
    }
    let rec = JsonValue::Object(vec![("id".to_string(), JsonValue::Null)]);
    match with_id(rec, -1) {
        JsonValue::Object(m) => {
            assert_eq!(m.len(), 1);
            assert_eq!(number(&m[0].1), Some("-1".to_string()));
        },
        _ => panic!("expected an object"),
    }
    assert!(matches!(with_id(JsonValue::Null, 3), JsonValue::Null));
}

#[test]
fn channel_paths_decode_utf16_with_replacement() {
    let mut e = ChannelEnumerator::new(true);
    e.on_result(&result(true, "", 0));
    // A surrogate pair decodes to one character.
    e.on_result(&result(true, "Log-\u{1F600}", 0));
    e.on_result(&result(true, "", 0));
    // An unpaired high surrogate becomes U+FFFD; the unit after it stays.
    let mut buffer: Vec<u16> = vec![0x41, 0xD800, 0x42, 0xDC00, 0];
    buffer.resize(256, 0);
    e.on_result(&NextPathResult { ok: true, buffer, buffer_used: 5, last_error: 0 });
    let names: Vec<String> = e.channels.iter().map(|c| c.channel_name.clone()).collect();
    assert_eq!(names, vec!["Log-\u{1F600}".to_string(), "A\u{FFFD}B\u{FFFD}".to_string()]);
}
