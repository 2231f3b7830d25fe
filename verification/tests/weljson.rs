use std::collections::BTreeMap;

use serde_json::Value;
use telemetry_kit::weljson::{
    check_system_items, evt_xml_to_json, get_wel_values, try_wel_json_to_er, wel_json_to_er,
    wel_raw_to_obj, JsonValue,
};

fn to_json(v: &Value) -> JsonValue {
    match v {
        Value::Null => JsonValue::Null,
        Value::Bool(b) => JsonValue::Bool(*b),
        Value::Number(n) => JsonValue::Number(n.to_string()),
        Value::String(s) => JsonValue::Str(s.clone()),
        Value::Array(a) => JsonValue::Array(a.iter().map(to_json).collect()),
        Value::Object(m) => JsonValue::Object(m.iter().map(|(k, v)| (k.clone(), to_json(v))).collect()),
    }
}

fn parse(s: &str) -> JsonValue {
    to_json(&serde_json::from_str::<Value>(s).unwrap())
}

fn leaf_text(v: &JsonValue) -> String {
    match v {
        JsonValue::Str(s) => s.clone(),
        JsonValue::Null => "null".to_string(),
        _ => "<other>".to_string(),
    }
}

fn flat(pairs: &[(String, &JsonValue)]) -> BTreeMap<String, String> {
    pairs.iter().map(|(k, v)| (k.clone(), leaf_text(v))).collect()
}

const SAMPLE: &str = r###"{
    "Event": {
        "#c": [
            {
                "System": {
                    "#c": [
                        { "Provider": { "@Name": "MsiInstaller" } },
                        { "EventID": { "#t": "11729", "@Qualifiers": "0" } },
                        { "Version": { "#t": "0" } },
                        { "Level": { "#t": "4" } },
                        { "Task": { "#t": "0" } },
                        { "Opcode": { "#t": "0" } },
                        { "Keywords": { "#t": "0x80000000000000" } },
                        { "TimeCreated": { "@SystemTime": "2025-10-29T01:06:13.2482484Z" } },
                        { "EventRecordID": { "#t": "109003" } },
                        { "Correlation": {} },
                        { "Execution": { "@ProcessID": "0", "@ThreadID": "0" } },
                        { "Channel": { "#t": "Application" } },
                        { "Computer": { "#t": "labhost2" } },
                        { "Security": { "@UserID": "S-1-5-21-3338565303-3805897153-2758210402-1001" } }
                    ]
                }
            },
            {
                "EventData": {
                    "#c": [
                        { "Data": { "#t": "Product: Oracle VirtualBox 7.1.4 -- Configuration failed." } },
                        { "Data": { "#t": "(NULL)" } },
                        { "Data": { "#t": "(NULL)" } },
                        { "Data": { "#t": "(NULL)" } },
                        { "Data": { "#t": "(NULL)" } },
                        { "Data": { "#t": "(NULL)" } },
                        { "Data": {} },
                        { "Binary": { "#t": "7B42374545394142322D343138382D344235462D383439392D3433313134453741443744417D2C2031363032" } }
                    ]
                }
            }
        ],
        "@xmlns": "http://schemas.microsoft.com/win/2004/08/events/event"
    }
}"###;

fn expected_sample_map() -> BTreeMap<String, String> {
    let pairs = [
        ("Name", "MsiInstaller"),
        ("EventID", "11729"),
        ("Qualifiers", "0"),
        ("Version", "0"),
        ("Level", "4"),
        ("Task", "0"),
        ("Opcode", "0"),
        ("Keywords", "0x80000000000000"),
        ("SystemTime", "2025-10-29T01:06:13.2482484Z"),
        ("EventRecordID", "109003"),
        ("ProcessID", "0"),
        ("ThreadID", "0"),
        ("Channel", "Application"),
        ("Computer", "labhost2"),
        ("UserID", "S-1-5-21-3338565303-3805897153-2758210402-1001"),
        ("EventData\\Data", "Product: Oracle VirtualBox 7.1.4 -- Configuration failed."),
        (
            "EventData\\Binary",
            "7B42374545394142322D343138382D344235462D383439392D3433313134453741443744417D2C2031363032",
        ),
        ("xmlns", "http://schemas.microsoft.com/win/2004/08/events/event"),
    ];
    pairs.iter().map(|(k, v)| (k.to_string(), v.to_string())).collect()
}

#[test]
fn sample_record_flattens_to_one_level() {
    let event = parse(SAMPLE);
    let out = wel_raw_to_obj(&event);
    assert_eq!(out.len(), 18);
    assert_eq!(flat(&out), expected_sample_map());
}

#[test]
fn repeated_keys_are_numbered() {
    let event = parse(
        r###"{"Event": {"#c": [{"EventData": {"#c": [
            {"Data": {"#t": "a"}}, {"Data": {"#t": "b"}}, {"Data": {"#t": "c"}}
        ]}}]}}"###,
    );
    let got = flat(&wel_raw_to_obj(&event));
    let want: BTreeMap<String, String> = [("EventData\\Data", "a"), ("EventData\\Data1", "b"), ("EventData\\Data2", "c")]
        .iter()
        .map(|(k, v)| (k.to_string(), v.to_string()))
        .collect();
    assert_eq!(got, want);
}

#[test]
fn system_values_replace_earlier_ones() {
    let event = parse(
        r###"{"Event": {"#c": [{"System": {"#c": [{"Level": {"#t": "4"}}, {"Level": {"#t": "2"}}]}}]}}"###,
    );
    let got = flat(&wel_raw_to_obj(&event));
    assert_eq!(got.len(), 1);
    assert_eq!(got.get("Level"), Some(&"2".to_string()));
}

#[test]
fn record_without_event_flattens_to_nothing() {
    assert!(wel_raw_to_obj(&parse(r###"{"Other": 1}"###)).is_empty());
    assert!(wel_raw_to_obj(&parse(r###"[1, 2]"###)).is_empty());
}

#[test]
fn leaves_of_a_value() {
    let v = parse(r###"{"#t": "x", "@a": "y", "n": 5}"###);
    let out = get_wel_values(&"Tag".to_string(), &v, "<root>\\#c\\Outer");
    let got: Vec<(String, String)> = out.iter().map(|(k, v)| (k.clone(), leaf_text(v))).collect();
    assert_eq!(
        got,
        vec![("<root>\\Outer\\Tag".to_string(), "x".to_string()), ("@a".to_string(), "y".to_string())]
    );
    let arr = parse(r###"["s1", null, {"k": {"#t": "t"}}]"###);
    let out = get_wel_values(&"List".to_string(), &arr, "<root>");
    let got: Vec<(String, String)> = out.iter().map(|(k, v)| (k.clone(), leaf_text(v))).collect();
    assert_eq!(
        got,
        vec![("<root>".to_string(), "s1".to_string()), ("<root>\\List\\k".to_string(), "t".to_string())]
    );
}

#[test]
fn sample_record_becomes_cache_record() {
    let event = parse(SAMPLE);
    assert!(check_system_items(&event));
    let er = wel_json_to_er(SAMPLE, &event, Some("{\"flat\":1}".to_string())).unwrap();
    assert_eq!(er.context1, "Application");
    assert_eq!(er.context1_attrib, "Channel");
    assert_eq!(er.context2, "MsiInstaller");
    assert_eq!(er.context2_attrib, "Provider");
    assert_eq!(er.context3, "11729");
    assert_eq!(er.context3_attrib, "EID");
    assert_eq!(er.host, "labhost2");
    assert_eq!(er.src, "WELS");
    assert_eq!(er.ts_type, "creation_time");
    assert_eq!(er.rawevent, "{\"flat\":1}");
    assert_eq!((er.ts.year, er.ts.month, er.ts.day), (2025, 10, 29));
    assert_eq!((er.ts.hour, er.ts.minute, er.ts.second), (1, 6, 13));
    assert_eq!(er.ts.nanosecond, 248248400);
}

#[test]
fn record_without_system_keeps_defaults() {
    let text = r###"{"Event": {"#c": []}}"###;
    let er = wel_json_to_er(text, &parse(text), None).unwrap();
    assert_eq!(er.host, "N/A");
    assert_eq!(er.context1, "N/A");
    assert_eq!(er.context3_attrib, "N/A");
    assert_eq!(er.rawevent, text);
    assert_eq!((er.ts.year, er.ts.month, er.ts.day), (1970, 1, 1));
}

#[test]
fn unreadable_creation_time_is_refused() {
    let text = r###"{"Event": {"#c": [{"System": {"#c": [{"TimeCreated": {"@SystemTime": "yesterday"}}]}}]}}"###;
    let event = parse(text);
    assert!(!check_system_items(&event));
    assert!(try_wel_json_to_er(text, &event, None).is_none());
    let not_object = r###"{"Event": {"#c": [{"System": {"#c": ["x"]}}]}}"###;
    assert!(try_wel_json_to_er(not_object, &parse(not_object), None).is_none());
    let fine = r###"{"Event": {"#c": [{"System": {"#c": [{"Channel": {"#t": "System"}}]}}]}}"###;
    let er = try_wel_json_to_er(fine, &parse(fine), None).unwrap().unwrap();
    assert_eq!(er.context1, "System");
}

#[test]
fn xml_record_to_json_text() {
    let out = evt_xml_to_json("<child>Hello World</child>".to_string()).unwrap();
    let got: Value = serde_json::from_str(&out).unwrap();
    let want: Value = serde_json::from_str(r###"{"child": {"#t": "Hello World"}}"###).unwrap();
    assert_eq!(got, want);
}
