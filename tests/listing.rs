use pm2_control::error::PmError;
use pm2_control::records::{
    json_payload, needs_default, parse_listing, parse_process_list, process_from_raw, RawRecord,
};

const NOW: u64 = 1_700_000_000;

#[test]
fn payload_skips_banner() {
    let text = "pm2 banner line\n[{\"pm_id\":3}]";
    assert_eq!(json_payload(text).unwrap(), "[{\"pm_id\":3}]");
}

#[test]
fn payload_without_bracket_is_parse_error() {
    match json_payload("no listing here") {
        Err(PmError::Parse(m)) => assert_eq!(m, "No JSON array found in pm2 output"),
        other => panic!("unexpected {:?}", other),
    }
}

#[test]
fn payload_of_non_ascii_banner() {
    assert_eq!(json_payload("ünïcode → [1]").unwrap(), "[1]");
}

#[test]
fn banner_then_records_are_parsed() {
    let start = (NOW - 3600) * 1000;
    let text = format!(
        "pm2 banner line\n[{{\"pm_id\":3,\"name\":\"api\",\"pm2_env\":{{\"status\":\"online\",\"pm_uptime\":{},\"restart_time\":2}},\"monit\":{{\"cpu\":12.5,\"memory\":52428800}}}}]",
        start
    );
    let procs = parse_process_list(&text, NOW).unwrap();
    assert_eq!(procs.len(), 1);
    let p = &procs[0];
    assert_eq!(p.pm_id, 3);
    assert_eq!(p.name, "api");
    assert_eq!(p.status, "online");
    assert_eq!(p.cpu, "12.5%");
    assert_eq!(p.memory, "50 MB");
    assert_eq!(p.uptime, "1h");
    assert_eq!(p.restarts, 2);
}

#[test]
fn records_keep_their_order_and_duplicates() {
    let text = "[{\"name\":\"a\"},{\"name\":\"b\"},{\"name\":\"a\"}]";
    let names: Vec<String> = parse_process_list(text, NOW).unwrap().into_iter().map(|p| p.name).collect();
    assert_eq!(names, vec!["a", "b", "a"]);
}

#[test]
fn missing_fields_take_defaults() {
    let procs = parse_process_list("[{}]", NOW).unwrap();
    let p = &procs[0];
    assert_eq!(p.pm_id, 0);
    assert_eq!(p.name, "");
    assert_eq!(p.status, "unknown");
    assert_eq!(p.cpu, "0%");
    assert_eq!(p.memory, "0 MB");
    assert_eq!(p.uptime, "0s");
    assert_eq!(p.restarts, 0);
}

#[test]
fn wrongly_typed_fields_take_defaults() {
    let text = "[{\"pm_id\":\"x\",\"name\":5,\"pm2_env\":{\"status\":null},\"monit\":{\"cpu\":\"hi\",\"memory\":-1}}]";
    let p = &parse_process_list(text, NOW).unwrap()[0];
    assert_eq!(p.pm_id, 0);
    assert_eq!(p.name, "");
    assert_eq!(p.status, "unknown");
    assert_eq!(p.cpu, "0%");
    assert_eq!(p.memory, "0 MB");
}

#[test]
fn integer_cpu_is_rendered_as_number() {
    let p = &parse_process_list("[{\"monit\":{\"cpu\":3}}]", NOW).unwrap()[0];
    assert_eq!(p.cpu, "3%");
}

#[test]
fn empty_listing() {
    assert!(parse_process_list("[]", NOW).unwrap().is_empty());
}

#[test]
fn invalid_json_is_parse_error() {
    match parse_process_list("banner [{\"pm_id\":", NOW) {
        Err(PmError::Parse(m)) => assert!(m.starts_with("Failed to parse JSON: ")),
        other => panic!("unexpected {:?}", other),
    }
}

#[test]
fn listing_without_array_is_parse_error() {
    assert!(matches!(parse_process_list("PM2 is not running", NOW), Err(PmError::Parse(_))));
}

#[test]
fn raw_record_defaults() {
    let raw = RawRecord { pm_id: None, name: None, status: None, cpu: None, memory: None, uptime: None, restarts: None };
    assert!(needs_default(&raw));
    let p = process_from_raw(raw, NOW);
    assert_eq!(p.name, "");
    assert_eq!(p.status, "unknown");
}

#[test]
fn raw_record_complete() {
    let raw = RawRecord {
        pm_id: Some(4294967297),
        name: Some("w".to_string()),
        status: Some("stopped".to_string()),
        cpu: Some("0.5".to_string()),
        memory: Some(2 * 1048576),
        uptime: Some((NOW - 90000) * 1000),
        restarts: Some(7),
    };
    assert!(!needs_default(&raw));
    let p = process_from_raw(raw, NOW);
    assert_eq!(p.pm_id, 1);
    assert_eq!(p.name, "w");
    assert_eq!(p.status, "stopped");
    assert_eq!(p.cpu, "0.5%");
    assert_eq!(p.memory, "2 MB");
    assert_eq!(p.uptime, "1d 1h");
    assert_eq!(p.restarts, 7);
}

#[test]
fn bracketed_banner_is_not_json() {
    match parse_process_list("[PM2] Spawning daemon\n[]", NOW) {
        Err(PmError::Parse(m)) => assert!(m.starts_with("Failed to parse JSON: ")),
        other => panic!("unexpected {:?}", other),
    }
}

#[test]
fn banner_does_not_change_listing() {
    let s = "[{\"pm_id\":1,\"name\":\"a\",\"pm2_env\":{\"status\":\"online\"}},{\"name\":\"b\"}]";
    let plain = parse_process_list(s, NOW).unwrap();
    let with_banner = parse_process_list(&format!("pm2 banner line\nmore text\n{}", s), NOW).unwrap();
    assert_eq!(plain.len(), with_banner.len());
    for (a, b) in plain.iter().zip(with_banner.iter()) {
        assert_eq!(a.pm_id, b.pm_id);
        assert_eq!(a.name, b.name);
        assert_eq!(a.status, b.status);
        assert_eq!(a.cpu, b.cpu);
        assert_eq!(a.memory, b.memory);
        assert_eq!(a.uptime, b.uptime);
        assert_eq!(a.restarts, b.restarts);
    }
}

#[test]
fn listing_flags_entries_that_needed_defaults() {
    let full = "{\"pm_id\":1,\"name\":\"a\",\"pm2_env\":{\"status\":\"online\",\"pm_uptime\":0,\"restart_time\":0},\"monit\":{\"cpu\":0,\"memory\":0}}";
    let text = format!("[{},{{\"name\":\"b\"}}]", full);
    let l = parse_listing(&text, NOW).unwrap();
    assert_eq!(l.processes.len(), 2);
    assert_eq!(l.defaulted, vec![false, true]);
    assert_eq!(l.processes[1].name, "b");
}

#[test]
fn entries_read_in_order_with_their_own_fields() {
    let text = "[{\"pm_id\":5,\"name\":\"x\",\"pm2_env\":{\"restart_time\":9}},{\"pm_id\":6,\"monit\":{\"memory\":2097152}}]";
    let procs = parse_process_list(text, NOW).unwrap();
    assert_eq!((procs[0].pm_id, procs[0].name.as_str(), procs[0].restarts), (5, "x", 9));
    assert_eq!((procs[1].pm_id, procs[1].name.as_str(), procs[1].memory.as_str()), (6, "", "2 MB"));
}
