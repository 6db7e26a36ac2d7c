use telemetry_core::snapshots::{MemorySnapshot, ProcessInfo};
use telemetry_core::wire::{render_memory_message, render_process_message};

fn proc(name: &str, cpu_usage: i32) -> ProcessInfo {
    ProcessInfo { name: name.as_bytes().to_vec(), cpu_usage }
}

fn render_procs(ps: Vec<ProcessInfo>) -> String {
    String::from_utf8(render_process_message(&ps)).unwrap()
}

#[test]
fn memory_message_is_both_values_verbatim() {
    let m = MemorySnapshot::new(16000000000, 8000000000);
    let msg = String::from_utf8(render_memory_message(&m)).unwrap();
    assert_eq!(msg, "{\"total\":16000000000,\"used\":8000000000}");
}

#[test]
fn memory_message_extremes() {
    let m = MemorySnapshot::new(u64::MAX, 0);
    let msg = String::from_utf8(render_memory_message(&m)).unwrap();
    assert_eq!(msg, "{\"total\":18446744073709551615,\"used\":0}");
}

#[test]
fn process_message_empty_list() {
    assert_eq!(render_procs(Vec::new()), "[]");
}

#[test]
fn process_message_shape_and_order() {
    let msg = render_procs(vec![proc("systemd", 12), proc("init", 0)]);
    assert_eq!(
        msg,
        "[{\"name\":\"systemd\",\"cpu_usage\":12},{\"name\":\"init\",\"cpu_usage\":0}]"
    );
}

#[test]
fn process_message_negative_usage_keeps_sign() {
    let msg = render_procs(vec![proc("odd", -3), proc("edge", i32::MIN)]);
    assert_eq!(
        msg,
        "[{\"name\":\"odd\",\"cpu_usage\":-3},{\"name\":\"edge\",\"cpu_usage\":-2147483648}]"
    );
}

#[test]
fn process_name_escaping_agrees_with_serde_json() {
    let names = [
        "plain",
        "with \"quotes\"",
        "back\\slash",
        "tab\tnewline\nreturn\rbell\u{7}",
        "ctrl\u{1}\u{1f}",
        "uni\u{e9}\u{4e2d}",
    ];
    for name in names {
        let ours = render_procs(vec![proc(name, 1)]);
        let escaped = serde_json::to_string(name).unwrap();
        let expected = format!("[{{\"name\":{},\"cpu_usage\":1}}]", escaped);
        assert_eq!(ours, expected);
    }
}

#[test]
fn process_message_parses_back_to_the_same_values() {
    let msg = render_procs(vec![proc("a b", 50), proc("c\"d", 7)]);
    let parsed: serde_json::Value = serde_json::from_str(&msg).unwrap();
    let arr = parsed.as_array().unwrap();
    assert_eq!(arr.len(), 2);
    assert_eq!(arr[0]["name"], "a b");
    assert_eq!(arr[0]["cpu_usage"], 50);
    assert_eq!(arr[1]["name"], "c\"d");
    assert_eq!(arr[1]["cpu_usage"], 7);
}

#[test]
fn memory_message_parses_back_to_the_same_values() {
    let m = MemorySnapshot::new(123, 45);
    let msg = String::from_utf8(render_memory_message(&m)).unwrap();
    let parsed: serde_json::Value = serde_json::from_str(&msg).unwrap();
    assert_eq!(parsed["total"], 123);
    assert_eq!(parsed["used"], 45);
}
