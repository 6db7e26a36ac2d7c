use telemetry_core::cadence::Cadence;
use telemetry_core::cpu::build_cpu_snapshot;
use telemetry_core::hub::RecvOutcome;
use telemetry_core::ranking::top_processes;
use telemetry_core::sampler::Sampler;
use telemetry_core::snapshots::{Component, MemorySnapshot, ProcessInfo};

fn proc(name: &str, cpu_usage: i32) -> ProcessInfo {
    ProcessInfo { name: name.as_bytes().to_vec(), cpu_usage }
}

fn sensor(label: &str, temp: f32) -> Component {
    Component { label: label.as_bytes().to_vec(), temp_bits: temp.to_bits() }
}

#[test]
fn decimation_fires_exactly_once_in_five_cycles() {
    let mut cadence = Cadence::new();
    let fires: Vec<bool> = (0..5).map(|_| cadence.step()).collect();
    assert_eq!(fires.iter().filter(|f| **f).count(), 1);
    assert_eq!(fires, vec![true, false, false, false, false]);
    // The next window of five fires exactly once again.
    let fires: Vec<bool> = (0..5).map(|_| cadence.step()).collect();
    assert_eq!(fires.iter().filter(|f| **f).count(), 1);
}

#[test]
fn sampler_five_cycles_recompute_cpu_each_and_slow_metrics_once() {
    let mut sampler = Sampler::new();
    let usages: Vec<u32> = vec![1.0f32.to_bits(), 2.0f32.to_bits()];
    let components: Vec<Component> = Vec::new();
    for _ in 0..5 {
        let slow = sampler.begin_cycle();
        if slow {
            sampler.publish_memory(1000, 500);
            sampler.publish_processes(vec![proc("a", 3)]);
        }
        sampler.publish_cpu(&usages, &components, false);
    }
    assert_eq!(sampler.cpu_hub.published.len(), 5);
    assert_eq!(sampler.ram_hub.published.len(), 1);
    assert_eq!(sampler.process_hub.published.len(), 1);
}

#[test]
fn subscriber_on_the_cpu_hub_sees_each_cycles_snapshot() {
    let mut sampler = Sampler::new();
    let mut port = sampler.cpu_hub.subscribe();
    let components: Vec<Component> = Vec::new();
    for n in 1..=3usize {
        sampler.begin_cycle();
        let usages: Vec<u32> = vec![0u32; n];
        sampler.publish_cpu(&usages, &components, false);
        match sampler.cpu_hub.recv(&mut port) {
            RecvOutcome::Value(snap) => assert_eq!(snap.cores.len(), n),
            _ => panic!("a paced subscriber receives every cycle's snapshot"),
        }
    }
}

#[test]
fn cpu_snapshot_has_one_core_per_reported_core() {
    for n in [0usize, 1, 4, 64] {
        let usages: Vec<u32> = (0..n).map(|i| (i as f32).to_bits()).collect();
        let snap = build_cpu_snapshot(&usages, &Vec::new(), false);
        assert_eq!(snap.cores.len(), n);
    }
}

#[test]
fn cpu_snapshot_without_sensors_has_plain_cores() {
    // Host reports 4 cores, usages [10.0, 20.0, 5.5, 99.9], no sensors.
    let readings = [10.0f32, 20.0, 5.5, 99.9];
    let usages: Vec<u32> = readings.iter().map(|u| u.to_bits()).collect();
    let snap = build_cpu_snapshot(&usages, &Vec::new(), false);
    assert_eq!(snap.cores.len(), 4);
    for (core, expected) in snap.cores.iter().zip(readings.iter()) {
        assert_eq!(f32::from_bits(core.usage_bits), *expected);
        assert!(core.temp_bits.is_none());
    }
    assert_eq!(f32::from_bits(snap.temp_bits), 0.0);
    assert!(!snap.core_temp);
}

#[test]
fn per_core_sensors_match_by_label_first_wins() {
    let usages: Vec<u32> = vec![1.0f32.to_bits(), 2.0f32.to_bits()];
    let components = vec![
        sensor("acpitz", 10.0),
        sensor("coretemp Core 0", 41.0),
        sensor("coretemp Core 0", 43.0),
        sensor("coretemp Core 1", 45.5),
    ];
    let snap = build_cpu_snapshot(&usages, &components, true);
    assert!(snap.core_temp);
    assert_eq!(snap.cores[0].temp_bits.map(f32::from_bits), Some(41.0));
    assert_eq!(snap.cores[1].temp_bits.map(f32::from_bits), Some(45.5));
}

#[test]
fn core_without_matching_sensor_has_no_temperature() {
    let usages: Vec<u32> = vec![1.0f32.to_bits(), 2.0f32.to_bits()];
    let components = vec![sensor("coretemp Core 1", 50.0)];
    let snap = build_cpu_snapshot(&usages, &components, true);
    assert_eq!(snap.cores.len(), 2);
    assert!(snap.cores[0].temp_bits.is_none());
    assert_eq!(snap.cores[1].temp_bits.map(f32::from_bits), Some(50.0));
}

#[test]
fn package_temperature_comes_from_last_matching_sensor() {
    let usages: Vec<u32> = vec![1.0f32.to_bits()];
    let components = vec![
        sensor("coretemp Package id 0", 60.0),
        sensor("cpu_thermal zone", 55.0),
    ];
    let snap = build_cpu_snapshot(&usages, &components, false);
    assert_eq!(f32::from_bits(snap.temp_bits), 55.0);
}

#[test]
fn top_processes_keeps_four_ties_in_enumeration_order() {
    // 6 processes with usages [3, 50, 50, 12, 0, 7]: the published list is
    // the top 4, [50, 50, 12, 7], ties keeping enumeration order.
    let list = vec![
        proc("p3", 3),
        proc("first50", 50),
        proc("second50", 50),
        proc("p12", 12),
        proc("p0", 0),
        proc("p7", 7),
    ];
    let top = top_processes(list);
    assert_eq!(top.len(), 4);
    let usages: Vec<i32> = top.iter().map(|p| p.cpu_usage).collect();
    assert_eq!(usages, vec![50, 50, 12, 7]);
    assert_eq!(top[0].name, b"first50".to_vec());
    assert_eq!(top[1].name, b"second50".to_vec());
}

#[test]
fn top_processes_short_list_is_sorted_whole() {
    let top = top_processes(vec![proc("a", 1), proc("b", 9)]);
    let usages: Vec<i32> = top.iter().map(|p| p.cpu_usage).collect();
    assert_eq!(usages, vec![9, 1]);
}

#[test]
fn top_processes_empty_list_stays_empty() {
    let top = top_processes(Vec::new());
    assert!(top.is_empty());
}

#[test]
fn top_processes_is_sorted_descending_in_adjacent_pairs() {
    let list = vec![proc("a", -5), proc("b", 100), proc("c", 3), proc("d", 3), proc("e", 77)];
    let top = top_processes(list);
    assert_eq!(top.len(), 4);
    for pair in top.windows(2) {
        assert!(pair[0].cpu_usage >= pair[1].cpu_usage);
    }
}

#[test]
fn memory_snapshot_keeps_both_readings_verbatim() {
    let m = MemorySnapshot::new(16000000000, 8000000000);
    assert_eq!(m.total, 16000000000);
    assert_eq!(m.used, 8000000000);
    assert!(m.is_consistent());
}

#[test]
fn memory_inconsistency_is_reported_not_fatal() {
    let m = MemorySnapshot::new(100, 200);
    assert!(!m.is_consistent());
    assert_eq!(m.total, 100);
    assert_eq!(m.used, 200);
}
