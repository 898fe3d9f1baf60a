use sys::report::{format_identity, format_status};
use sys::telemetry::{HostIdentity, LoadAverage, ResourceReadings, ResourceSnapshot};

fn identity(hostname: Option<&str>) -> HostIdentity {
    HostIdentity::new(
        "linux".to_string(),
        "x86_64".to_string(),
        "unix".to_string(),
        hostname.map(|h| h.to_string()),
    )
}

fn tenths(x: f32) -> u32 {
    (f64::from(x) * 10.0).round() as u32
}

fn snapshot(total_kb: u64, free_kb: u64, usage: Vec<u32>, load: Option<LoadAverage>) -> ResourceSnapshot {
    ResourceSnapshot::from_readings(ResourceReadings {
        total_memory_bytes: total_kb * 1024,
        free_memory_bytes: free_kb * 1024,
        cpu_usage: usage,
        load_average: load,
    })
    .unwrap()
}

#[test]
fn identity_report_lists_facts_in_order() {
    let text = format_identity(&identity(Some("node1")), 2);
    assert_eq!(text, "OS: linux\nArch: x86_64\nFamily: unix\nHostname: node1\nCPU Count: 2\n");
}

#[test]
fn identity_report_omits_absent_hostname() {
    let text = format_identity(&identity(None), 8);
    assert_eq!(text, "OS: linux\nArch: x86_64\nFamily: unix\nCPU Count: 8\n");
    assert!(!text.contains("Hostname"));
}

#[test]
fn identity_report_treats_empty_hostname_as_absent() {
    let id = identity(Some(""));
    assert_eq!(id.hostname(), None);
    let text = format_identity(&id, 1);
    assert!(!text.contains("Hostname"));
}

#[test]
fn status_report_without_load_average() {
    let usage = vec![tenths(12.34), tenths(56.78)];
    let text = format_status(&snapshot(4096, 1024, usage, None));
    assert_eq!(
        text,
        "Total: 4 MB\nFree: 1 MB\nUsed: 3 MB\nCPU Cores: 2\nCPU 0: 12.3%\nCPU 1: 56.8%\n"
    );
    assert!(!text.contains("Load Average"));
}

#[test]
fn status_report_with_load_average() {
    let load = LoadAverage { one: 52, five: 158, fifteen: 1000 };
    let text = format_status(&snapshot(8192, 2048, vec![0, 1000], Some(load)));
    assert_eq!(
        text,
        "Load Average: 0.52 1.58 10.00\nTotal: 8 MB\nFree: 2 MB\nUsed: 6 MB\nCPU Cores: 2\nCPU 0: 0.0%\nCPU 1: 100.0%\n"
    );
}

#[test]
fn load_average_below_one_tenth_keeps_leading_zeros() {
    let load = LoadAverage { one: 5, five: 0, fifteen: 99 };
    let text = format_status(&snapshot(0, 0, vec![7], Some(load)));
    assert!(text.starts_with("Load Average: 0.05 0.00 0.99\n"));
    assert!(text.contains("CPU 0: 0.7%\n"));
}

#[test]
fn memory_is_truncated_to_whole_megabytes() {
    let text = format_status(&snapshot(2047, 1023, vec![0], None));
    assert!(text.contains("Total: 1 MB\n"));
    assert!(text.contains("Free: 0 MB\n"));
    assert!(text.contains("Used: 1 MB\n"));
}

#[test]
fn core_lines_are_contiguous_and_in_order() {
    let text = format_status(&snapshot(4096, 0, vec![10, 20, 30, 40], None));
    let lines: Vec<&str> = text.lines().collect();
    let core_lines: Vec<&str> = lines
        .iter()
        .copied()
        .filter(|l| l.starts_with("CPU ") && l[4..].starts_with(|c: char| c.is_ascii_digit()))
        .collect();
    assert_eq!(core_lines, vec!["CPU 0: 1.0%", "CPU 1: 2.0%", "CPU 2: 3.0%", "CPU 3: 4.0%"]);
    assert_eq!(&lines[lines.len() - 4..], core_lines.as_slice());
    assert!(lines.contains(&"CPU Cores: 4"));
}

#[test]
fn core_index_past_nine_has_two_digits() {
    let usage: Vec<u32> = (0..12).collect();
    let text = format_status(&snapshot(1024, 0, usage, None));
    assert!(text.ends_with("CPU 10: 1.0%\nCPU 11: 1.1%\n"));
    assert!(text.contains("CPU Cores: 12\n"));
}

#[test]
fn status_report_is_deterministic() {
    let load = Some(LoadAverage { one: 123, five: 45, fifteen: 6 });
    let a = format_status(&snapshot(5000, 1200, vec![333, 1], load));
    let b = format_status(&snapshot(5000, 1200, vec![333, 1], load));
    assert_eq!(a.as_bytes(), b.as_bytes());
}
