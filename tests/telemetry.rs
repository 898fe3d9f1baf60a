use sys::telemetry::{CollectionError, LoadAverage, ResourceReadings, ResourceSnapshot};

fn readings(total: u64, free: u64, usage: Vec<u32>) -> ResourceReadings {
    ResourceReadings {
        total_memory_bytes: total,
        free_memory_bytes: free,
        cpu_usage: usage,
        load_average: None,
    }
}

#[test]
fn memory_is_converted_to_kibibytes() {
    let s = ResourceSnapshot::from_readings(readings(4096 * 1024 + 1023, 1024 * 1024, vec![5])).unwrap();
    assert_eq!(s.total_memory_kb(), 4096);
    assert_eq!(s.free_memory_kb(), 1024);
    assert_eq!(s.used_memory_kb(), 3072);
    assert_eq!(s.used_memory_kb(), s.total_memory_kb() - s.free_memory_kb());
    assert_eq!(s.cpu_count(), 1);
    assert_eq!(s.cpu_usage(), &vec![5]);
}

#[test]
fn all_memory_free_leaves_none_used() {
    let s = ResourceSnapshot::from_readings(readings(u64::MAX, u64::MAX, vec![0, 0])).unwrap();
    assert_eq!(s.used_memory_kb(), 0);
    assert_eq!(s.total_memory_kb(), u64::MAX / 1024);
}

#[test]
fn free_above_total_is_an_error() {
    let r = ResourceSnapshot::from_readings(readings(1024, 1025, vec![0]));
    assert!(matches!(r, Err(CollectionError::FreeExceedsTotal)));
}

#[test]
fn no_processors_means_unavailable() {
    let r = ResourceSnapshot::from_readings(readings(0, 1, vec![]));
    assert!(matches!(r, Err(CollectionError::Unavailable)));
}

#[test]
fn platform_without_load_average_keeps_it_absent() {
    let s = ResourceSnapshot::from_readings(readings(2048, 0, vec![1])).unwrap();
    assert_eq!(s.load_average(), None);
}

#[test]
fn platform_with_load_average_keeps_it() {
    let load = LoadAverage { one: 1, five: 2, fifteen: 3 };
    let mut r = readings(2048, 0, vec![1]);
    r.load_average = Some(load);
    let s = ResourceSnapshot::from_readings(r).unwrap();
    assert_eq!(s.load_average(), Some(load));
}
