use openusb::device::Timestamp;
use openusb::metrics::{BandwidthTracker, LatencyTracker};

#[test]
fn bandwidth_accumulates_per_device() {
    let mut t = BandwidthTracker::new();
    let t0 = Timestamp { secs: 10, nanos: 0 };
    let t1 = Timestamp { secs: 20, nanos: 5 };
    t.record_at("1-1", 100, 7, t0);
    t.record_at("1-1", 50, 3, t1);
    t.record_at("2-1", 1, 1, t0);
    let s = t.device_stats("1-1").unwrap();
    assert_eq!((s.bytes_sent, s.bytes_received), (150, 10));
    assert_eq!(s.last_updated, t1);
    assert_eq!(s.bus_id, "1-1");
    assert_eq!(t.all_stats().len(), 2);
    t.reset("1-1");
    assert!(t.device_stats("1-1").is_none());
    assert_eq!(t.all_stats().len(), 1);
    t.record("2-1", 1, 0);
    assert_eq!(t.device_stats("2-1").unwrap().bytes_sent, 2);
}

#[test]
fn latency_keeps_running_average() {
    let mut t = LatencyTracker::new();
    let now = Timestamp { secs: 1, nanos: 0 };
    t.record_at("1-1", 100, now);
    let s = t.device_stats("1-1").unwrap();
    assert_eq!((s.rtt_us, s.avg_rtt_us, s.samples), (100, 100, 1));
    t.record_at("1-1", 200, now);
    let s = t.device_stats("1-1").unwrap();
    assert_eq!((s.rtt_us, s.avg_rtt_us, s.samples), (200, 150, 2));
    t.record_at("1-1", 0, now);
    let s = t.device_stats("1-1").unwrap();
    assert_eq!((s.rtt_us, s.avg_rtt_us, s.samples), (0, 100, 3));
    t.record_at("1-1", 1, now);
    assert_eq!(t.device_stats("1-1").unwrap().avg_rtt_us, 75);
    t.record("1-1", 75);
    assert_eq!(t.device_stats("1-1").unwrap().samples, 5);
    t.reset("1-1");
    assert!(t.all_stats().is_empty());
}

#[test]
fn latency_average_is_the_mean_of_all_samples() {
    let mut t = LatencyTracker::new();
    let now = Timestamp { secs: 1, nanos: 0 };
    t.record_at("1-1", 0, now);
    t.record_at("1-1", 3, now);
    t.record_at("1-1", 3, now);
    let s = t.device_stats("1-1").unwrap();
    assert_eq!((s.samples, s.rtt_us, s.avg_rtt_us, s.total_rtt_us), (3, 3, 2, 6));
    t.record_at("2-1", u64::MAX, now);
    t.record_at("2-1", u64::MAX, now);
    let s = t.device_stats("2-1").unwrap();
    assert_eq!((s.samples, s.avg_rtt_us), (2, u64::MAX));
    assert_eq!(t.device_stats("1-1").unwrap().avg_rtt_us, 2);
}
