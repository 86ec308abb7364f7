use host_monitor::config::{Config, ConfigError, NotifierConfig};
use host_monitor::detector::{
    cpu_breach, mem_breach, replay, AlertEvent, DetectError, Detector, Snapshot, StreamId,
};
use host_monitor::monitor::{SampleError, TickAction};
use host_monitor::stream::StreamState;
use host_monitor::text::{push_decimal, push_tenths};

fn config(cpu: u32, mem: u64, cfa: u64, cba: u64) -> Config {
    Config::new(cpu, mem, cfa, cba, 2).unwrap()
}

fn snap(cpus: Vec<u32>, used: u64, total: u64) -> Snapshot {
    Snapshot {
        timestamp: "10-18-26 12:00:00 UTC".to_string(),
        hostname: "box".to_string(),
        cpu_usages: cpus,
        memory_used: used,
        memory_total: total,
    }
}

fn feed_cpu(d: &mut Detector, usages: &[u32]) -> Vec<Vec<AlertEvent>> {
    usages
        .iter()
        .map(|u| d.observe(&snap(vec![*u], 0, 100)).unwrap())
        .collect()
}

fn feed_mem(d: &mut Detector, used: &[u64]) -> Vec<Vec<AlertEvent>> {
    used
        .iter()
        .map(|u| d.observe(&snap(vec![], *u, 100)).unwrap())
        .collect()
}

#[test]
fn sustained_cpu_breach_alerts_once_on_third_tick() {
    let mut d = Detector::new(config(900, 80, 3, 2), 1);
    let ticks = feed_cpu(&mut d, &[950, 950, 950]);
    assert_eq!(ticks.iter().map(|t| t.len()).collect::<Vec<_>>(), vec![0, 0, 1]);
    assert_eq!(ticks[2][0].stream_id, StreamId::Cpu(0));
    assert_eq!(ticks[2][0].measured_value, 950);
}

#[test]
fn single_low_reading_resets_the_streak() {
    let mut d = Detector::new(config(900, 80, 3, 2), 1);
    let ticks = feed_cpu(&mut d, &[950, 100, 950, 950]);
    assert!(ticks.iter().all(|t| t.is_empty()));
    // A full streak after the reset alerts again.
    let last = feed_cpu(&mut d, &[950]);
    assert_eq!(last[0].len(), 1);
}

#[test]
fn memory_alert_respects_cooldown() {
    let mut d = Detector::new(config(900, 80, 3, 2), 0);
    let first = feed_mem(&mut d, &[85, 85, 85]);
    assert_eq!(first.iter().map(|t| t.len()).collect::<Vec<_>>(), vec![0, 0, 1]);
    assert_eq!(first[2][0].stream_id, StreamId::Memory);
    assert_eq!(first[2][0].measured_value, 85);
    let held = feed_mem(&mut d, &[85, 85]);
    assert!(held.iter().all(|t| t.is_empty()));
    let again = feed_mem(&mut d, &[10, 10, 85, 85, 85]);
    assert_eq!(again.iter().map(|t| t.len()).collect::<Vec<_>>(), vec![0, 0, 0, 0, 1]);
}

#[test]
fn continuously_saturated_stream_alerts_once() {
    let mut d = Detector::new(config(900, 80, 2, 1), 1);
    let ticks = feed_cpu(&mut d, &[990; 10]);
    assert_eq!(ticks.iter().map(|t| t.len()).sum::<usize>(), 1);
    assert_eq!(ticks[1].len(), 1);
}

#[test]
fn zero_cooldown_alerts_every_breaching_tick() {
    let mut d = Detector::new(config(900, 80, 2, 0), 1);
    let ticks = feed_cpu(&mut d, &[990, 990, 990, 990]);
    assert_eq!(ticks.iter().map(|t| t.len()).collect::<Vec<_>>(), vec![0, 1, 1, 1]);
}

#[test]
fn counters_never_both_increase() {
    let mut s = StreamState::fresh(3);
    for breach in [true, false, true, true, false, false, true] {
        let before = s;
        s.step(breach, 2, 3);
        assert!(!(s.high_cycles > before.high_cycles && s.ok_cycles > before.ok_cycles));
    }
}

#[test]
fn stream_step_updates_counters() {
    let mut s = StreamState::fresh(2);
    assert_eq!(s, StreamState { high_cycles: 0, ok_cycles: 2 });
    assert!(!s.step(true, 2, 2));
    assert_eq!(s, StreamState { high_cycles: 1, ok_cycles: 2 });
    assert!(s.step(true, 2, 2));
    assert_eq!(s, StreamState { high_cycles: 2, ok_cycles: 0 });
    assert!(!s.step(false, 2, 2));
    assert_eq!(s, StreamState { high_cycles: 0, ok_cycles: 1 });
}

#[test]
fn counters_saturate() {
    let mut s = StreamState { high_cycles: u64::MAX, ok_cycles: u64::MAX };
    assert!(s.step(true, 5, 5));
    assert_eq!(s, StreamState { high_cycles: u64::MAX, ok_cycles: 0 });
    let mut t = StreamState { high_cycles: 0, ok_cycles: u64::MAX };
    assert!(!t.step(false, 5, 5));
    assert_eq!(t.ok_cycles, u64::MAX);
}

#[test]
fn alerts_ordered_cpu_then_memory() {
    let mut d = Detector::new(config(500, 50, 1, 0), 3);
    let events = d.observe(&snap(vec![600, 100, 700], 60, 100)).unwrap();
    let ids: Vec<StreamId> = events.iter().map(|e| e.stream_id).collect();
    assert_eq!(ids, vec![StreamId::Cpu(0), StreamId::Cpu(2), StreamId::Memory]);
}

#[test]
fn alert_messages() {
    let mut d = Detector::new(config(900, 80, 1, 0), 2);
    let events = d.observe(&snap(vec![100, 953], 90, 100)).unwrap();
    assert_eq!(events[0].message, "10-18-26 12:00:00 UTC box: High CPU1 usage: 95.3%");
    assert_eq!(events[0].hostname, "box");
    assert_eq!(events[0].timestamp, "10-18-26 12:00:00 UTC");
    assert_eq!(events[1].message, "10-18-26 12:00:00 UTC box: High memory usage: >80%");
}

#[test]
fn core_count_change_is_refused() {
    let mut d = Detector::new(config(900, 80, 1, 0), 2);
    let before_mem = d.memory;
    assert_eq!(d.observe(&snap(vec![990], 99, 100)), Err(DetectError::CoreCountChanged));
    assert_eq!(d.memory, before_mem);
    assert_eq!(d.cpus, vec![StreamState::fresh(0), StreamState::fresh(0)]);
}

#[test]
fn replay_is_idempotent() {
    let snaps = vec![
        snap(vec![950, 100], 85, 100),
        snap(vec![950, 950], 85, 100),
        snap(vec![950, 950], 10, 100),
        snap(vec![950], 85, 100),
        snap(vec![950, 950], 85, 100),
    ];
    let cfg = config(900, 80, 2, 1);
    let a = replay(cfg, 2, &snaps);
    let b = replay(cfg, 2, &snaps);
    assert_eq!(a, b);
    assert_eq!(a.len(), 5);
    assert_eq!(a[1].iter().map(|e| e.stream_id).collect::<Vec<_>>(), vec![StreamId::Cpu(0), StreamId::Memory]);
    assert!(a[3].is_empty());
}

#[test]
fn on_sample_skips_failed_tick() {
    let mut d = Detector::new(config(900, 80, 1, 0), 1);
    assert_eq!(d.on_sample(Err(SampleError::ProviderUnavailable)), TickAction::Skip);
    assert_eq!(d.cpus, vec![StreamState::fresh(0)]);
    assert_eq!(d.on_sample(Ok(snap(vec![1, 2], 0, 100))), TickAction::Skip);
    match d.on_sample(Ok(snap(vec![950], 0, 100))) {
        TickAction::Dispatch(events) => assert_eq!(events.len(), 1),
        TickAction::Skip => panic!("expected dispatch"),
    }
}

#[test]
fn breach_thresholds() {
    assert!(cpu_breach(901, 900));
    assert!(!cpu_breach(900, 900));
    assert!(mem_breach(81, 100, 80));
    assert!(!mem_breach(80, 100, 80));
    assert!(mem_breach(u64::MAX, u64::MAX, 99));
    assert!(!mem_breach(u64::MAX, u64::MAX, 100));
    // Integer scaling: 80% of 1001 is 800.8, so 801 breaches and 800 does not.
    assert!(mem_breach(801, 1001, 80));
    assert!(!mem_breach(800, 1001, 80));
}

#[test]
fn config_validation() {
    assert_eq!(Config::new(900, 80, 0, 2, 2), Err(ConfigError::ZeroCyclesForAlert));
    let c = Config::new(900, 80, 20, 20, 2).unwrap();
    assert_eq!(c.cycles_for_alert, 20);
    assert_eq!(
        NotifierConfig::new(String::new(), "dest".to_string()),
        Err(ConfigError::MissingSender)
    );
    assert_eq!(
        NotifierConfig::new("me".to_string(), String::new()),
        Err(ConfigError::MissingDestination)
    );
    let n = NotifierConfig::new("me".to_string(), "dest".to_string()).unwrap();
    assert_eq!(n.sender, "me");
    assert_eq!(n.destination, "dest");
}

#[test]
fn decimal_text() {
    let mut s = String::from("x=");
    push_decimal(&mut s, 0);
    assert_eq!(s, "x=0");
    let mut t = String::new();
    push_decimal(&mut t, 18446744073709551615);
    assert_eq!(t, "18446744073709551615");
    let mut u = String::new();
    push_tenths(&mut u, 7);
    assert_eq!(u, "0.7");
    let mut v = String::new();
    push_tenths(&mut v, 1000);
    assert_eq!(v, "100.0");
}

#[test]
fn snapshot_taken_now_is_stamped() {
    let s = Snapshot::taken_now("box".to_string(), vec![10, 20], 5, 10);
    assert_eq!(s.hostname, "box");
    assert_eq!(s.cpu_usages, vec![10, 20]);
    assert_eq!((s.memory_used, s.memory_total), (5, 10));
    assert!(s.timestamp.ends_with(" UTC"));
    assert_eq!(s.timestamp.len(), "10-18-26 12:00:00 UTC".len());
}

#[test]
fn cooldown_counts_non_consecutive_low_ticks() {
    // Cooldown counts every non-breaching tick since the alert, not only
    // consecutive ones.
    let mut d = Detector::new(config(900, 80, 2, 2), 1);
    let ticks = feed_cpu(&mut d, &[950, 950, 100, 950, 100, 950, 950]);
    assert_eq!(ticks.iter().map(|t| t.len()).collect::<Vec<_>>(), vec![0, 1, 0, 0, 0, 0, 1]);
}

#[test]
fn alert_needs_full_streak_and_cooldown() {
    let mut d = Detector::new(config(900, 80, 4, 1), 2);
    let mut counts = vec![];
    for u in [950, 950, 950, 950, 950, 100, 950, 950, 950, 950] {
        let events = d.observe(&snap(vec![u, 0], 0, 100)).unwrap();
        counts.push(events.len());
    }
    assert_eq!(counts, vec![0, 0, 0, 1, 0, 0, 0, 0, 0, 1]);
}
