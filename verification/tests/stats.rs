use rt_layer0::RtStats;

#[test]
fn test_rt_stats() {
    let mut stats = RtStats::new();

    stats.update(100, 1000);
    assert_eq!(stats.cycles_count, 1);
    assert_eq!(stats.deadline_misses, 0);

    stats.update(2000, 1000);
    assert_eq!(stats.cycles_count, 2);
    assert_eq!(stats.deadline_misses, 1);
}

#[test]
fn test_rt_stats_scenario_extremes_and_mean() {
    let mut stats = RtStats::new();
    stats.update(100, 1000);
    stats.update(2000, 1000);
    assert_eq!(stats.cycles_count, 2);
    assert_eq!(stats.deadline_misses, 1);
    assert_eq!(stats.min_latency_us, 100);
    assert_eq!(stats.max_latency_us, 2000);
    assert_eq!(stats.avg_latency_us, 1050);
}

#[test]
fn test_rt_stats_empty_sentinel() {
    let stats = RtStats::new();
    assert_eq!(stats.min_latency_us, u64::MAX);
    assert_eq!(stats.max_latency_us, 0);
    assert_eq!(stats.avg_latency_us, 0);
    assert_eq!(stats.cycles_count, 0);
    assert_eq!(stats.deadline_misses, 0);
}

#[test]
fn test_rt_stats_mean_between_extremes() {
    let mut stats = RtStats::new();
    let observations: [u64; 5] = [500, 120, 980, 40, 770];
    for latency in observations {
        stats.update(latency, 600);
        assert!(stats.min_latency_us <= stats.avg_latency_us);
        assert!(stats.avg_latency_us <= stats.max_latency_us);
    }
    assert_eq!(stats.cycles_count, 5);
    assert_eq!(stats.deadline_misses, 2);
    assert_eq!(stats.min_latency_us, 40);
    assert_eq!(stats.max_latency_us, 980);
}

#[test]
fn test_rt_stats_latency_equal_to_deadline_is_not_a_miss() {
    let mut stats = RtStats::new();
    stats.update(1000, 1000);
    assert_eq!(stats.deadline_misses, 0);
    stats.update(1001, 1000);
    assert_eq!(stats.deadline_misses, 1);
}

#[test]
fn test_rt_stats_zero_latency_zero_deadline() {
    let mut stats = RtStats::new();
    stats.update(0, 0);
    assert_eq!(stats.cycles_count, 1);
    assert_eq!(stats.deadline_misses, 0);
    assert_eq!(stats.min_latency_us, 0);
    assert_eq!(stats.max_latency_us, 0);
    assert_eq!(stats.avg_latency_us, 0);
}

#[test]
fn test_rt_stats_default_is_empty() {
    let stats = RtStats::default();
    assert_eq!(stats.cycles_count, 0);
    assert_eq!(stats.min_latency_us, u64::MAX);
}
