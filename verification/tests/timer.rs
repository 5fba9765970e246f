use rt_layer0::{Layer0Error, RtTimer};

#[test]
fn test_timer_new_has_empty_stats() {
    let timer = RtTimer::new(1000);
    let stats = timer.get_stats();
    assert_eq!(stats.cycles_count, 0);
    assert_eq!(stats.deadline_misses, 0);
    assert_eq!(stats.min_latency_us, u64::MAX);
    assert_eq!(timer.period_us, 1000);
}

#[test]
fn test_finish_cycle_records_and_reports() {
    let mut timer = RtTimer::new(1000);
    let on_time = timer.finish_cycle(500);
    assert!(on_time.is_ok());
    let stats = timer.get_stats();
    assert_eq!(stats.cycles_count, 1);
    assert_eq!(stats.deadline_misses, 0);

    let late = timer.finish_cycle(1500);
    match late {
        Err(Layer0Error::RealTimeViolation { expected_us, actual_us }) => {
            assert_eq!(expected_us, 1000);
            assert_eq!(actual_us, 1500);
        }
        other => panic!("expected a real-time violation, got {:?}", other),
    }
    let stats = timer.get_stats();
    assert_eq!(stats.cycles_count, 2);
    assert_eq!(stats.deadline_misses, 1);
    assert_eq!(stats.min_latency_us, 500);
    assert_eq!(stats.max_latency_us, 1500);
}

#[test]
fn test_finish_cycle_on_the_boundary_is_on_time() {
    let mut timer = RtTimer::new(1000);
    assert!(timer.finish_cycle(1000).is_ok());
    assert_eq!(timer.get_stats().deadline_misses, 0);
}

#[test]
fn test_wait_next_cycle_records_one_cycle() {
    let mut timer = RtTimer::new(1000);
    let result = timer.wait_next_cycle();
    let stats = timer.get_stats();
    assert_eq!(stats.cycles_count, 1);
    match result {
        Ok(()) => assert_eq!(stats.deadline_misses, 0),
        Err(Layer0Error::RealTimeViolation { expected_us, actual_us }) => {
            assert_eq!(expected_us, 1000);
            assert!(actual_us > 1000);
            assert_eq!(stats.deadline_misses, 1);
        }
        Err(other) => panic!("unexpected error: {:?}", other),
    }
}
