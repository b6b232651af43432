use quickjs_runtime::esruntime::{DrainStep, EsRuntime};
use quickjs_runtime::esruntimebuilder::EsRuntimeBuilder;
use quickjs_runtime::gc::GcPolicy;
use std::time::Duration;

#[test]
fn new_policy_has_clean_books() {
    let p = GcPolicy::new(Some(10), Some(500));
    assert_eq!(p.threshold(), Some(10));
    assert_eq!(p.interval_millis(), Some(500));
    assert_eq!(p.allocations(), 0);
    assert_eq!(p.collections_run(), 0);
}

#[test]
fn threshold_forces_collection_at_the_nth_allocation() {
    let mut p = GcPolicy::new(Some(3), None);
    assert!(!p.track_allocation(1));
    assert!(!p.track_allocation(2));
    assert_eq!(p.allocations(), 2);
    assert!(p.track_allocation(3));
    assert_eq!(p.collections_run(), 1);
    assert_eq!(p.allocations(), 0);
    assert!(!p.track_allocation(4));
    assert!(!p.track_allocation(5));
    assert!(p.track_allocation(6));
    assert_eq!(p.collections_run(), 2);
}

#[test]
fn collection_within_any_n_allocations() {
    for n in 1..20u64 {
        let mut p = GcPolicy::new(Some(n), None);
        let mut last = p.collections_run();
        let mut since: u64 = 0;
        for now in 0..200u128 {
            p.track_allocation(now);
            let run = p.collections_run();
            assert!(run >= last);
            if run > last {
                since = 0;
            } else {
                since += 1;
            }
            assert!(since < n);
            last = run;
        }
        assert_eq!(p.collections_run(), 200 / n);
    }
}

#[test]
fn threshold_of_zero_collects_at_every_allocation() {
    let mut p = GcPolicy::new(Some(0), None);
    assert!(p.track_allocation(1));
    assert!(p.track_allocation(2));
    assert_eq!(p.collections_run(), 2);
    assert_eq!(p.allocations(), 0);
}

#[test]
fn threshold_of_one_collects_at_every_allocation() {
    let mut p = GcPolicy::new(Some(1), None);
    assert!(p.track_allocation(1));
    assert!(p.track_allocation(1));
    assert_eq!(p.collections_run(), 2);
}

#[test]
fn without_settings_nothing_is_ever_due() {
    let mut p = GcPolicy::new(None, None);
    for now in 0..100u128 {
        assert!(!p.track_allocation(now));
        assert!(!p.evaluate(now));
    }
    assert_eq!(p.collections_run(), 0);
    assert_eq!(p.allocations(), 100);
}

#[test]
fn interval_forces_collection_when_time_has_passed() {
    let mut p = GcPolicy::new(None, Some(100));
    assert!(!p.is_due(0));
    assert!(!p.is_due(99));
    assert!(p.is_due(100));
    assert!(!p.evaluate(99));
    assert!(p.evaluate(100));
    assert_eq!(p.collections_run(), 1);
    assert!(!p.evaluate(199));
    assert!(p.evaluate(200));
    assert_eq!(p.collections_run(), 2);
}

#[test]
fn interval_is_independent_of_the_allocation_count() {
    let mut p = GcPolicy::new(Some(1000), Some(10));
    assert!(!p.track_allocation(5));
    assert_eq!(p.allocations(), 1);
    assert!(p.track_allocation(10));
    assert_eq!(p.allocations(), 0);
    assert_eq!(p.collections_run(), 1);
}

#[test]
fn clock_that_reads_earlier_counts_as_no_time_passed() {
    let mut p = GcPolicy::new(None, Some(10));
    assert!(p.evaluate(50));
    assert!(!p.is_due(20));
    assert!(!p.evaluate(59));
    assert!(p.evaluate(60));
}

#[test]
fn interval_of_zero_is_always_due() {
    let mut p = GcPolicy::new(None, Some(0));
    assert!(p.is_due(0));
    assert!(p.evaluate(0));
    assert!(p.evaluate(0));
    assert_eq!(p.collections_run(), 2);
}

#[test]
fn counter_never_decreases() {
    let mut p = GcPolicy::new(Some(4), Some(7));
    let mut last = 0;
    for now in 0..300u128 {
        if now % 3 == 0 {
            p.evaluate(now);
        } else {
            p.track_allocation(now);
        }
        assert!(p.collections_run() >= last);
        last = p.collections_run();
    }
    assert!(last > 0);
}

#[test]
fn runtime_collects_under_its_threshold() {
    let mut rt: EsRuntime<u8> = EsRuntimeBuilder::new().gc_threshold(2).build();
    assert_eq!(rt.gc_threshold(), Some(2));
    assert!(!rt.track_allocation(1));
    assert_eq!(rt.allocations(), 1);
    assert!(rt.track_allocation(2));
    assert_eq!(rt.collections_run(), 1);
    assert_eq!(rt.allocations(), 0);
}

#[test]
fn runtime_evaluates_the_policy_after_each_job() {
    let mut rt: EsRuntime<u8> = EsRuntimeBuilder::new()
        .gc_interval(Duration::from_millis(30))
        .build();
    assert_eq!(rt.gc_interval_millis(), Some(30));
    rt.submit(1).unwrap();
    rt.submit(2).unwrap();
    let (token, _) = rt.begin_job().unwrap();
    rt.job_returned(token);
    assert_eq!(rt.drain_step(false, 29), DrainStep::Complete { collect: false });
    let (token, _) = rt.begin_job().unwrap();
    rt.job_returned(token);
    assert_eq!(rt.drain_step(true, 30), DrainStep::RunReaction);
    assert_eq!(rt.collections_run(), 0);
    assert_eq!(rt.drain_step(false, 30), DrainStep::Complete { collect: true });
    assert_eq!(rt.collections_run(), 1);
}

#[test]
fn interval_is_taken_in_whole_milliseconds() {
    let rt: EsRuntime<u8> = EsRuntimeBuilder::new()
        .gc_interval(Duration::from_micros(2_500))
        .build();
    assert_eq!(rt.gc_interval_millis(), Some(2));
    let rt: EsRuntime<u8> = EsRuntimeBuilder::new().gc_interval(Duration::from_secs(3)).build();
    assert_eq!(rt.gc_interval_millis(), Some(3000));
}
