use quickjs_runtime::eserror::EsError;
use quickjs_runtime::esruntime::EsRuntime;
use quickjs_runtime::esruntimebuilder::EsRuntimeBuilder;
use quickjs_runtime::eventqueue::WorkerPhase;
use std::time::Duration;

#[test]
fn runtime_without_settings() {
    let rt: EsRuntime<u8> = EsRuntimeBuilder::new().build();
    assert_eq!(rt.memory_limit(), None);
    assert_eq!(rt.max_stack_size(), None);
    assert_eq!(rt.gc_threshold(), None);
    assert_eq!(rt.gc_interval_millis(), None);
    assert_eq!(rt.collections_run(), 0);
    assert_eq!(rt.allocations(), 0);
    assert_eq!(rt.queue().len(), 0);
    assert_eq!(rt.queue().phase(), WorkerPhase::Idle);
    assert!(!rt.is_dead());
}

#[test]
fn default_builder_has_nothing_set() {
    let rt: EsRuntime<u8> = EsRuntimeBuilder::default().build();
    assert_eq!(rt.memory_limit(), None);
    assert_eq!(rt.gc_threshold(), None);
}

#[test]
fn settings_reach_the_runtime() {
    let rt: EsRuntime<u8> = EsRuntimeBuilder::new()
        .memory_limit(1024 * 1024 * 16)
        .gc_threshold(5000)
        .max_stack_size(65536)
        .gc_interval(Duration::from_secs(2))
        .build();
    assert_eq!(rt.memory_limit(), Some(16777216));
    assert_eq!(rt.gc_threshold(), Some(5000));
    assert_eq!(rt.max_stack_size(), Some(65536));
    assert_eq!(rt.gc_interval_millis(), Some(2000));
}

#[test]
fn later_setting_wins() {
    let rt: EsRuntime<u8> = EsRuntimeBuilder::new()
        .memory_limit(1)
        .gc_threshold(2)
        .memory_limit(3)
        .gc_threshold(4)
        .build();
    assert_eq!(rt.memory_limit(), Some(3));
    assert_eq!(rt.gc_threshold(), Some(4));
    assert_eq!(rt.max_stack_size(), None);
}

#[test]
fn memory_limit_caps_allocation() {
    let rt: EsRuntime<u8> = EsRuntimeBuilder::new().memory_limit(1000).build();
    assert_eq!(rt.admit_allocation(0, 1000), Ok(1000));
    assert_eq!(rt.admit_allocation(600, 400), Ok(1000));
    assert_eq!(rt.admit_allocation(600, 401), Err(EsError::OutOfMemory));
    assert_eq!(rt.admit_allocation(1000, 0), Ok(1000));
    assert_eq!(rt.admit_allocation(1001, 0), Err(EsError::OutOfMemory));
    assert_eq!(rt.admit_allocation(u64::MAX, 1), Err(EsError::OutOfMemory));
}

#[test]
fn without_memory_limit_only_the_counter_limits() {
    let rt: EsRuntime<u8> = EsRuntimeBuilder::new().build();
    assert_eq!(rt.admit_allocation(1 << 40, 1 << 40), Ok(1 << 41));
    assert_eq!(rt.admit_allocation(u64::MAX - 1, 1), Ok(u64::MAX));
    assert_eq!(rt.admit_allocation(u64::MAX, 1), Err(EsError::OutOfMemory));
}

#[test]
fn max_stack_size_caps_the_stack() {
    let rt: EsRuntime<u8> = EsRuntimeBuilder::new().max_stack_size(4096).build();
    assert_eq!(rt.admit_stack(0), Ok(()));
    assert_eq!(rt.admit_stack(4096), Ok(()));
    assert_eq!(rt.admit_stack(4097), Err(EsError::StackOverflow));
    let free: EsRuntime<u8> = EsRuntimeBuilder::new().build();
    assert_eq!(free.admit_stack(u64::MAX), Ok(()));
}

#[test]
fn error_names() {
    assert_eq!(EsError::ModuleNotFound.name(), "ModuleNotFound");
    assert_eq!(EsError::RealmMismatch.name(), "RealmMismatch");
    assert_eq!(EsError::FeatureUnavailable.name(), "FeatureUnavailable");
    assert_eq!(EsError::StackOverflow.name(), "StackOverflow");
    assert_eq!(EsError::OutOfMemory.name(), "OutOfMemory");
    assert_eq!(EsError::Timeout.name(), "Timeout");
    assert_eq!(EsError::WorkerPanicked.name(), "WorkerPanicked");
    assert_eq!(EsError::JobPanicked.name(), "JobPanicked");
}

#[test]
fn only_worker_death_is_terminal() {
    assert!(EsError::WorkerPanicked.terminal());
    for e in [
        EsError::ModuleNotFound,
        EsError::RealmMismatch,
        EsError::FeatureUnavailable,
        EsError::StackOverflow,
        EsError::OutOfMemory,
        EsError::Timeout,
        EsError::JobPanicked,
    ] {
        assert!(!e.terminal());
    }
}

#[test]
fn runtime_can_be_shared_between_threads() {
    fn assert_send<T: Send>(_t: &T) {}
    let rt: EsRuntime<Box<dyn FnOnce() -> i32 + Send>> = EsRuntimeBuilder::new().build();
    assert_send(&rt);
    let shared = std::sync::Arc::new(std::sync::Mutex::new(rt));
    assert_send(&shared);
    let worker = shared.clone();
    shared.lock().unwrap().submit(Box::new(|| 40 + 2)).unwrap();
    let (token, job) = worker.lock().unwrap().begin_job().unwrap();
    assert_eq!(job(), 42);
    assert!(worker.lock().unwrap().job_returned(token));
    worker.lock().unwrap().drain_step(false, 0);
    assert_eq!(shared.lock().unwrap().queue().completed(), 1);
}
