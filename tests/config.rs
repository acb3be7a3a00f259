use rust_lockfree::cmdoptions::{
    impl_type_of_lowercase, parse_impl_type, parse_workloads, workloads_of_lowercase, CmdOptions,
    ConfigError,
};
use rust_lockfree::kernels::WorkloadType;
use rust_lockfree::sync_queue::ImplType;

#[test]
fn impl_names_in_any_case() {
    assert_eq!(parse_impl_type("mutex"), Some(ImplType::MutexLock));
    assert_eq!(parse_impl_type("MUTEX"), Some(ImplType::MutexLock));
    assert_eq!(parse_impl_type("Spin"), Some(ImplType::SpinLock));
    assert_eq!(parse_impl_type("LockFree"), Some(ImplType::Lockfree));
    assert_eq!(parse_impl_type("crossbeam"), Some(ImplType::Crossbeam));
    assert_eq!(parse_impl_type("Custom"), Some(ImplType::Custom));
    assert_eq!(parse_impl_type("DIRTY"), Some(ImplType::Dirty));
    assert_eq!(parse_impl_type("epoch"), Some(ImplType::Epoch));
    assert_eq!(parse_impl_type("rwlock"), None);
    assert_eq!(parse_impl_type(""), None);
}

#[test]
fn lowercase_lookup_is_exact() {
    assert_eq!(impl_type_of_lowercase(&"epoch".to_string()), Some(ImplType::Epoch));
    assert_eq!(impl_type_of_lowercase(&"Epoch".to_string()), None);
    assert_eq!(workloads_of_lowercase(&"mem".to_string()), Some(vec![WorkloadType::MemoryHeavy]));
    assert_eq!(workloads_of_lowercase(&"MEM".to_string()), None);
}

#[test]
fn workload_names() {
    assert_eq!(parse_workloads("READ"), Some(vec![WorkloadType::ReadHeavy]));
    assert_eq!(parse_workloads("write"), Some(vec![WorkloadType::WriteHeavy]));
    assert_eq!(parse_workloads("Mixed"), Some(vec![WorkloadType::Mixed]));
    assert_eq!(
        parse_workloads("All"),
        Some(vec![
            WorkloadType::ReadHeavy,
            WorkloadType::WriteHeavy,
            WorkloadType::Mixed,
            WorkloadType::MemoryHeavy
        ])
    );
    assert_eq!(parse_workloads("memory"), None);
}

#[test]
fn resolve_accepts_valid_choices() {
    let o = CmdOptions::resolve("Epoch", "all", 3, 8).unwrap();
    assert_eq!(o.impl_type, ImplType::Epoch);
    assert_eq!(o.benchmark, "all");
    assert_eq!(o.verbosity, 3);
    assert_eq!(o.n_threads, 8);
}

#[test]
fn resolve_rejects_each_bad_choice() {
    assert_eq!(
        CmdOptions::resolve("queue", "all", 0, 16).unwrap_err(),
        ConfigError::InvalidImplementation
    );
    assert_eq!(
        CmdOptions::resolve("queue", "nope", 0, 3).unwrap_err(),
        ConfigError::InvalidImplementation
    );
    assert_eq!(CmdOptions::resolve("mutex", "all", 0, 3).unwrap_err(), ConfigError::InvalidThreadCount);
    assert_eq!(CmdOptions::resolve("mutex", "all", 0, 0).unwrap_err(), ConfigError::InvalidThreadCount);
    assert_eq!(CmdOptions::resolve("mutex", "all", 0, 18).unwrap_err(), ConfigError::InvalidThreadCount);
    assert_eq!(CmdOptions::resolve("spin", "nope", 0, 2).unwrap_err(), ConfigError::InvalidBenchmark);
}
