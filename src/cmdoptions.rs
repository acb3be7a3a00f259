//! The resolved run configuration, and the rules that accept or reject a
//! command line's choices.

use vstd::prelude::*;
use crate::kernels::{WorkloadType, valid_thread_count, is_valid_thread_count};
use crate::sync_queue::ImplType;

verus! {

/// What `str::to_lowercase` makes of a string.
pub uninterp spec fn lower_of(s: Seq<char>) -> Seq<char>;

/// Relies on str::to_lowercase: the lowercase form of `s`, a function of
/// its characters alone.
#[verifier::external_body]
fn lowercase(s: &str) -> (r: String)
    ensures
        r@ == lower_of(s@),
{
    s.to_lowercase()
}

/// The implementation a lowercase name selects.
pub open spec fn impl_type_named(s: Seq<char>) -> Option<ImplType> {
    if s == "mutex"@ {
        Some(ImplType::MutexLock)
    } else if s == "spin"@ {
        Some(ImplType::SpinLock)
    } else if s == "lockfree"@ {
        Some(ImplType::Lockfree)
    } else if s == "crossbeam"@ {
        Some(ImplType::Crossbeam)
    } else if s == "custom"@ {
        Some(ImplType::Custom)
    } else if s == "dirty"@ {
        Some(ImplType::Dirty)
    } else if s == "epoch"@ {
        Some(ImplType::Epoch)
    } else {
        None
    }
}

/// The workloads a lowercase name selects, in the order they run.
pub open spec fn workloads_named(s: Seq<char>) -> Option<Seq<WorkloadType>> {
    if s == "read"@ {
        Some(seq![WorkloadType::ReadHeavy])
    } else if s == "write"@ {
        Some(seq![WorkloadType::WriteHeavy])
    } else if s == "mixed"@ {
        Some(seq![WorkloadType::Mixed])
    } else if s == "mem"@ {
        Some(seq![WorkloadType::MemoryHeavy])
    } else if s == "all"@ {
        Some(
            seq![
                WorkloadType::ReadHeavy,
                WorkloadType::WriteHeavy,
                WorkloadType::Mixed,
                WorkloadType::MemoryHeavy,
            ],
        )
    } else {
        None
    }
}

/// The implementation named by `lower`, already in lowercase.
pub fn impl_type_of_lowercase(lower: &String) -> (r: Option<ImplType>)
    ensures
        r == impl_type_named(lower@),
{
    if *lower == "mutex".to_owned() {
        Some(ImplType::MutexLock)
    } else if *lower == "spin".to_owned() {
        Some(ImplType::SpinLock)
    } else if *lower == "lockfree".to_owned() {
        Some(ImplType::Lockfree)
    } else if *lower == "crossbeam".to_owned() {
        Some(ImplType::Crossbeam)
    } else if *lower == "custom".to_owned() {
        Some(ImplType::Custom)
    } else if *lower == "dirty".to_owned() {
        Some(ImplType::Dirty)
    } else if *lower == "epoch".to_owned() {
        Some(ImplType::Epoch)
    } else {
        None
    }
}

/// The workloads named by `lower`, already in lowercase.
pub fn workloads_of_lowercase(lower: &String) -> (r: Option<Vec<WorkloadType>>)
    ensures
        r is Some <==> workloads_named(lower@) is Some,
        r is Some ==> r->Some_0@ == workloads_named(lower@)->Some_0,
{
    if *lower == "read".to_owned() {
        Some(vec![WorkloadType::ReadHeavy])
    } else if *lower == "write".to_owned() {
        Some(vec![WorkloadType::WriteHeavy])
    } else if *lower == "mixed".to_owned() {
        Some(vec![WorkloadType::Mixed])
    } else if *lower == "mem".to_owned() {
        Some(vec![WorkloadType::MemoryHeavy])
    } else if *lower == "all".to_owned() {
        let r = vec![
            WorkloadType::ReadHeavy,
            WorkloadType::WriteHeavy,
            WorkloadType::Mixed,
            WorkloadType::MemoryHeavy,
        ];
        assert(r@ =~= workloads_named(lower@)->Some_0);
        Some(r)
    } else {
        None
    }
}

/// The implementation named by `name`, in any case.
pub fn parse_impl_type(name: &str) -> (r: Option<ImplType>)
    ensures
        r == impl_type_named(lower_of(name@)),
{
    impl_type_of_lowercase(&lowercase(name))
}

/// The workloads named by `name`, in any case.
pub fn parse_workloads(name: &str) -> (r: Option<Vec<WorkloadType>>)
    ensures
        r is Some <==> workloads_named(lower_of(name@)) is Some,
        r is Some ==> r->Some_0@ == workloads_named(lower_of(name@))->Some_0,
{
    workloads_of_lowercase(&lowercase(name))
}

/// Why a command line's choices were rejected.
#[derive(Clone, Copy, Debug, PartialEq, Eq, Structural)]
pub enum ConfigError {
    InvalidImplementation,
    InvalidThreadCount,
    InvalidBenchmark,
}

/// A resolved run configuration.
#[derive(Debug)]
pub struct CmdOptions {
    pub impl_type: ImplType,
    pub benchmark: String,
    pub verbosity: usize,
    pub n_threads: usize,
}

impl CmdOptions {
    /// Checks a command line's choices, in this order: the implementation
    /// name, the thread count (even, 2 to 16), the benchmark name. Names
    /// match in any case.
    pub fn resolve(impl_name: &str, benchmark: &str, verbosity: usize, n_threads: usize) -> (r:
        Result<CmdOptions, ConfigError>)
        ensures
            impl_type_named(lower_of(impl_name@)) is None ==> r == Err::<CmdOptions, ConfigError>(
                ConfigError::InvalidImplementation,
            ),
            impl_type_named(lower_of(impl_name@)) is Some && !valid_thread_count(n_threads as int)
                ==> r == Err::<CmdOptions, ConfigError>(ConfigError::InvalidThreadCount),
            impl_type_named(lower_of(impl_name@)) is Some && valid_thread_count(n_threads as int)
                && workloads_named(lower_of(benchmark@)) is None ==> r == Err::<
                CmdOptions,
                ConfigError,
            >(ConfigError::InvalidBenchmark),
            r is Ok <==> impl_type_named(lower_of(impl_name@)) is Some && valid_thread_count(
                n_threads as int,
            ) && workloads_named(lower_of(benchmark@)) is Some,
            r is Ok ==> r->Ok_0.impl_type == impl_type_named(lower_of(impl_name@))->Some_0
                && r->Ok_0.benchmark@ == benchmark@ && r->Ok_0.verbosity == verbosity
                && r->Ok_0.n_threads == n_threads,
    {
        let impl_type = match parse_impl_type(impl_name) {
            Some(t) => t,
            None => {
                return Err(ConfigError::InvalidImplementation);
            },
        };
        if !is_valid_thread_count(n_threads) {
            return Err(ConfigError::InvalidThreadCount);
        }
        if parse_workloads(benchmark).is_none() {
            return Err(ConfigError::InvalidBenchmark);
        }
        Ok(CmdOptions { impl_type, benchmark: benchmark.to_owned(), verbosity, n_threads })
    }
}

} // verus!
