//! One benchmark: an implementation, a workload, and what a timed run of
//! them produced.

use vstd::prelude::*;
use std::time::Duration;
use crate::kernels::{BenchmarkError, WorkloadType};
use crate::sync_queue::ImplType;

verus! {

/// The implementation and workload that a run pairs.
pub struct Benchmark {
    impl_type: ImplType,
    workload_type: WorkloadType,
}

/// The outcome of one run and the time the kernel took (queue construction
/// excluded).
pub struct BenchmarkResult {
    pub result: Result<i32, BenchmarkError>,
    pub duration: Duration,
}

impl Benchmark {
    pub closed spec fn spec_impl_type(&self) -> ImplType {
        self.impl_type
    }

    pub closed spec fn spec_workload_type(&self) -> WorkloadType {
        self.workload_type
    }

    pub fn new(impl_type: &ImplType, workload_type: &WorkloadType) -> (r: Benchmark)
        ensures
            r.spec_impl_type() == *impl_type,
            r.spec_workload_type() == *workload_type,
    {
        Benchmark { impl_type: *impl_type, workload_type: *workload_type }
    }

    pub fn impl_type(&self) -> (r: ImplType)
        ensures
            r == self.spec_impl_type(),
    {
        self.impl_type
    }

    pub fn workload_type(&self) -> (r: WorkloadType)
        ensures
            r == self.spec_workload_type(),
    {
        self.workload_type
    }
}

} // verus!
