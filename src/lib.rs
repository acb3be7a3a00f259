//! Concurrent multi-producer/multi-consumer queues and the workload logic
//! that exercises them.

pub mod prime;
pub mod protocol;
pub mod queue;
pub mod linked_queue;
pub mod sync_queue;
pub mod kernels;
pub mod benchmark;
pub mod cmdoptions;
