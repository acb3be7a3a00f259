//! Queues shared between threads, and the factory that picks one.
//!
//! Every queue here is used through `&self` from many threads at once, so
//! what one pop returns depends on what every other thread did meanwhile:
//! their contracts promise nothing about contents. The FIFO behaviour of the
//! linked-list protocol is stated and proved on `LinkedQueue`.

use vstd::prelude::*;
use std::collections::VecDeque;
use crate::protocol::Validation;

verus! {

/// std's operating-system mutex, carried opaquely.
#[verifier::external_type_specification]
#[verifier::external_body]
#[verifier::reject_recursive_types(T)]
pub struct ExStdMutex<T: ?Sized>(std::sync::Mutex<T>);

/// spin's busy-waiting mutex, carried opaquely.
#[verifier::external_type_specification]
#[verifier::external_body]
#[verifier::reject_recursive_types(T)]
#[verifier::reject_recursive_types(R)]
pub struct ExSpinMutex<T: ?Sized, R>(spin::mutex::Mutex<T, R>);

/// spin's default relax strategy (a spin-loop hint), named by `spin::Mutex`.
#[verifier::external_type_specification]
#[verifier::external_body]
pub struct ExSpin(spin::relax::Spin);

/// crossbeam's segmented MPMC queue, carried opaquely.
#[verifier::external_type_specification]
#[verifier::external_body]
#[verifier::reject_recursive_types(T)]
pub struct ExSegQueue<T>(crossbeam_queue::SegQueue<T>);

/// Relies on std::sync::Mutex::new to build an unlocked mutex; nothing
/// about it is stated.
pub assume_specification<T>[ std::sync::Mutex::<T>::new ](t: T) -> std::sync::Mutex<T>;

/// Relies on spin::mutex::Mutex::new to build an unlocked spin lock;
/// nothing about it is stated.
pub assume_specification<T, R>[ spin::mutex::Mutex::<T, R>::new ](value: T) -> spin::mutex::Mutex<
    T,
    R,
>;

/// Relies on crossbeam_queue::SegQueue::new to build an empty queue;
/// nothing about it is stated.
pub assume_specification<T>[ crossbeam_queue::SegQueue::<T>::new ]() -> crossbeam_queue::SegQueue<T>;

/// Relies on crossbeam_queue::SegQueue::push, which appends at the tail.
#[verifier::external_body]
fn seg_push<T>(q: &crossbeam_queue::SegQueue<T>, item: T) {
    q.push(item)
}

/// Relies on crossbeam_queue::SegQueue::pop, which takes from the head or
/// returns None when empty.
#[verifier::external_body]
fn seg_pop<T>(q: &crossbeam_queue::SegQueue<T>) -> Option<T> {
    q.pop()
}

/// Relies on lockfree::queue::Queue::new, an empty queue.
#[verifier::external_body]
fn lockfree_new<T>() -> LockfreeQueue<T> {
    LockfreeQueue { q: lockfree::queue::Queue::new() }
}

/// Relies on lockfree::queue::Queue::push, which appends at the back.
#[verifier::external_body]
fn lockfree_push<T>(q: &LockfreeQueue<T>, item: T) {
    q.q.push(item)
}

/// Relies on lockfree::queue::Queue::pop, which takes from the front or
/// returns None when empty.
#[verifier::external_body]
fn lockfree_pop<T>(q: &LockfreeQueue<T>) -> Option<T> {
    q.q.pop()
}

/// Relies on std::sync::Mutex::lock for exclusive access to the deque
/// during one push_back; a poisoned lock still hands the deque over. The
/// guard cannot leave this call, so the deque operation under it is here.
#[verifier::external_body]
fn mutex_push_back<T>(m: &std::sync::Mutex<VecDeque<T>>, item: T) {
    let mut q = m.lock().unwrap_or_else(std::sync::PoisonError::into_inner);
    q.push_back(item);
}

/// Relies on std::sync::Mutex::lock for exclusive access to the deque
/// during one pop_front; a poisoned lock still hands the deque over. The
/// guard cannot leave this call, so the deque operation under it is here.
#[verifier::external_body]
fn mutex_pop_front<T>(m: &std::sync::Mutex<VecDeque<T>>) -> Option<T> {
    let mut q = m.lock().unwrap_or_else(std::sync::PoisonError::into_inner);
    q.pop_front()
}

/// Relies on spin::mutex::Mutex::lock (busy-waits until acquired) for
/// exclusive access to the deque during one push_back.
#[verifier::external_body]
fn spin_push_back<T>(m: &spin::Mutex<VecDeque<T>>, item: T) {
    m.lock().push_back(item);
}

/// Relies on spin::mutex::Mutex::lock (busy-waits until acquired) for
/// exclusive access to the deque during one pop_front.
#[verifier::external_body]
fn spin_pop_front<T>(m: &spin::Mutex<VecDeque<T>>) -> Option<T> {
    m.lock().pop_front()
}

/// A queue that many threads push to and pop from at once, without any
/// lock around it.
pub trait SyncQueue<T>: Send + Sync {
    /// Removes and returns the element at the head, or nothing when the
    /// queue is empty at that moment.
    fn pop(&self) -> Option<T>;

    /// Appends an element at the tail.
    fn push(&self, item: T);
}

/// Which queue implementation a benchmark runs against.
#[derive(Clone, Copy, Debug, PartialEq, Eq, Structural)]
pub enum ImplType {
    MutexLock,
    SpinLock,
    Crossbeam,
    Lockfree,
    Custom,
    Dirty,
    Epoch,
}

/// A deque behind an operating-system mutex.
#[verifier::reject_recursive_types(T)]
pub struct MutexQueue<T> {
    lockedq: std::sync::Mutex<VecDeque<T>>,
}

impl<T> MutexQueue<T> {
    pub fn new() -> MutexQueue<T> {
        MutexQueue { lockedq: std::sync::Mutex::new(VecDeque::new()) }
    }
}

impl<T: Send> SyncQueue<T> for MutexQueue<T> {
    fn pop(&self) -> Option<T> {
        mutex_pop_front(&self.lockedq)
    }

    fn push(&self, item: T) {
        mutex_push_back(&self.lockedq, item)
    }
}

/// A deque behind a busy-wait spin lock.
#[verifier::reject_recursive_types(T)]
pub struct SpinQueue<T> {
    lockedq: spin::Mutex<VecDeque<T>>,
}

impl<T> SpinQueue<T> {
    pub fn new() -> SpinQueue<T> {
        SpinQueue { lockedq: spin::Mutex::new(VecDeque::new()) }
    }
}

impl<T: Send> SyncQueue<T> for SpinQueue<T> {
    fn pop(&self) -> Option<T> {
        spin_pop_front(&self.lockedq)
    }

    fn push(&self, item: T) {
        spin_push_back(&self.lockedq, item)
    }
}

/// crossbeam's segmented lock-free queue.
#[verifier::reject_recursive_types(T)]
pub struct CrossbeamQueue<T> {
    q: crossbeam_queue::SegQueue<T>,
}

impl<T> CrossbeamQueue<T> {
    pub fn new() -> CrossbeamQueue<T> {
        CrossbeamQueue { q: crossbeam_queue::SegQueue::new() }
    }
}

impl<T: Send> SyncQueue<T> for CrossbeamQueue<T> {
    fn pop(&self) -> Option<T> {
        seg_pop(&self.q)
    }

    fn push(&self, item: T) {
        seg_push(&self.q, item)
    }
}

/// The lockfree crate's queue. Its type shares a name with this crate's
/// `Queue` trait, so it is held in a field that Verus does not read.
#[verifier::external_body]
#[verifier::reject_recursive_types(T)]
pub struct LockfreeQueue<T> {
    q: lockfree::queue::Queue<T>,
}

impl<T> LockfreeQueue<T> {
    pub fn new() -> LockfreeQueue<T> {
        lockfree_new()
    }
}

impl<T: Send> SyncQueue<T> for LockfreeQueue<T> {
    fn pop(&self) -> Option<T> {
        lockfree_pop(self)
    }

    fn push(&self, item: T) {
        lockfree_push(self, item)
    }
}

/// What the factory builds for one `ImplType`: a fresh, empty queue.
#[verifier::reject_recursive_types(T)]
pub enum QueueImpl<T> {
    MutexLock(MutexQueue<T>),
    SpinLock(SpinQueue<T>),
    Crossbeam(CrossbeamQueue<T>),
    Lockfree(LockfreeQueue<T>),
    /// A linked-list queue running this protocol variant. Its concurrent
    /// form links nodes by raw pointer, which this library does not hold:
    /// the caller builds that queue, taking every decision from
    /// `crate::protocol` with this variant.
    LinkedList(Validation),
}

/// The protocol variant that a linked-list implementation runs; none for
/// the lock-based and library queues.
pub open spec fn linked_variant(t: ImplType) -> Option<Validation> {
    match t {
        ImplType::Custom => Some(Validation::Full),
        ImplType::Dirty => Some(Validation::Relaxed),
        ImplType::Epoch => Some(Validation::Epoch),
        _ => None,
    }
}

/// Builds a fresh, empty queue of the chosen implementation.
pub fn create_impl<T>(t: &ImplType) -> (r: QueueImpl<T>)
    ensures
        r is MutexLock <==> *t == ImplType::MutexLock,
        r is SpinLock <==> *t == ImplType::SpinLock,
        r is Crossbeam <==> *t == ImplType::Crossbeam,
        r is Lockfree <==> *t == ImplType::Lockfree,
        r is LinkedList <==> linked_variant(*t) is Some,
        r is LinkedList ==> Some(r->LinkedList_0) == linked_variant(*t),
{
    match t {
        ImplType::MutexLock => QueueImpl::MutexLock(MutexQueue::new()),
        ImplType::SpinLock => QueueImpl::SpinLock(SpinQueue::new()),
        ImplType::Crossbeam => QueueImpl::Crossbeam(CrossbeamQueue::new()),
        ImplType::Lockfree => QueueImpl::Lockfree(LockfreeQueue::new()),
        ImplType::Custom => QueueImpl::LinkedList(Validation::Full),
        ImplType::Dirty => QueueImpl::LinkedList(Validation::Relaxed),
        ImplType::Epoch => QueueImpl::LinkedList(Validation::Epoch),
    }
}

} // verus!
