use rust_lockfree::linked_queue::LinkedQueue;
use rust_lockfree::protocol::{
    pop_action, push_action, reclaims_nodes, swings_tail_after_unlink, PopAction, PushAction,
    Validation,
};
use rust_lockfree::queue::Queue;
use rust_lockfree::sync_queue::{
    create_impl, CrossbeamQueue, ImplType, LockfreeQueue, MutexQueue, QueueImpl, SpinQueue,
    SyncQueue,
};

const VARIANTS: [Validation; 3] = [Validation::Full, Validation::Relaxed, Validation::Epoch];

#[test]
fn linked_queue_is_fifo() {
    for v in VARIANTS {
        let mut q: LinkedQueue<u64> = LinkedQueue::new(v);
        for x in [5u64, 1, 9, 9, 0, 42] {
            q.push(x);
        }
        let mut out = vec![];
        for _ in 0..6 {
            out.push(q.pop());
        }
        assert_eq!(out, vec![Some(5), Some(1), Some(9), Some(9), Some(0), Some(42)]);
        assert_eq!(q.pop(), None);
    }
}

#[test]
fn linked_queue_fresh_pop_is_empty() {
    for v in VARIANTS {
        let mut q: LinkedQueue<String> = LinkedQueue::new(v);
        assert_eq!(q.pop(), None);
        assert_eq!(q.pop(), None);
    }
}

#[test]
fn linked_queue_interleaved_push_pop() {
    for v in VARIANTS {
        let mut q: LinkedQueue<u64> = LinkedQueue::new(v);
        q.push(1);
        q.push(2);
        assert_eq!(q.pop(), Some(1));
        q.push(3);
        assert_eq!(q.pop(), Some(2));
        assert_eq!(q.pop(), Some(3));
        assert_eq!(q.pop(), None);
        q.push(4);
        assert_eq!(q.pop(), Some(4));
    }
}

#[test]
fn linked_queue_epoch_reuses_nodes_in_order() {
    // Many rounds through a reclaiming queue keep handing out the right
    // payloads while unlinked nodes are recycled.
    let mut q: LinkedQueue<u64> = LinkedQueue::new(Validation::Epoch);
    let mut expected = std::collections::VecDeque::new();
    for round in 0..200u64 {
        for k in 0..(round % 7) {
            q.push(round * 10 + k);
            expected.push_back(round * 10 + k);
        }
        for _ in 0..(round % 5) {
            assert_eq!(q.pop(), expected.pop_front());
        }
    }
    while let Some(x) = expected.pop_front() {
        assert_eq!(q.pop(), Some(x));
    }
    assert_eq!(q.pop(), None);
}

#[test]
fn linked_queue_through_queue_trait() {
    fn fill<Q: Queue<u64>>(q: &mut Q, n: u64) {
        for i in 0..n {
            q.push(i);
        }
    }
    let mut q: LinkedQueue<u64> = LinkedQueue::new(Validation::Full);
    fill(&mut q, 4);
    assert_eq!(Queue::pop(&mut q), Some(0));
    assert_eq!(Queue::pop(&mut q), Some(1));
}

#[test]
fn push_decisions() {
    assert_eq!(push_action(Validation::Full, true, false), PushAction::Link);
    assert_eq!(push_action(Validation::Full, true, true), PushAction::HelpTail);
    assert_eq!(push_action(Validation::Full, false, false), PushAction::Retry);
    assert_eq!(push_action(Validation::Relaxed, true, true), PushAction::Retry);
    assert_eq!(push_action(Validation::Relaxed, false, false), PushAction::Retry);
    assert_eq!(push_action(Validation::Relaxed, true, false), PushAction::Link);
    assert_eq!(push_action(Validation::Epoch, false, false), PushAction::Link);
    assert_eq!(push_action(Validation::Epoch, true, true), PushAction::Retry);
}

#[test]
fn pop_decisions() {
    assert_eq!(pop_action(Validation::Full, false, true, false), PopAction::Retry);
    assert_eq!(pop_action(Validation::Full, true, false, true), PopAction::Empty);
    assert_eq!(pop_action(Validation::Full, true, true, true), PopAction::HelpTail);
    assert_eq!(pop_action(Validation::Full, true, true, false), PopAction::Unlink);
    assert_eq!(pop_action(Validation::Relaxed, false, false, true), PopAction::Empty);
    assert_eq!(pop_action(Validation::Relaxed, true, true, true), PopAction::Retry);
    assert_eq!(pop_action(Validation::Relaxed, false, true, false), PopAction::Unlink);
    assert_eq!(pop_action(Validation::Epoch, true, true, true), PopAction::Unlink);
    assert_eq!(pop_action(Validation::Epoch, true, false, false), PopAction::Empty);
    assert!(swings_tail_after_unlink(Validation::Epoch, true));
    assert!(!swings_tail_after_unlink(Validation::Epoch, false));
    assert!(!swings_tail_after_unlink(Validation::Full, true));
    assert!(reclaims_nodes(Validation::Epoch));
    assert!(!reclaims_nodes(Validation::Relaxed));
}

fn sequential_fifo<Q: SyncQueue<u64>>(q: &Q) {
    assert_eq!(q.pop(), None);
    for x in [3u64, 1, 4, 1, 5] {
        q.push(x);
    }
    let mut out = vec![];
    while let Some(x) = q.pop() {
        out.push(x);
    }
    assert_eq!(out, vec![3, 1, 4, 1, 5]);
}

#[test]
fn shared_queues_are_fifo_sequentially() {
    sequential_fifo(&MutexQueue::new());
    sequential_fifo(&SpinQueue::new());
    sequential_fifo(&CrossbeamQueue::new());
    sequential_fifo(&LockfreeQueue::new());
}

#[test]
fn factory_maps_every_kind() {
    assert!(matches!(create_impl::<u64>(&ImplType::MutexLock), QueueImpl::MutexLock(_)));
    assert!(matches!(create_impl::<u64>(&ImplType::SpinLock), QueueImpl::SpinLock(_)));
    assert!(matches!(create_impl::<u64>(&ImplType::Crossbeam), QueueImpl::Crossbeam(_)));
    assert!(matches!(create_impl::<u64>(&ImplType::Lockfree), QueueImpl::Lockfree(_)));
    assert!(matches!(
        create_impl::<u64>(&ImplType::Custom),
        QueueImpl::LinkedList(Validation::Full)
    ));
    assert!(matches!(
        create_impl::<u64>(&ImplType::Dirty),
        QueueImpl::LinkedList(Validation::Relaxed)
    ));
    assert!(matches!(
        create_impl::<u64>(&ImplType::Epoch),
        QueueImpl::LinkedList(Validation::Epoch)
    ));
}

#[test]
fn factory_builds_independent_queues() {
    for t in [ImplType::MutexLock, ImplType::SpinLock, ImplType::Crossbeam, ImplType::Lockfree] {
        let (a, b) = (create_impl::<u64>(&t), create_impl::<u64>(&t));
        match (a, b) {
            (QueueImpl::MutexLock(a), QueueImpl::MutexLock(b)) => independent(&a, &b),
            (QueueImpl::SpinLock(a), QueueImpl::SpinLock(b)) => independent(&a, &b),
            (QueueImpl::Crossbeam(a), QueueImpl::Crossbeam(b)) => independent(&a, &b),
            (QueueImpl::Lockfree(a), QueueImpl::Lockfree(b)) => independent(&a, &b),
            _ => panic!("unexpected kind"),
        }
    }
}

fn independent<Q: SyncQueue<u64>>(a: &Q, b: &Q) {
    a.push(7);
    assert_eq!(b.pop(), None);
    assert_eq!(a.pop(), Some(7));
}

/// Producers and consumers interleaved round-robin on one thread: four
/// producers with disjoint values, three consumers, each pop by the next
/// consumer in turn.
fn interleaved_multiset<Q: SyncQueue<u64>>(q: &Q) {
    let producers = 4u64;
    let per = 500u64;
    let mut seen: Vec<Vec<u64>> = vec![vec![], vec![], vec![]];
    let mut turn = 0;
    for i in 0..per {
        for p in 0..producers {
            q.push(p * per + i);
            if (i + p) % 3 == 0 {
                if let Some(x) = q.pop() {
                    seen[turn % 3].push(x);
                }
                turn += 1;
            }
        }
    }
    loop {
        match q.pop() {
            Some(x) => seen[turn % 3].push(x),
            None => break,
        }
        turn += 1;
    }
    let mut all: Vec<u64> = seen.concat();
    all.sort();
    let expected: Vec<u64> = (0..producers * per).collect();
    assert_eq!(all, expected);
}

#[test]
fn interleaved_pops_see_every_push_once() {
    interleaved_multiset(&MutexQueue::new());
    interleaved_multiset(&SpinQueue::new());
    interleaved_multiset(&CrossbeamQueue::new());
    interleaved_multiset(&LockfreeQueue::new());
}

#[test]
fn linked_queue_pinned_sections_keep_order() {
    let mut q: LinkedQueue<u64> = LinkedQueue::new(Validation::Epoch);
    q.pin();
    for i in 0..50u64 {
        q.push(i);
    }
    for i in 0..25u64 {
        assert_eq!(q.pop(), Some(i));
    }
    q.pin();
    q.push(50);
    q.unpin();
    q.unpin();
    for i in 25..51u64 {
        q.push(100 + i);
        assert_eq!(q.pop(), Some(i));
    }
    for i in 25..51u64 {
        assert_eq!(q.pop(), Some(100 + i));
    }
    assert_eq!(q.pop(), None);
}
