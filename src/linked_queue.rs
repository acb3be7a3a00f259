//! The linked-list queue over an arena of nodes.
//!
//! Nodes live in an arena and refer to each other by index. The list always
//! holds a sentinel: `head` is the sentinel, whose slot is empty, and the
//! payloads are in the slots of the nodes after it, up to `tail`. A push
//! links a new node after `tail`; a pop moves `head` to the next node and
//! takes that node's payload, which makes it the new sentinel. Every round
//! follows the decisions of `crate::protocol`.
//!
//! What becomes of an unlinked node depends on the protocol variant: under
//! `Full` and `Relaxed` it stays in the arena for good (it is never freed
//! nor reused, so an index can never come back to fool a comparison); under
//! `Epoch` it is retired to a reclamation context, which hands it back for
//! reuse only once no guarded section is open.

use vstd::prelude::*;
use crate::queue::Queue;
use crate::protocol::{
    Validation,
    PushAction,
    PopAction,
    push_action,
    pop_action,
    swings_tail_after_unlink,
    reclaims_nodes,
};

verus! {

/// No index occurs twice in `s`.
pub open spec fn distinct(s: Seq<usize>) -> bool {
    forall|j: int, k: int| 0 <= j < k < s.len() ==> s[j] != s[k]
}

/// No index of `s` occurs in `c`.
pub open spec fn disjoint(s: Seq<usize>, c: Seq<usize>) -> bool {
    forall|j: int, k: int| 0 <= j < s.len() && 0 <= k < c.len() ==> s[j] != c[k]
}

/// Every index of `s` is below `n`.
pub open spec fn below(s: Seq<usize>, n: nat) -> bool {
    forall|j: int| 0 <= j < s.len() ==> s[j] < n
}

/// The reclamation context of one queue: how many guarded sections are
/// open, the nodes unlinked but possibly still seen by an open section
/// (retired), and the nodes that no section can see any more (free).
struct ReclaimContext {
    active: u64,
    retired: Vec<usize>,
    free: Vec<usize>,
}

impl ReclaimContext {
    fn new() -> (r: ReclaimContext)
        ensures
            r.active == 0,
            r.retired@ == Seq::<usize>::empty(),
            r.free@ == Seq::<usize>::empty(),
    {
        ReclaimContext { active: 0, retired: Vec::new(), free: Vec::new() }
    }

    /// Opens a guarded section.
    fn enter(&mut self)
        requires
            old(self).active < u64::MAX,
        ensures
            final(self).active == old(self).active + 1,
            final(self).retired@ == old(self).retired@,
            final(self).free@ == old(self).free@,
    {
        self.active = self.active + 1;
    }

    /// Closes a guarded section; when it was the last one open, every
    /// retired node becomes free.
    fn leave(&mut self)
        requires
            old(self).active > 0,
        ensures
            final(self).active == old(self).active - 1,
            final(self).active == 0 ==> final(self).free@ == old(self).free@ + old(self).retired@
                && final(self).retired@.len() == 0,
            final(self).active > 0 ==> final(self).free@ == old(self).free@ && final(self).retired@
                == old(self).retired@,
    {
        self.active = self.active - 1;
        if self.active == 0 {
            self.free.append(&mut self.retired);
        }
    }

    /// Defers the reclamation of an unlinked node.
    fn retire(&mut self, n: usize)
        ensures
            final(self).active == old(self).active,
            final(self).retired@ == old(self).retired@.push(n),
            final(self).free@ == old(self).free@,
    {
        self.retired.push(n);
    }

    /// Takes a free node for reuse, if there is one.
    fn take_free(&mut self) -> (r: Option<usize>)
        ensures
            final(self).active == old(self).active,
            final(self).retired@ == old(self).retired@,
            old(self).free@.len() == 0 ==> r is None && final(self).free@ == old(self).free@,
            old(self).free@.len() > 0 ==> r == Some(old(self).free@.last()) && final(self).free@
                == old(self).free@.drop_last(),
    {
        self.free.pop()
    }
}

/// A Michael-Scott queue whose nodes are indices into an arena.
pub struct LinkedQueue<T> {
    slots: Vec<Option<T>>,
    links: Vec<Option<usize>>,
    head: usize,
    tail: usize,
    validation: Validation,
    ctx: ReclaimContext,
    chain: Ghost<Seq<usize>>,
}

impl<T> View for LinkedQueue<T> {
    type V = Seq<T>;

    /// The payloads from the node after `head` up to `tail`, oldest first.
    closed spec fn view(&self) -> Seq<T> {
        Seq::new(
            (self.chain@.len() - 1) as nat,
            |k: int| self.slots@[self.chain@[k + 1] as int].unwrap(),
        )
    }
}

impl<T> LinkedQueue<T> {
    /// The protocol variant this queue runs.
    pub closed spec fn variant(&self) -> Validation {
        self.validation
    }

    /// How many nodes the arena holds, reachable or not.
    pub closed spec fn arena_len(&self) -> nat {
        self.slots@.len()
    }

    /// The nodes reachable from `head`, in list order.
    pub closed spec fn live_nodes(&self) -> Seq<usize> {
        self.chain@
    }

    /// The nodes unlinked and waiting for every guarded section to close.
    pub closed spec fn retired_nodes(&self) -> Seq<usize> {
        self.ctx.retired@
    }

    /// The nodes reclaimed and available for reuse.
    pub closed spec fn freed_nodes(&self) -> Seq<usize> {
        self.ctx.free@
    }

    /// How many guarded sections are open.
    pub closed spec fn guards(&self) -> nat {
        self.ctx.active as nat
    }

    /// The list invariant: a sentinel at `head`, a chain of distinct
    /// in-bounds nodes from `head` to `tail` whose `next` links follow the
    /// chain and end at `tail`, an empty sentinel slot and full slots after
    /// it; retired and free nodes are never on the chain, and only the
    /// epoch variant has any.
    pub closed spec fn wf(&self) -> bool {
        let c = self.chain@;
        &&& self.slots@.len() == self.links@.len()
        &&& c.len() >= 1
        &&& c[0] == self.head
        &&& c[c.len() - 1] == self.tail
        &&& below(c, self.slots@.len())
        &&& distinct(c)
        &&& forall|k: int| 0 <= k < c.len() - 1 ==> self.links@[#[trigger] c[k] as int] == Some(c[k + 1])
        &&& self.links@[self.tail as int] is None
        &&& self.slots@[self.head as int] is None
        &&& forall|k: int| 1 <= k < c.len() ==> (#[trigger] self.slots@[c[k] as int]) is Some
        &&& self.ctx.active < u64::MAX
        &&& below(self.ctx.free@, self.slots@.len())
        &&& below(self.ctx.retired@, self.slots@.len())
        &&& distinct(self.ctx.free@ + self.ctx.retired@)
        &&& disjoint(self.ctx.free@ + self.ctx.retired@, c)
        &&& self.validation != Validation::Epoch ==> self.ctx.free@.len() == 0
            && self.ctx.retired@.len() == 0
    }

    /// An empty queue: one sentinel node, `head == tail`.
    pub fn new(validation: Validation) -> (r: LinkedQueue<T>)
        ensures
            r.wf(),
            r@ == Seq::<T>::empty(),
            r.variant() == validation,
            r.arena_len() == 1,
    {
        let mut slots: Vec<Option<T>> = Vec::new();
        slots.push(None);
        let mut links: Vec<Option<usize>> = Vec::new();
        links.push(None);
        let r = LinkedQueue {
            slots,
            links,
            head: 0,
            tail: 0,
            validation,
            ctx: ReclaimContext::new(),
            chain: Ghost(Seq::empty().push(0usize)),
        };
        assert(r@ =~= Seq::<T>::empty());
        r
    }

    /// Opens a guarded section that spans the calls made until the matching
    /// `unpin`: while any section is open, no unlinked node is reclaimed.
    pub fn pin(&mut self)
        requires
            old(self).wf(),
            old(self).guards() + 1 < u64::MAX,
        ensures
            final(self).wf(),
            final(self)@ == old(self)@,
            final(self).variant() == old(self).variant(),
            final(self).guards() == old(self).guards() + 1,
            final(self).retired_nodes() == old(self).retired_nodes(),
            final(self).freed_nodes() == old(self).freed_nodes(),
    {
        let ghost v = self@;
        self.ctx.enter();
        assert(self@ =~= v);
    }

    /// Closes a guarded section; when it was the last one open, every
    /// node retired meanwhile is reclaimed.
    pub fn unpin(&mut self)
        requires
            old(self).wf(),
            old(self).guards() > 0,
        ensures
            final(self).wf(),
            final(self)@ == old(self)@,
            final(self).variant() == old(self).variant(),
            final(self).guards() == old(self).guards() - 1,
            final(self).guards() == 0 ==> final(self).freed_nodes() == old(self).freed_nodes()
                + old(self).retired_nodes() && final(self).retired_nodes().len() == 0,
            final(self).guards() > 0 ==> final(self).freed_nodes() == old(self).freed_nodes()
                && final(self).retired_nodes() == old(self).retired_nodes(),
    {
        let ghost v = self@;
        let ghost ab = self.ctx.free@ + self.ctx.retired@;
        self.ctx.leave();
        assert(self.ctx.free@ + self.ctx.retired@ =~= ab);
        assert(self@ =~= v);
    }

    /// Appends `item` at the tail: one round of the push protocol, which
    /// under exclusive access always sees the true tail and links at once.
    pub fn push(&mut self, item: T)
        requires
            old(self).wf(),
        ensures
            final(self).wf(),
            final(self)@ == old(self)@.push(item),
            final(self).variant() == old(self).variant(),
            old(self).variant() != Validation::Epoch ==> final(self).arena_len() == old(
                self,
            ).arena_len() + 1,
            final(self).guards() == old(self).guards(),
            old(self).guards() > 0 ==> final(self).retired_nodes() == old(self).retired_nodes(),
    {
        let ghost c = self.chain@;
        let ghost old_view = self@;
        let reclaim = reclaims_nodes(self.validation);
        if reclaim {
            self.ctx.enter();
        }
        let ghost a = self.ctx.free@;
        let ghost b = self.ctx.retired@;
        let n: usize = match self.ctx.take_free() {
            Some(i) => {
                proof {
                    lemma_take_last(a, b, c);
                }
                self.slots.set(i, Some(item));
                self.links.set(i, None);
                i
            },
            None => {
                let i = self.slots.len();
                self.slots.push(Some(item));
                self.links.push(None);
                proof {
                    assert forall|j: int| 0 <= j < (a + b).len() implies (a + b)[j] < i by {
                        if j < a.len() {
                            assert((a + b)[j] == a[j]);
                        } else {
                            assert((a + b)[j] == b[j - a.len()]);
                        }
                    }
                    assert(disjoint(a + b, c.push(i)));
                }
                i
            },
        };
        let ghost a2 = self.ctx.free@;
        assert(forall|k: int| 0 <= k < c.len() ==> c[k] != n);
        assert(distinct(a2 + b) && disjoint(a2 + b, c.push(n)));
        let t = self.tail;
        let next = self.links[t];
        match push_action(self.validation, true, next.is_some()) {
            PushAction::Link => {
                self.links.set(t, Some(n));
                self.tail = n;
                self.chain = Ghost(c.push(n));
            },
            _ => {
                proof {
                    assert(false);
                }
            },
        }
        if reclaim {
            self.ctx.leave();
            proof {
                assert(self.ctx.free@ + self.ctx.retired@ =~= a2 + b);
            }
        }
        proof {
            let c2 = self.chain@;
            assert(forall|k: int| 0 <= k < c.len() ==> c2[k] == c[k]);
            assert forall|k: int| 0 <= k < c2.len() - 1 implies self.links@[#[trigger] c2[k] as int]
                == Some(c2[k + 1]) by {
                if k < c.len() - 1 {
                    assert(c[k] != c[c.len() - 1]);
                }
            }
            assert forall|k: int| 1 <= k < c2.len() implies (#[trigger] self.slots@[c2[k] as int]) is Some by {
            }
            assert(self@ =~= old_view.push(item));
        }
    }

    /// Removes and returns the payload after the sentinel, or nothing when
    /// the queue is empty: one round of the pop protocol. The unlinked
    /// sentinel is left in the arena, or retired under the epoch variant.
    pub fn pop(&mut self) -> (r: Option<T>)
        requires
            old(self).wf(),
        ensures
            final(self).wf(),
            final(self).variant() == old(self).variant(),
            old(self)@.len() == 0 ==> r is None && final(self)@ == old(self)@,
            old(self)@.len() > 0 ==> r == Some(old(self)@[0]) && final(self)@ == old(
                self,
            )@.drop_first(),
            old(self).variant() != Validation::Epoch ==> final(self).arena_len() == old(
                self,
            ).arena_len(),
            final(self).guards() == old(self).guards(),
            old(self).guards() > 0 ==> final(self).freed_nodes() == old(self).freed_nodes(),
    {
        let ghost c = self.chain@;
        let ghost old_view = self@;
        let reclaim = reclaims_nodes(self.validation);
        if reclaim {
            self.ctx.enter();
        }
        let ghost a = self.ctx.free@;
        let ghost b = self.ctx.retired@;
        let h = self.head;
        let t = self.tail;
        let next = self.links[h];
        proof {
            if c.len() >= 2 {
                assert(self.links@[c[0] as int] == Some(c[1]));
                assert(c[0] != c[c.len() - 1]);
            }
        }
        let r = match pop_action(self.validation, true, next.is_some(), h == t) {
            PopAction::Empty => None,
            PopAction::Unlink => {
                let n = next.unwrap();
                let mut taken: Option<T> = None;
                self.slots.set_and_swap(n, &mut taken);
                self.head = n;
                self.chain = Ghost(c.drop_first());
                if reclaim {
                    self.ctx.retire(h);
                    proof {
                        lemma_retire(a, b, c);
                    }
                }
                if swings_tail_after_unlink(self.validation, h == t) {
                    self.tail = n;
                }
                taken
            },
            _ => {
                proof {
                    assert(false);
                }
                None
            },
        };
        if reclaim {
            let ghost b2 = self.ctx.retired@;
            self.ctx.leave();
            proof {
                assert(self.ctx.free@ + self.ctx.retired@ =~= a + b2);
            }
        }
        proof {
            let c2 = self.chain@;
            if c.len() >= 2 {
                assert forall|k: int| 0 <= k < c2.len() - 1 implies self.links@[#[trigger] c2[k]
                    as int] == Some(c2[k + 1]) by {
                    assert(c2[k] == c[k + 1]);
                }
                assert forall|k: int| 1 <= k < c2.len() implies (#[trigger] self.slots@[c2[k]
                    as int]) is Some by {
                    assert(c2[k] == c[k + 1]);
                    assert(c[k + 1] != c[1]);
                }
                assert(self@ =~= old_view.drop_first()) by {
                    assert forall|k: int| 0 <= k < self@.len() implies self@[k] == old_view.drop_first()[k] by {
                        assert(c2[k + 1] == c[k + 2]);
                        assert(c[k + 2] != c[1]);
                    }
                }
            }
        }
        r
    }
}

/// Retiring the old sentinel keeps the pools distinct and off the
/// shortened chain.
proof fn lemma_retire(a: Seq<usize>, b: Seq<usize>, c: Seq<usize>)
    requires
        c.len() >= 1,
        distinct(c),
        distinct(a + b),
        disjoint(a + b, c),
    ensures
        distinct(a + b.push(c[0])),
        disjoint(a + b.push(c[0]), c.drop_first()),
{
    let ab = a + b;
    let ab2 = a + b.push(c[0]);
    assert(ab2 =~= ab.push(c[0]));
}

impl<T> Queue<T> for LinkedQueue<T> {
    open spec fn inv(&self) -> bool {
        self.wf()
    }

    fn pop(&mut self) -> (r: Option<T>) {
        LinkedQueue::pop(self)
    }

    fn push(&mut self, item: T) {
        LinkedQueue::push(self, item)
    }
}

/// Reclaimed nodes, and nodes waiting for reclamation, are never reachable
/// from `head`: no push or pop, which reach nodes only from `head` and
/// `tail`, can touch a node after it has been handed back for reuse.
pub proof fn lemma_reclaimed_unreachable<T>(q: &LinkedQueue<T>)
    requires
        q.wf(),
    ensures
        disjoint(q.freed_nodes(), q.live_nodes()),
        disjoint(q.retired_nodes(), q.live_nodes()),
{
    let a = q.freed_nodes();
    let b = q.retired_nodes();
    assert forall|j: int| 0 <= j < a.len() implies (a + b)[j] == a[j] by {}
    assert forall|j: int| 0 <= j < b.len() implies (a + b)[a.len() + j] == b[j] by {}
}

/// Taking the last free node leaves the pools distinct and off the chain
/// once that node joins it.
proof fn lemma_take_last(a: Seq<usize>, b: Seq<usize>, c: Seq<usize>)
    requires
        a.len() > 0,
        distinct(a + b),
        disjoint(a + b, c),
    ensures
        distinct(a.drop_last() + b),
        disjoint(a.drop_last() + b, c.push(a.last())),
        forall|k: int| 0 <= k < c.len() ==> c[k] != a.last(),
{
    let ab = a + b;
    let ab2 = a.drop_last() + b;
    assert forall|j: int| 0 <= j < ab2.len() implies #[trigger] ab2[j] == (if j < a.len() - 1 {
        ab[j]
    } else {
        ab[j + 1]
    }) by {}
    assert(ab[a.len() - 1] == a.last());
}

} // verus!
