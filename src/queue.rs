//! The exclusive-access queue interface and its FIFO law.

use vstd::prelude::*;

verus! {

/// The payload a pop returns from contents `s`: the oldest, if any.
pub open spec fn front<T>(s: Seq<T>) -> Option<T> {
    if s.len() == 0 {
        None
    } else {
        Some(s[0])
    }
}

/// The contents after a pop from contents `s`.
pub open spec fn after_pop<T>(s: Seq<T>) -> Seq<T> {
    if s.len() == 0 {
        s
    } else {
        s.drop_first()
    }
}

/// The contents after pushing `ps[0]`, `ps[1]`, ... in turn onto `s`.
pub open spec fn push_all<T>(s: Seq<T>, ps: Seq<T>) -> Seq<T>
    decreases ps.len(),
{
    if ps.len() == 0 {
        s
    } else {
        push_all(s.push(ps[0]), ps.drop_first())
    }
}

/// What `n` pops in a row return, starting from contents `s`.
pub open spec fn pop_n<T>(s: Seq<T>, n: nat) -> Seq<Option<T>>
    decreases n,
{
    if n == 0 {
        Seq::empty()
    } else {
        seq![front(s)] + pop_n(after_pop(s), (n - 1) as nat)
    }
}

/// A FIFO queue used through exclusive (`&mut`) access.
pub trait Queue<T>: View<V = Seq<T>> + Sized {
    /// The implementation's own invariant.
    spec fn inv(&self) -> bool;

    /// Removes and returns the oldest payload, or nothing when empty.
    fn pop(&mut self) -> (r: Option<T>)
        requires
            old(self).inv(),
        ensures
            final(self).inv(),
            r == front(old(self)@),
            final(self)@ == after_pop(old(self)@),
    ;

    /// Appends a payload.
    fn push(&mut self, item: T)
        requires
            old(self).inv(),
        ensures
            final(self).inv(),
            final(self)@ == old(self)@.push(item),
    ;
}

proof fn lemma_push_all<T>(s: Seq<T>, ps: Seq<T>)
    ensures
        push_all(s, ps) == s + ps,
    decreases ps.len(),
{
    if ps.len() > 0 {
        lemma_push_all(s.push(ps[0]), ps.drop_first());
        assert(s.push(ps[0]) + ps.drop_first() =~= s + ps);
    } else {
        assert(s + ps =~= s);
    }
}

proof fn lemma_pop_all<T>(s: Seq<T>)
    ensures
        pop_n(s, s.len()) == s.map_values(|x: T| Some(x)),
    decreases s.len(),
{
    if s.len() > 0 {
        lemma_pop_all(s.drop_first());
        assert(pop_n(s, s.len()) =~= s.map_values(|x: T| Some(x)));
    } else {
        assert(pop_n(s, 0) =~= s.map_values(|x: T| Some(x)));
    }
}

/// FIFO under sequential use: starting from an empty queue, pushing
/// `p1 .. pn` and then popping `n` times returns `p1 .. pn` in that order,
/// for every implementation of `Queue` (each step as its `push` and `pop`
/// contracts state it).
pub proof fn lemma_fifo<T>(ps: Seq<T>)
    ensures
        pop_n(push_all(Seq::<T>::empty(), ps), ps.len()) == ps.map_values(|x: T| Some(x)),
{
    lemma_push_all(Seq::<T>::empty(), ps);
    assert(Seq::<T>::empty() + ps =~= ps);
    lemma_pop_all(ps);
}

/// A pop on a queue that holds nothing returns nothing and changes nothing.
pub proof fn lemma_pop_empty<T>()
    ensures
        front(Seq::<T>::empty()) is None,
        after_pop(Seq::<T>::empty()) == Seq::<T>::empty(),
{
}

/// One operation of a history on a queue.
pub enum Op<T> {
    Push(T),
    Pop,
}

/// The contents after `op` on contents `s`, and what `op` returned (the
/// popped payload, if any), as the `Queue` contracts state them.
pub open spec fn apply_op<T>(s: Seq<T>, op: Op<T>) -> (Seq<T>, Seq<T>) {
    match op {
        Op::Push(x) => (s.push(x), Seq::empty()),
        Op::Pop => (after_pop(s), if s.len() == 0 {
            Seq::empty()
        } else {
            seq![s[0]]
        }),
    }
}

/// The contents after the history `ops` on contents `s`, and every payload
/// its pops returned, in order.
pub open spec fn apply_ops<T>(s: Seq<T>, ops: Seq<Op<T>>) -> (Seq<T>, Seq<T>)
    decreases ops.len(),
{
    if ops.len() == 0 {
        (s, Seq::empty())
    } else {
        let (s1, out1) = apply_op(s, ops[0]);
        let (s2, out2) = apply_ops(s1, ops.drop_first());
        (s2, out1 + out2)
    }
}

/// The payloads that the history `ops` pushes, in order.
pub open spec fn pushed<T>(ops: Seq<Op<T>>) -> Seq<T>
    decreases ops.len(),
{
    if ops.len() == 0 {
        Seq::empty()
    } else {
        match ops[0] {
            Op::Push(x) => seq![x] + pushed(ops.drop_first()),
            Op::Pop => pushed(ops.drop_first()),
        }
    }
}

/// No payload is lost, duplicated or reordered: for every history of
/// pushes and pops, taken one at a time in any interleaving, what the pops
/// returned followed by what is left is the initial contents followed by
/// the pushed payloads. In particular the multiset of popped and remaining
/// payloads is the multiset of initial and pushed ones.
pub proof fn lemma_history<T>(s: Seq<T>, ops: Seq<Op<T>>)
    ensures
        apply_ops(s, ops).1 + apply_ops(s, ops).0 == s + pushed(ops),
        apply_ops(s, ops).1.to_multiset().add(apply_ops(s, ops).0.to_multiset())
            == s.to_multiset().add(pushed(ops).to_multiset()),
    decreases ops.len(),
{
    let (c, out) = apply_ops(s, ops);
    if ops.len() == 0 {
        assert(out + c =~= s + pushed(ops));
    } else {
        let (s1, out1) = apply_op(s, ops[0]);
        lemma_history(s1, ops.drop_first());
        let (c2, out2) = apply_ops(s1, ops.drop_first());
        match ops[0] {
            Op::Push(x) => {
                assert(out + c =~= s + pushed(ops));
            },
            Op::Pop => {
                if s.len() == 0 {
                    assert(out + c =~= s + pushed(ops));
                } else {
                    assert(out == seq![s[0]] + out2);
                    assert(out + c =~= seq![s[0]] + (out2 + c2));
                    assert(seq![s[0]] + (s.drop_first() + pushed(ops.drop_first())) =~= s + pushed(
                        ops,
                    ));
                }
            },
        }
    }
    vstd::seq_lib::lemma_multiset_commutative(out, c);
    vstd::seq_lib::lemma_multiset_commutative(s, pushed(ops));
}

} // verus!
