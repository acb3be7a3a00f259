//! The decisions of the Michael-Scott two-pointer queue protocol.
//!
//! A push or pop on a linked-list queue is a retry loop: it loads the shared
//! `head`/`tail` pointers and a node's `next` pointer, decides what to do
//! from what it saw, attempts one compare-and-swap, and goes round again when
//! that fails. The loads and compare-and-swaps live with whichever executor
//! owns the nodes; the decision taken on each round lives here, once, for
//! the three variants of the protocol.

use vstd::prelude::*;

verus! {

/// How much re-validation a linked-list queue performs between its loads
/// and its compare-and-swap.
#[derive(Clone, Copy, Debug, PartialEq, Eq, Structural)]
pub enum Validation {
    /// Re-reads the shared pointer around each load and helps a lagging
    /// `tail` forward ("custom", never reclaims nodes).
    Full,
    /// Skips the first re-read and never helps a lagging `tail`, retrying
    /// instead ("dirty", never reclaims nodes). Its safety under every
    /// interleaving is not established here.
    Relaxed,
    /// No re-reads; every call runs inside a reclamation guard, and a pop
    /// that unlinks the node `tail` still points at moves `tail` on
    /// ("epoch", reclaims nodes once no guard can still see them).
    Epoch,
}

/// What a push does after one round of loads.
#[derive(Clone, Copy, Debug, PartialEq, Eq, Structural)]
pub enum PushAction {
    /// Start the round again.
    Retry,
    /// Move the shared `tail` from the loaded tail to its successor, then
    /// start again.
    HelpTail,
    /// Try to link the new node after the loaded tail (next: null -> new);
    /// on success the push is committed, and it then tries to move `tail`
    /// to the new node.
    Link,
}

/// What a pop does after one round of loads.
#[derive(Clone, Copy, Debug, PartialEq, Eq, Structural)]
pub enum PopAction {
    /// Start the round again.
    Retry,
    /// The queue was empty when `head.next` was loaded: return nothing.
    Empty,
    /// Move the shared `tail` from the loaded tail to `head.next`, then
    /// start again.
    HelpTail,
    /// Try to move `head` to `head.next`; on success the caller owns the
    /// payload of `head.next`.
    Unlink,
}

/// The push decision for one round.
///
/// `tail_unchanged`: every re-read of `tail` that the variant performs saw
/// the value first loaded. `next_linked`: the loaded tail's `next` was
/// non-null.
pub fn push_action(v: Validation, tail_unchanged: bool, next_linked: bool) -> (r: PushAction)
    ensures
        r == PushAction::Link <==> !next_linked && (tail_unchanged || v == Validation::Epoch),
        r == PushAction::HelpTail <==> v == Validation::Full && tail_unchanged && next_linked,
{
    match v {
        Validation::Full => {
            if !tail_unchanged {
                PushAction::Retry
            } else if next_linked {
                PushAction::HelpTail
            } else {
                PushAction::Link
            }
        },
        Validation::Relaxed => {
            if !tail_unchanged || next_linked {
                PushAction::Retry
            } else {
                PushAction::Link
            }
        },
        Validation::Epoch => {
            if next_linked {
                PushAction::Retry
            } else {
                PushAction::Link
            }
        },
    }
}

/// The pop decision for one round.
///
/// `head_unchanged`: every re-read of `head` that the variant performs saw
/// the value first loaded. `next_linked`: the loaded head's `next` was
/// non-null. `head_is_tail`: the loaded head and tail were the same node.
pub fn pop_action(v: Validation, head_unchanged: bool, next_linked: bool, head_is_tail: bool) -> (r:
    PopAction)
    ensures
        r == PopAction::Empty <==> !next_linked && (head_unchanged || v != Validation::Full),
        r == PopAction::HelpTail <==> v == Validation::Full && head_unchanged && next_linked
            && head_is_tail,
        r == PopAction::Unlink <==> next_linked && (v == Validation::Epoch || (!head_is_tail && (
        head_unchanged || v == Validation::Relaxed))),
{
    match v {
        Validation::Full => {
            if !head_unchanged {
                PopAction::Retry
            } else if !next_linked {
                PopAction::Empty
            } else if head_is_tail {
                PopAction::HelpTail
            } else {
                PopAction::Unlink
            }
        },
        Validation::Relaxed => {
            if !next_linked {
                PopAction::Empty
            } else if head_is_tail {
                PopAction::Retry
            } else {
                PopAction::Unlink
            }
        },
        Validation::Epoch => {
            if !next_linked {
                PopAction::Empty
            } else {
                PopAction::Unlink
            }
        },
    }
}

/// After a successful unlink: whether the pop must also try to move `tail`
/// from the unlinked node to its successor. Only the epoch variant does, and
/// only when the unlinked node was the tail it loaded.
pub fn swings_tail_after_unlink(v: Validation, unlinked_was_tail: bool) -> (r: bool)
    ensures
        r == (v == Validation::Epoch && unlinked_was_tail),
{
    match v {
        Validation::Epoch => unlinked_was_tail,
        _ => false,
    }
}

/// Whether nodes unlinked under this variant are handed to deferred
/// reclamation (otherwise they are never freed nor reused).
pub fn reclaims_nodes(v: Validation) -> (r: bool)
    ensures
        r == (v == Validation::Epoch),
{
    match v {
        Validation::Epoch => true,
        _ => false,
    }
}

} // verus!
