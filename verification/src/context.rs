//! The cancellation tree.
//!
//! Contexts form a tree: each call runs under one node, children derive
//! from parents, and a node counts as cancelled when its own flag or any
//! ancestor's flag is set.  So cancelling a parent makes every child —
//! derived at any earlier time — observably cancelled, while cancelling a
//! child never propagates upward.  Cancellation is idempotent: the flag
//! only ever latches.
//!
//! The tree is a plain value; the caller owns it and maps its node ids to
//! whatever wake-up machinery the runtime provides.

use vstd::prelude::*;

verus! {

/// One node of the tree.
struct ContextNode {
    parent: Option<usize>,
    cancelled: bool,
}

/// Mathematical model of one node.
#[verifier::ext_equal]
pub ghost struct ContextNodeV {
    pub parent: Option<int>,
    pub cancelled: bool,
}

/// Whether a node list is well formed: every parent comes strictly before
/// its child.
pub open spec fn ctx_wf(s: Seq<ContextNodeV>) -> bool {
    forall|i: int|
        0 <= i < s.len() ==> match #[trigger] s[i].parent {
            Some(p) => 0 <= p < i,
            None => true,
        }
}

/// Whether node `i` is observably cancelled: its own flag, or an
/// ancestor's.
pub open spec fn spec_is_cancelled(s: Seq<ContextNodeV>, i: int) -> bool
    decreases i,
{
    if 0 <= i < s.len() {
        s[i].cancelled || match s[i].parent {
            Some(p) => if 0 <= p < i {
                spec_is_cancelled(s, p)
            } else {
                false
            },
            None => false,
        }
    } else {
        false
    }
}

/// Whether node `a` is node `i` itself or one of its ancestors.
pub open spec fn spec_is_ancestor(s: Seq<ContextNodeV>, a: int, i: int) -> bool
    decreases i,
{
    if 0 <= i < s.len() {
        i == a || match s[i].parent {
            Some(p) => if 0 <= p < i {
                spec_is_ancestor(s, a, p)
            } else {
                false
            },
            None => false,
        }
    } else {
        false
    }
}

/// The node list after cancelling node `a`.
pub open spec fn spec_cancel(s: Seq<ContextNodeV>, a: int) -> Seq<ContextNodeV> {
    s.update(a, ContextNodeV { cancelled: true, ..s[a] })
}

/// An ancestor never comes after its descendant.
proof fn lemma_ancestor_le(s: Seq<ContextNodeV>, a: int, i: int)
    requires
        spec_is_ancestor(s, a, i),
    ensures
        a <= i,
    decreases i,
{
    if i != a {
        match s[i].parent {
            Some(p) => {
                if 0 <= p < i {
                    lemma_ancestor_le(s, a, p);
                }
            },
            None => {},
        }
    }
}

/// Cancelling a node makes every node it is an ancestor of — every child
/// derived from it, however early — observably cancelled.
pub proof fn lemma_cancel_reaches_descendants(s: Seq<ContextNodeV>, a: int, i: int)
    requires
        0 <= a < s.len(),
        spec_is_ancestor(s, a, i),
    ensures
        spec_is_cancelled(spec_cancel(s, a), i),
    decreases i,
{
    let s2 = spec_cancel(s, a);
    if i == a {
        assert(s2[i].cancelled);
    } else {
        match s[i].parent {
            Some(p) => {
                if 0 <= p < i {
                    lemma_cancel_reaches_descendants(s, a, p);
                }
            },
            None => {},
        }
    }
}

/// Cancelling a node that is not among another node's ancestors leaves
/// that node's observable cancellation unchanged; in particular a
/// cancelled child never cancels its parent.
pub proof fn lemma_cancel_stays_below(s: Seq<ContextNodeV>, a: int, i: int)
    requires
        0 <= a < s.len(),
        !spec_is_ancestor(s, a, i),
    ensures
        spec_is_cancelled(spec_cancel(s, a), i) == spec_is_cancelled(s, i),
    decreases i,
{
    let s2 = spec_cancel(s, a);
    if 0 <= i < s.len() {
        match s[i].parent {
            Some(p) => {
                if 0 <= p < i {
                    lemma_cancel_stays_below(s, a, p);
                }
            },
            None => {},
        }
    }
}

/// A child comes strictly after its parent, so it is never the parent's
/// ancestor: cancelling the child leaves the parent not cancelled.
pub proof fn lemma_cancel_child_spares_parent(s: Seq<ContextNodeV>, parent: int, child: int)
    requires
        0 <= parent < s.len(),
        0 <= child < s.len(),
        parent < child,
        !spec_is_cancelled(s, parent),
    ensures
        !spec_is_cancelled(spec_cancel(s, child), parent),
{
    if spec_is_ancestor(s, child, parent) {
        lemma_ancestor_le(s, child, parent);
    }
    lemma_cancel_stays_below(s, child, parent);
}

/// The cancellation tree: nodes named by their index of creation.
pub struct ContextTree {
    nodes: Vec<ContextNode>,
}

impl View for ContextTree {
    type V = Seq<ContextNodeV>;

    closed spec fn view(&self) -> Seq<ContextNodeV> {
        Seq::new(
            self.nodes@.len(),
            |i: int|
                ContextNodeV {
                    parent: match self.nodes@[i].parent {
                        Some(p) => Some(p as int),
                        None => None,
                    },
                    cancelled: self.nodes@[i].cancelled,
                },
        )
    }
}

impl ContextTree {
    /// Builds an empty tree.
    pub fn new() -> (r: ContextTree)
        ensures
            r@ == Seq::<ContextNodeV>::empty(),
            ctx_wf(r@),
    {
        let r = ContextTree { nodes: Vec::new() };
        proof {
            assert(r@ =~= Seq::<ContextNodeV>::empty());
        }
        r
    }

    /// Derives a fresh root context; its id names it from now on.
    pub fn new_root(&mut self) -> (r: usize)
        requires
            ctx_wf(old(self)@),
        ensures
            r == old(self)@.len(),
            final(self)@ == old(self)@.push(
                ContextNodeV { parent: None, cancelled: false },
            ),
            ctx_wf(final(self)@),
    {
        let id = self.nodes.len();
        self.nodes.push(ContextNode { parent: None, cancelled: false });
        proof {
            assert(self@ =~= old(self)@.push(ContextNodeV { parent: None, cancelled: false }));
        }
        id
    }

    /// Derives a child context under `parent`; cancelling the parent will
    /// make the child observably cancelled, not the other way round.
    pub fn child(&mut self, parent: usize) -> (r: usize)
        requires
            ctx_wf(old(self)@),
            parent < old(self)@.len(),
        ensures
            r == old(self)@.len(),
            final(self)@ == old(self)@.push(
                ContextNodeV { parent: Some(parent as int), cancelled: false },
            ),
            ctx_wf(final(self)@),
    {
        let id = self.nodes.len();
        self.nodes.push(ContextNode { parent: Some(parent), cancelled: false });
        proof {
            assert(self@ =~= old(self)@.push(
                ContextNodeV { parent: Some(parent as int), cancelled: false },
            ));
        }
        id
    }

    /// Cancels a context.  Idempotent: the flag only latches.
    pub fn cancel(&mut self, id: usize)
        requires
            ctx_wf(old(self)@),
            id < old(self)@.len(),
        ensures
            final(self)@ == spec_cancel(old(self)@, id as int),
            ctx_wf(final(self)@),
    {
        let node = &mut self.nodes[id];
        node.cancelled = true;
        proof {
            assert(self@ =~= spec_cancel(old(self)@, id as int));
        }
    }

    /// Whether a context is observably cancelled: its own flag or an
    /// ancestor's is set.
    pub fn is_cancelled(&self, id: usize) -> (r: bool)
        requires
            ctx_wf(self@),
            id < self@.len(),
        ensures
            r == spec_is_cancelled(self@, id as int),
    {
        let mut cur: usize = id;
        loop
            invariant
                ctx_wf(self@),
                cur < self@.len(),
                spec_is_cancelled(self@, id as int) == spec_is_cancelled(self@, cur as int),
            decreases cur,
        {
            if self.nodes[cur].cancelled {
                return true;
            }
            match self.nodes[cur].parent {
                Some(p) => {
                    cur = p;
                },
                None => {
                    return false;
                },
            }
        }
    }
}

} // verus!
