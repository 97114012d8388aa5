//! Rendering one block for each item of an observed collection.

use crate::context::{child_id, Context};
use crate::reactive::Observable;
use vstd::prelude::*;

verus! {

/// A run of blocks, one for each item of a collection, in one of the states
/// that it is built up through.
pub struct Each<Kind, Msg> {
    cx: Context<Msg>,
    kind: Kind,
}

/// The state of an [`Each`] over a collection that is walked item by item.
pub struct Iter<O, F> {
    /// Where the collection is observed.
    pub observer: O,
    /// What makes the block of one item.
    pub each_fn: F,
}

impl<Kind, Msg> Each<Kind, Msg> {
    /// The state that the run has been built up to.
    pub closed spec fn kind(&self) -> Kind {
        self.kind
    }

    /// The context that the blocks are rendered in.
    pub closed spec fn cx(&self) -> Context<Msg> {
        self.cx
    }

    /// Takes the run apart, for whoever renders it.
    pub fn into_parts(self) -> (parts: (Kind, Context<Msg>))
        ensures
            parts.0 == self.kind(),
            parts.1 == self.cx(),
    {
        (self.kind, self.cx)
    }
}

impl<Msg> Each<(), Msg> {
    /// One block made by `each_fn` for each item of the collection that
    /// `observer_iter` holds. The run is the next child of the node with
    /// context `cx`.
    pub fn iter<O: Observable, F>(
        cx: &mut Context<Msg>,
        observer_iter: O,
        each_fn: F,
    ) -> (this: Each<Iter<O, F>, Msg>)
        requires
            old(cx).id().sum + old(cx).id().depth + old(cx).id().index <= usize::MAX,
            old(cx).id().depth + 1 <= usize::MAX,
            old(cx).next_index() + 1 <= usize::MAX,
        ensures
            this.kind().observer == observer_iter,
            this.kind().each_fn == each_fn,
            this.cx().id() == child_id(old(cx).id(), old(cx).next_index()),
            !this.cx().is_dynamic(),
            this.cx().next_index() == 0,
            final(cx).id() == old(cx).id(),
            final(cx).is_dynamic() == old(cx).is_dynamic(),
            final(cx).next_index() == old(cx).next_index() + 1,
    {
        Each { cx: cx.next_child(), kind: Iter { observer: observer_iter, each_fn } }
    }
}

} // verus!
