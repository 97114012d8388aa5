//! Conditional rendering: which block of an `if` / `else if` / `else` chain
//! is shown.

use crate::context::{child_id, Context};
use crate::reactive::Observable;
use vstd::prelude::*;

verus! {

/// A block that is rendered while a condition holds, in one of the states
/// that a chain of such blocks is built up through.
pub struct If<State, Msg> {
    state: State,
    cx: Context<Msg>,
}

/// The state of an [`If`] with one condition and one block.
pub struct Simple<O, F> {
    /// Where the condition is observed.
    pub observer: O,
    /// What makes the block.
    pub child_fn: F,
}

impl<State, Msg> If<State, Msg> {
    /// The state that the chain has been built up to.
    pub closed spec fn state(&self) -> State {
        self.state
    }

    /// The context that the blocks are rendered in.
    pub closed spec fn cx(&self) -> Context<Msg> {
        self.cx
    }

    /// Takes the block apart, for whoever renders it.
    pub fn into_parts(self) -> (parts: (State, Context<Msg>))
        ensures
            parts.0 == self.state(),
            parts.1 == self.cx(),
    {
        (self.state, self.cx)
    }
}

impl<Msg> If<(), Msg> {
    /// A block made by `child_fn` that is shown while `bool_observer` holds
    /// `true`. It is the next child of the node with context `cx`, and a node
    /// that may change.
    pub fn new<O: Observable<Item = bool>, F>(
        cx: &mut Context<Msg>,
        bool_observer: O,
        child_fn: F,
    ) -> (this: If<Simple<O, F>, Msg>)
        requires
            old(cx).id().sum + old(cx).id().depth + old(cx).id().index <= usize::MAX,
            old(cx).id().depth + 1 <= usize::MAX,
            old(cx).next_index() + 1 <= usize::MAX,
        ensures
            this.state().observer == bool_observer,
            this.state().child_fn == child_fn,
            this.cx().id() == child_id(old(cx).id(), old(cx).next_index()),
            this.cx().is_dynamic(),
            this.cx().next_index() == 0,
            final(cx).id() == old(cx).id(),
            final(cx).is_dynamic() == old(cx).is_dynamic(),
            final(cx).next_index() == old(cx).next_index() + 1,
    {
        let mut child_cx = cx.next_child();
        child_cx.set_dynamic();
        If { cx: child_cx, state: Simple { observer: bool_observer, child_fn } }
    }
}

/// What is shown of a chain of blocks.
pub enum Shown {
    /// Nothing has been rendered yet.
    Nothing,
    /// The block of the condition with this index.
    Branch(usize),
    /// The `else` block, or nothing where the chain has none.
    Otherwise,
}

/// What has to be rendered after a condition has changed.
pub enum Render {
    /// What is shown stays.
    Keep,
    /// What is shown is cleared, and the block of the condition with this
    /// index is rendered.
    Branch(usize),
    /// What is shown is cleared, and the `else` block is rendered where the
    /// chain has one.
    Otherwise,
}

/// The conditions of a chain of blocks, and which block is shown.
///
/// The first block whose condition holds is the one to show; where none holds
/// it is the `else` block. Each time a condition changes, [`Chain::update`]
/// says whether anything has to be rendered anew.
pub struct Chain {
    exprs: Vec<bool>,
    shown: Shown,
}

/// `i` is the index of the first condition that holds.
pub open spec fn is_first_true(exprs: Seq<bool>, i: int) -> bool {
    &&& 0 <= i < exprs.len()
    &&& exprs[i]
    &&& forall|j: int| 0 <= j < i ==> !exprs[j]
}

/// No condition holds.
pub open spec fn none_true(exprs: Seq<bool>) -> bool {
    forall|j: int| 0 <= j < exprs.len() ==> !exprs[j]
}

/// `shown` is what is to be shown under the conditions `exprs`.
pub open spec fn shows(exprs: Seq<bool>, shown: Shown) -> bool {
    match shown {
        Shown::Nothing => false,
        Shown::Branch(i) => is_first_true(exprs, i as int),
        Shown::Otherwise => none_true(exprs),
    }
}

impl Chain {
    /// The conditions as they were last reported, in the order of the chain.
    pub closed spec fn exprs(&self) -> Seq<bool> {
        self.exprs@
    }

    /// What is shown.
    pub closed spec fn shown(&self) -> Shown {
        self.shown
    }

    /// What is shown is what the conditions ask for, unless nothing has been
    /// rendered yet.
    pub open spec fn wf(&self) -> bool {
        self.shown() is Nothing || shows(self.exprs(), self.shown())
    }

    /// A chain without conditions, of which nothing is shown.
    pub fn new() -> (chain: Chain)
        ensures
            chain.exprs() == Seq::<bool>::empty(),
            chain.shown() is Nothing,
            chain.wf(),
    {
        Chain { exprs: Vec::new(), shown: Shown::Nothing }
    }

    /// Adds a condition at the end of the chain and returns its index. The
    /// condition does not hold until it is reported to.
    pub fn push(&mut self) -> (index: usize)
        requires
            old(self).wf(),
        ensures
            index == old(self).exprs().len(),
            final(self).exprs() == old(self).exprs().push(false),
            final(self).shown() == old(self).shown(),
            final(self).wf(),
    {
        let index = self.exprs.len();
        self.exprs.push(false);
        index
    }

    /// The index of the first condition that holds, if there is one.
    fn first_true(&self) -> (found: Option<usize>)
        ensures
            match found {
                Some(i) => is_first_true(self.exprs(), i as int),
                None => none_true(self.exprs()),
            },
    {
        let mut i: usize = 0;
        while i < self.exprs.len()
            invariant
                i <= self.exprs().len(),
                forall|j: int| 0 <= j < i ==> !self.exprs()[j],
            decreases self.exprs().len() - i,
        {
            if self.exprs[i] {
                return Some(i);
            }
            i += 1;
        }
        None
    }

    /// Records that condition `i` now is `b`, and says what has to be
    /// rendered: the block of the first condition that holds, or the `else`
    /// block where none holds, unless that is what is shown already.
    pub fn update(&mut self, i: usize, b: bool) -> (render: Render)
        requires
            old(self).wf(),
            i < old(self).exprs().len(),
        ensures
            final(self).exprs() == old(self).exprs().update(i as int, b),
            shows(final(self).exprs(), final(self).shown()),
            match render {
                Render::Keep => final(self).shown() == old(self).shown(),
                Render::Branch(j) => {
                    &&& final(self).shown() == Shown::Branch(j)
                    &&& old(self).shown() != Shown::Branch(j)
                },
                Render::Otherwise => {
                    &&& final(self).shown() == Shown::Otherwise
                    &&& old(self).shown() != Shown::Otherwise
                },
            },
    {
        self.exprs[i] = b;
        match self.first_true() {
            Some(j) => {
                let same = match self.shown {
                    Shown::Branch(last) => last == j,
                    _ => false,
                };
                if same {
                    Render::Keep
                } else {
                    self.shown = Shown::Branch(j);
                    Render::Branch(j)
                }
            },
            None => {
                let same = match self.shown {
                    Shown::Otherwise => true,
                    _ => false,
                };
                if same {
                    Render::Keep
                } else {
                    self.shown = Shown::Otherwise;
                    Render::Otherwise
                }
            },
        }
    }
}

} // verus!
