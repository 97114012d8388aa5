//! Where a node stands in the tree of nodes.

use std::marker::PhantomData;
use vstd::prelude::*;
use vstd::string::StringExecFns;

verus! {

/// The position of a node in the tree, from which its id in the rendered
/// document is made. The same tree always gives the same ids.
#[derive(Debug)]
pub struct Id {
    sum: usize,
    depth: usize,
    index: usize,
    custom_id: Option<String>,
}

/// What an [`Id`] holds.
pub struct IdView {
    /// The parent's `sum`, `depth` and `index` added up.
    pub sum: nat,
    /// How far below the root the node is.
    pub depth: nat,
    /// Which child of its parent the node is.
    pub index: nat,
    /// The `id` attribute that the author gave the node, if any.
    pub custom_id: Option<Seq<char>>,
}

impl View for Id {
    type V = IdView;

    closed spec fn view(&self) -> IdView {
        IdView {
            sum: self.sum as nat,
            depth: self.depth as nat,
            index: self.index as nat,
            custom_id: match self.custom_id {
                Some(custom_id) => Some(custom_id@),
                None => None,
            },
        }
    }
}

/// The character for a number below ten.
pub open spec fn digit(d: nat) -> char {
    if d == 0 {
        '0'
    } else if d == 1 {
        '1'
    } else if d == 2 {
        '2'
    } else if d == 3 {
        '3'
    } else if d == 4 {
        '4'
    } else if d == 5 {
        '5'
    } else if d == 6 {
        '6'
    } else if d == 7 {
        '7'
    } else if d == 8 {
        '8'
    } else {
        '9'
    }
}

/// A number written in decimal, without leading zeros.
pub open spec fn decimal(n: nat) -> Seq<char>
    decreases n,
{
    if n < 10 {
        seq![digit(n)]
    } else {
        decimal(n / 10).push(digit(n % 10))
    }
}

impl IdView {
    /// The id as it is written into the document: the custom id where there
    /// is one, else the three numbers separated by hyphens.
    pub open spec fn text(self) -> Seq<char> {
        match self.custom_id {
            Some(custom_id) => custom_id,
            None => decimal(self.sum) + seq!['-'] + decimal(self.depth) + seq!['-'] + decimal(
                self.index,
            ),
        }
    }
}

/// The digit `d` as a string.
fn digit_str(d: usize) -> (text: &'static str)
    requires
        d < 10,
    ensures
        text@ == seq![digit(d as nat)],
{
    proof {
        reveal_strlit("0");
        reveal_strlit("1");
        reveal_strlit("2");
        reveal_strlit("3");
        reveal_strlit("4");
        reveal_strlit("5");
        reveal_strlit("6");
        reveal_strlit("7");
        reveal_strlit("8");
        reveal_strlit("9");
    }
    let text = if d == 0 {
        "0"
    } else if d == 1 {
        "1"
    } else if d == 2 {
        "2"
    } else if d == 3 {
        "3"
    } else if d == 4 {
        "4"
    } else if d == 5 {
        "5"
    } else if d == 6 {
        "6"
    } else if d == 7 {
        "7"
    } else if d == 8 {
        "8"
    } else {
        "9"
    };
    assert(text@ =~= seq![digit(d as nat)]);
    text
}

/// Appends `n`, written in decimal, to `text`.
fn push_decimal(text: &mut String, n: usize)
    ensures
        final(text)@ == old(text)@ + decimal(n as nat),
    decreases n,
{
    if n >= 10 {
        push_decimal(text, n / 10);
    }
    text.append(digit_str(n % 10));
    proof {
        if n >= 10 {
            assert(old(text)@ + decimal(n as nat / 10) + seq![digit(n as nat % 10)] =~= old(text)@
                + decimal(n as nat));
        } else {
            assert(old(text)@ + seq![digit(n as nat % 10)] =~= old(text)@ + decimal(n as nat));
        }
    }
}

/// The id of the `index`-th child of a node with id `parent`.
pub open spec fn child_id(parent: IdView, index: nat) -> IdView {
    IdView {
        sum: parent.sum + parent.depth + parent.index,
        depth: parent.depth + 1,
        index,
        custom_id: None,
    }
}

impl Clone for Id {
    fn clone(&self) -> (id: Id)
        ensures
            id@ == self@,
    {
        Id {
            sum: self.sum,
            depth: self.depth,
            index: self.index,
            custom_id: match &self.custom_id {
                Some(custom_id) => Some(custom_id.clone()),
                None => None,
            },
        }
    }
}

impl Default for Id {
    /// The id of the root.
    fn default() -> (id: Id)
        ensures
            id@ == (IdView { sum: 0, depth: 0, index: 0, custom_id: None }),
    {
        Id { sum: 0, depth: 0, index: 0, custom_id: None }
    }
}

impl Id {
    pub fn sum(&self) -> (sum: usize)
        ensures
            sum == self@.sum,
    {
        self.sum
    }

    pub fn depth(&self) -> (depth: usize)
        ensures
            depth == self@.depth,
    {
        self.depth
    }

    pub fn index(&self) -> (index: usize)
        ensures
            index == self@.index,
    {
        self.index
    }

    pub fn custom_id(&self) -> (custom_id: Option<&str>)
        ensures
            match custom_id {
                Some(text) => self@.custom_id == Some(text@),
                None => self@.custom_id is None,
            },
    {
        match &self.custom_id {
            Some(custom_id) => Some(custom_id.as_str()),
            None => None,
        }
    }

    /// The id as it is written into the document.
    pub fn to_string(&self) -> (text: String)
        ensures
            text@ == self@.text(),
    {
        match &self.custom_id {
            Some(custom_id) => custom_id.clone(),
            None => {
                let mut text = String::new();
                push_decimal(&mut text, self.sum);
                text.append("-");
                push_decimal(&mut text, self.depth);
                text.append("-");
                push_decimal(&mut text, self.index);
                proof {
                    reveal_strlit("-");
                    assert("-"@ =~= seq!['-']);
                    assert(text@ =~= self@.text());
                }
                text
            },
        }
    }

    /// Whether the three numbers of the id are those of `parts`.
    pub fn eq_parts(&self, parts: &(usize, usize, usize)) -> (same: bool)
        ensures
            same == (self@.sum == parts.0 && self@.depth == parts.1 && self@.index == parts.2),
    {
        self.sum == parts.0 && self.depth == parts.1 && self.index == parts.2
    }

    /// Adds `sum` to the sum.
    pub fn set_sum(&mut self, sum: usize)
        requires
            old(self)@.sum + sum <= usize::MAX,
        ensures
            final(self)@ == (IdView { sum: old(self)@.sum + sum as nat, ..old(self)@ }),
    {
        self.sum += sum;
    }

    /// Adds `depth` to the depth.
    pub fn set_depth(&mut self, depth: usize)
        requires
            old(self)@.depth + depth <= usize::MAX,
        ensures
            final(self)@ == (IdView { depth: old(self)@.depth + depth as nat, ..old(self)@ }),
    {
        self.depth += depth;
    }

    /// Adds `index` to the index.
    pub fn set_index(&mut self, index: usize)
        requires
            old(self)@.index + index <= usize::MAX,
        ensures
            final(self)@ == (IdView { index: old(self)@.index + index as nat, ..old(self)@ }),
    {
        self.index += index;
    }

    /// Gives the node the `id` attribute that its author chose. This can be
    /// done once.
    pub fn set_custom_id(&mut self, custom_id: String)
        requires
            old(self)@.custom_id is None,
        ensures
            final(self)@ == (IdView { custom_id: Some(custom_id@), ..old(self)@ }),
    {
        self.custom_id = Some(custom_id);
    }

    /// Moves the id below `parent_id`, as its `index`-th child: on an id that
    /// is still the root's, this gives [`child_id`].
    pub fn set_id(&mut self, parent_id: &Id, index: usize)
        requires
            old(self)@.sum + parent_id@.sum + parent_id@.depth + parent_id@.index <= usize::MAX,
            old(self)@.depth + parent_id@.depth + 1 <= usize::MAX,
            old(self)@.index + index <= usize::MAX,
        ensures
            final(self)@ == (IdView {
                sum: old(self)@.sum + parent_id@.sum + parent_id@.depth + parent_id@.index,
                depth: old(self)@.depth + parent_id@.depth + 1,
                index: old(self)@.index + index as nat,
                custom_id: old(self)@.custom_id,
            }),
    {
        self.set_sum(parent_id.sum + parent_id.depth + parent_id.index);
        self.set_depth(parent_id.depth + 1);
        self.set_index(index);
    }
}

/// What a node knows about its place in the tree.
pub struct Context<Msg> {
    id: Id,
    dynamic: bool,
    next_index: usize,
    _msg: PhantomData<Msg>,
}

impl<Msg> Context<Msg> {
    /// The id of the node.
    pub closed spec fn id(&self) -> IdView {
        self.id@
    }

    /// Whether the node may change after it is first rendered.
    pub closed spec fn is_dynamic(&self) -> bool {
        self.dynamic
    }

    /// The index that the next child of the node will get.
    pub closed spec fn next_index(&self) -> nat {
        self.next_index as nat
    }

    /// The context of the `index`-th child of the node with context
    /// `parent_cx`: a node without children that does not change.
    pub fn from_parent_cx(parent_cx: &Context<Msg>, index: usize) -> (cx: Self)
        requires
            parent_cx.id().sum + parent_cx.id().depth + parent_cx.id().index <= usize::MAX,
            parent_cx.id().depth + 1 <= usize::MAX,
        ensures
            cx.id() == child_id(parent_cx.id(), index as nat),
            !cx.is_dynamic(),
            cx.next_index() == 0,
    {
        let mut this: Context<Msg> = Context::default();
        this.id.set_id(&parent_cx.id, index);
        this
    }

    /// The context of the next child of this node.
    pub fn next_child(&mut self) -> (cx: Self)
        requires
            old(self).id().sum + old(self).id().depth + old(self).id().index <= usize::MAX,
            old(self).id().depth + 1 <= usize::MAX,
            old(self).next_index() + 1 <= usize::MAX,
        ensures
            cx.id() == child_id(old(self).id(), old(self).next_index()),
            !cx.is_dynamic(),
            cx.next_index() == 0,
            final(self).id() == old(self).id(),
            final(self).is_dynamic() == old(self).is_dynamic(),
            final(self).next_index() == old(self).next_index() + 1,
    {
        let index = self.next_index;
        self.next_index += 1;
        Context::from_parent_cx(self, index)
    }

    /// Forgets the children of this node: the next child will be the first
    /// again.
    pub fn clear(&mut self)
        ensures
            final(self).id() == old(self).id(),
            final(self).is_dynamic() == old(self).is_dynamic(),
            final(self).next_index() == 0,
    {
        self.next_index = 0;
    }

    /// Marks the node as one that may change.
    pub fn set_dynamic(&mut self)
        ensures
            final(self).id() == old(self).id(),
            final(self).is_dynamic(),
            final(self).next_index() == old(self).next_index(),
    {
        self.dynamic = true;
    }

    /// The position that the node's id is made from.
    pub fn position(&self) -> (id: &Id)
        ensures
            id@ == self.id(),
    {
        &self.id
    }

    /// Whether the node may change, and so has to be found again in the
    /// rendered document.
    pub fn dynamic(&self) -> (dynamic: bool)
        ensures
            dynamic == self.is_dynamic(),
    {
        self.dynamic
    }
}

impl<Msg> Default for Context<Msg> {
    /// The context of the root: a node without children that does not change.
    fn default() -> (cx: Self)
        ensures
            cx.id() == (IdView { sum: 0, depth: 0, index: 0, custom_id: None }),
            !cx.is_dynamic(),
            cx.next_index() == 0,
    {
        Context { id: Id::default(), dynamic: false, next_index: 0, _msg: PhantomData }
    }
}

} // verus!
