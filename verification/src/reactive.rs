//! The source of a signal, its observers and their subscriptions.

use crate::callback::Callback;
use crate::mapped::Mapped;
use std::marker::PhantomData;
use vstd::prelude::*;

verus! {

/// The value of a signal together with the registry of its subscribers.
///
/// Slot `i` of `callbacks` belongs to subscription id `i`. A slot is created
/// empty when the id is handed out, filled by a subscription and emptied again
/// by its cancellation; slots are never removed, so ids are never reused.
struct SharedState<T, C> {
    value: T,
    callbacks: Vec<Option<C>>,
}

impl<T, C> SharedState<T, C> {
    fn new(value: T) -> (state: Self)
        ensures
            state.value == value,
            state.callbacks@ == Seq::<Option<C>>::empty(),
    {
        SharedState { value, callbacks: Vec::new() }
    }
}

/// The owner of a signal and the only way to change its value.
///
/// `C` is the type of the callbacks that subscribe to the signal.
pub struct Source<T, C> {
    state: SharedState<T, C>,
}

/// A handle through which one callback at a time subscribes to a source.
///
/// An observer stands for one id of the source that made it. It refers to the
/// source only by being used with it: an observer that is used with a source
/// which has not handed out its id is treated like one whose source is gone.
pub struct Observer<T> {
    id: usize,
    _value: PhantomData<T>,
}

/// The right to cancel one subscription.
pub struct Unsub<T> {
    id: usize,
    _value: PhantomData<T>,
}

impl<T, C: Callback<T>> Source<T, C> {
    /// The current value of the signal.
    pub closed spec fn value(&self) -> T {
        self.state.value
    }

    /// The registry: slot `id` holds the callback subscribed under `id`, if
    /// there is one.
    pub closed spec fn slots(&self) -> Seq<Option<C>> {
        self.state.callbacks@
    }

    /// The id that the next observer will get. Every id below it has been
    /// handed out.
    pub open spec fn next_id(&self) -> nat {
        self.slots().len()
    }

    /// A callback is subscribed under `id`.
    pub open spec fn is_live(&self, id: nat) -> bool {
        id < self.next_id() && self.slots()[id as int] is Some
    }

    /// Every subscribed callback may be invoked.
    pub open spec fn wf(&self) -> bool {
        forall|id: int|
            0 <= id < self.slots().len() ==> (#[trigger] self.slots()[id] matches Some(callback)
                ==> callback.wf())
    }
}

/// One slot after a notification pass with `value`: a callback that was there
/// has been invoked exactly once, an empty slot is still empty.
pub open spec fn slot_notified<T, C: Callback<T>>(
    pre: Option<C>,
    value: T,
    post: Option<C>,
) -> bool {
    match pre {
        Some(before) => post matches Some(after) && C::delivered(before, value, after),
        None => post is None,
    }
}

/// A whole registry after a notification pass with `value`: every slot has
/// been notified, and there are as many slots as before.
pub open spec fn notified<T, C: Callback<T>>(
    pre: Seq<Option<C>>,
    value: T,
    post: Seq<Option<C>>,
) -> bool {
    &&& post.len() == pre.len()
    &&& forall|id: int| 0 <= id < pre.len() ==> slot_notified(pre[id], value, #[trigger] post[id])
}

/// `source` is what [`Source::new`] makes of `value`: it holds the value and
/// has handed out no id.
pub open spec fn fresh<T, C: Callback<T>>(source: Source<T, C>, value: T) -> bool {
    &&& source.value() == value
    &&& source.slots() == Seq::<Option<C>>::empty()
}

/// What handing out an id does to a source: `id` is the next id, and an empty
/// slot is added for it; nothing else changes.
pub open spec fn issued<T, C: Callback<T>>(pre: Source<T, C>, id: nat, post: Source<T, C>) -> bool {
    &&& id == pre.next_id()
    &&& post.value() == pre.value()
    &&& post.slots() == pre.slots().push(None)
}

/// What setting the value does to a source: it holds `value`, and every
/// subscriber has been notified of `value` exactly once.
pub open spec fn changed<T, C: Callback<T>>(
    pre: Source<T, C>,
    value: T,
    post: Source<T, C>,
) -> bool {
    &&& post.value() == value
    &&& notified(pre.slots(), value, post.slots())
}

/// What subscribing `callback` under `id` does to a source: if the source has
/// handed out `id`, the callback is invoked once with the current value and
/// then stored in slot `id`, replacing what was there; nothing else changes.
/// If the source has not handed out `id`, nothing changes at all.
pub open spec fn subscribed<T, C: Callback<T>>(
    pre: Source<T, C>,
    id: nat,
    callback: C,
    post: Source<T, C>,
) -> bool {
    if id < pre.next_id() {
        &&& post.value() == pre.value()
        &&& exists|stored: C|
            {
                &&& C::delivered(callback, pre.value(), stored)
                &&& post.slots() == pre.slots().update(id as int, Some(stored))
            }
    } else {
        post == pre
    }
}

/// What cancelling the subscription under `id` does to a source: slot `id`,
/// if the source has one, is emptied; nothing else changes.
pub open spec fn unsubscribed<T, C: Callback<T>>(
    pre: Source<T, C>,
    id: nat,
    post: Source<T, C>,
) -> bool {
    if id < pre.next_id() {
        &&& post.value() == pre.value()
        &&& post.slots() == pre.slots().update(id as int, None)
    } else {
        post == pre
    }
}

impl<T, C: Callback<T>> Source<T, C> {
    /// A source that holds `value` and has handed out no id yet.
    pub fn new(value: T) -> (source: Self)
        ensures
            fresh(source, value),
            source.wf(),
    {
        Source { state: SharedState::new(value) }
    }

    /// An observer of this source, under the next id.
    pub fn observer(&mut self) -> (observer: Observer<T>)
        ensures
            issued(*old(self), observer.id(), *final(self)),
            old(self).wf() ==> final(self).wf(),
    {
        let id = self.state.callbacks.len();
        self.state.callbacks.push(None);
        Observer { id, _value: PhantomData }
    }

    /// Invokes every subscribed callback once with the current value, in the
    /// order of their ids.
    fn notify(&mut self)
        requires
            old(self).wf(),
        ensures
            final(self).value() == old(self).value(),
            notified(old(self).slots(), old(self).value(), final(self).slots()),
            final(self).wf(),
    {
        let mut id: usize = 0;
        while id < self.state.callbacks.len()
            invariant
                id <= self.slots().len(),
                self.value() == old(self).value(),
                self.slots().len() == old(self).slots().len(),
                forall|j: int|
                    0 <= j < id ==> slot_notified(
                        old(self).slots()[j],
                        old(self).value(),
                        #[trigger] self.slots()[j],
                    ),
                forall|j: int|
                    id <= j < self.slots().len() ==> self.slots()[j] == old(self).slots()[j],
                old(self).wf(),
                self.wf(),
            decreases self.slots().len() - id,
        {
            match &mut self.state.callbacks[id] {
                Some(callback) => {
                    callback.call(&self.state.value);
                },
                None => {},
            }
            id += 1;
        }
    }

    /// Replaces the value and notifies every subscriber of it.
    pub fn set(&mut self, value: T)
        requires
            old(self).wf(),
        ensures
            changed(*old(self), value, *final(self)),
            final(self).wf(),
    {
        self.state.value = value;
        self.notify();
    }

    /// Lets `f` change the value in place, then notifies every subscriber of
    /// the value that `f` left. Returns what `f` returned.
    pub fn set_with<U, F: FnOnce(&mut T) -> U>(&mut self, f: F) -> (ret: U)
        requires
            old(self).wf(),
            forall|place: &mut T| *place == old(self).value() ==> call_requires(f, (place,)),
        ensures
            exists|place: &mut T|
                {
                    &&& *place == old(self).value()
                    &&& *final(place) == final(self).value()
                    &&& call_ensures(f, (place,), ret)
                },
            changed(*old(self), final(self).value(), *final(self)),
            final(self).wf(),
    {
        let ret = f(&mut self.state.value);
        self.notify();
        ret
    }
}

impl<T, C: Callback<T>> From<T> for Source<T, C> {
    /// The same as [`Source::new`].
    fn from(value: T) -> (source: Self)
        ensures
            fresh(source, value),
            source.wf(),
    {
        Source::new(value)
    }
}

impl<T, C: Callback<T>> vstd::std_specs::convert::FromSpecImpl<T> for Source<T, C> {
    /// A source is described by its value and its slots, not as a term, so
    /// what `from` returns is stated on `from` itself.
    open spec fn obeys_from_spec() -> bool {
        false
    }

    open spec fn from_spec(value: T) -> Self {
        arbitrary()
    }
}

impl<T, C: Callback<T>> std::ops::Deref for Source<T, C> {
    type Target = T;

    /// The current value.
    fn deref(&self) -> (value: &T)
        ensures
            *value == self.value(),
    {
        &self.state.value
    }
}

/// Something that can be sampled and mapped: an [`Observer`], or an
/// observable derived from one.
pub trait Observable: Sized {
    /// What a callback subscribed here is invoked with.
    type Item;

    /// What the source behind this observable holds.
    type Value;

    /// The id of the slot that a subscription through this observable uses.
    spec fn id(&self) -> nat;

    /// The observable may be subscribed to and sampled.
    spec fn wf(&self) -> bool;

    /// `item` is what this observable may make of `value`.
    spec fn sampled(&self, value: Self::Value, item: Self::Item) -> bool;

    /// Hands `f` the current item, or `None` where the source is gone, and
    /// returns what `f` returned. The source is only read: no slot is taken
    /// and nothing is registered.
    fn with<C: Callback<Self::Value>, Out, G: FnOnce(Option<&Self::Item>) -> Out>(
        &self,
        source: Option<&Source<Self::Value, C>>,
        f: G,
    ) -> (ret: Out)
        requires
            self.wf(),
            source is None ==> call_requires(f, (None::<&Self::Item>,)),
            forall|item: &Self::Item|
                source matches Some(s) && self.sampled(s.value(), *item) ==> call_requires(
                    f,
                    (Some(item),),
                ),
        ensures
            match source {
                Some(s) => exists|item: &Self::Item|
                    self.sampled(s.value(), *item) && call_ensures(f, (Some(item),), ret),
                None => call_ensures(f, (None::<&Self::Item>,), ret),
            },
    ;

    /// The observable whose items are `f` of this observable's items.
    fn map<R, M: Fn(&Self::Item) -> R>(self, f: M) -> (mapped: Mapped<Self, M, R>)
        ensures
            mapped.observer() == self,
            mapped.mapping_fn() == f,
    {
        Mapped::new(self, f)
    }
}

/// An observable to which callbacks of type `D` can subscribe.
pub trait Subscribe<D: Callback<Self::Item>>: Observable {
    /// What the source stores for a callback of type `D`.
    type Stored: Callback<Self::Value>;

    /// What the source stores for `callback`.
    spec fn stored(&self, callback: D) -> Self::Stored;

    /// Subscribes `callback`.
    ///
    /// Where the source is gone, or has not handed out this observable's id,
    /// nothing happens and `None` comes back. Otherwise the callback is invoked
    /// once with the current value, then registered under the id, and the token
    /// that cancels this registration comes back.
    fn subscribe(
        &self,
        source: Option<&mut Source<Self::Value, Self::Stored>>,
        callback: D,
    ) -> (unsub: Option<Unsub<Self::Value>>)
        requires
            self.wf(),
            callback.wf(),
            source matches Some(s) ==> s.wf(),
        ensures
            source matches Some(s) ==> subscribed(*s, self.id(), self.stored(callback), *final(s))
                && final(s).wf(),
            unsub is Some <==> (source matches Some(s) && self.id() < s.next_id()),
            unsub matches Some(token) ==> token.id() == self.id(),
    ;
}

impl<T> Observable for Observer<T> {
    type Item = T;

    type Value = T;

    closed spec fn id(&self) -> nat {
        self.id as nat
    }

    /// Every observer is well-formed.
    open spec fn wf(&self) -> bool {
        true
    }

    /// An observer hands on the value as it is.
    open spec fn sampled(&self, value: T, item: T) -> bool {
        item == value
    }

    fn with<C: Callback<T>, Out, G: FnOnce(Option<&T>) -> Out>(
        &self,
        source: Option<&Source<T, C>>,
        f: G,
    ) -> (ret: Out) {
        match source {
            Some(s) => f(Some(&s.state.value)),
            None => f(None),
        }
    }
}

impl<T, C: Callback<T>> Subscribe<C> for Observer<T> {
    type Stored = C;

    /// The source stores the callback itself.
    open spec fn stored(&self, callback: C) -> C {
        callback
    }

    fn subscribe(&self, source: Option<&mut Source<T, C>>, callback: C) -> (unsub: Option<
        Unsub<T>,
    >) {
        match source {
            Some(s) => {
                if self.id < s.state.callbacks.len() {
                    let mut callback = callback;
                    callback.call(&s.state.value);
                    s.state.callbacks[self.id] = Some(callback);
                    Some(Unsub { id: self.id, _value: PhantomData })
                } else {
                    None
                }
            },
            None => None,
        }
    }
}

impl<O: Observable> Observable for Box<O> {
    type Item = O::Item;

    type Value = O::Value;

    open spec fn id(&self) -> nat {
        (**self).id()
    }

    open spec fn wf(&self) -> bool {
        (**self).wf()
    }

    open spec fn sampled(&self, value: O::Value, item: O::Item) -> bool {
        (**self).sampled(value, item)
    }

    fn with<C: Callback<O::Value>, Out, G: FnOnce(Option<&O::Item>) -> Out>(
        &self,
        source: Option<&Source<O::Value, C>>,
        f: G,
    ) -> (ret: Out) {
        (**self).with(source, f)
    }
}

impl<D: Callback<O::Item>, O: Subscribe<D>> Subscribe<D> for Box<O> {
    type Stored = O::Stored;

    open spec fn stored(&self, callback: D) -> O::Stored {
        (**self).stored(callback)
    }

    fn subscribe(&self, source: Option<&mut Source<O::Value, O::Stored>>, callback: D) -> (unsub:
        Option<Unsub<O::Value>>) {
        (**self).subscribe(source, callback)
    }
}

impl<T> Observer<T> {
    /// Another observer of the same source, with an id of its own: a
    /// subscription through the new observer never displaces one made through
    /// this one. Where the source is gone the new observer gets id 0, which is
    /// of no consequence, as it can never be subscribed.
    pub fn clone<C: Callback<T>>(&self, source: Option<&mut Source<T, C>>) -> (observer: Self)
        ensures
            match source {
                Some(s) => issued(*s, observer.id(), *final(s)) && (s.wf() ==> final(s).wf()),
                None => observer.id() == 0,
            },
    {
        match source {
            Some(s) => s.observer(),
            None => Observer { id: 0, _value: PhantomData },
        }
    }
}

impl<T> Unsub<T> {
    /// The id of the subscription that this token cancels.
    pub closed spec fn id(&self) -> nat {
        self.id as nat
    }

    /// Cancels the subscription: the callback registered under this token's id
    /// is dropped and will not be invoked again. Where the source is gone, or
    /// has no such slot, nothing happens.
    pub fn unsubscribe<C: Callback<T>>(self, source: Option<&mut Source<T, C>>)
        ensures
            source matches Some(s) ==> unsubscribed(*s, self.id(), *final(s)) && (s.wf()
                ==> final(s).wf()),
    {
        match source {
            Some(s) => {
                if self.id < s.state.callbacks.len() {
                    s.state.callbacks[self.id] = None;
                }
            },
            None => {},
        }
    }
}

} // verus!
