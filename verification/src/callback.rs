//! Callbacks: what a source invokes when its value changes.

use vstd::prelude::*;

verus! {

/// Something that can be told about a value.
///
/// A callback is a small state machine: each invocation takes it from one
/// state to the next, and `delivered` is the relation between the two. A
/// source never looks inside a callback; everything it promises about
/// notification is stated through this relation.
pub trait Callback<T>: Sized {
    /// The callback may be invoked with any value. Unless a callback says
    /// otherwise it always may.
    open spec fn wf(&self) -> bool {
        true
    }

    /// `post` is a state that `pre` may be in after exactly one invocation
    /// with `value`. Unless a callback says otherwise, any state is.
    open spec fn delivered(pre: Self, value: T, post: Self) -> bool {
        true
    }

    /// Invokes the callback once with `value`.
    fn call(&mut self, value: &T)
        requires
            old(self).wf(),
        ensures
            final(self).wf(),
            Self::delivered(*old(self), *value, *final(self)),
    ;
}

/// A closure used as a callback. What the closure returns is dropped.
///
/// To the verifier a closure has no state, so nothing a closure does could
/// tell one invocation from two. The wrapper therefore keeps, as ghost state,
/// the sequence of values it has handed to the closure.
pub struct FnCallback<T, F> {
    f: F,
    received: Ghost<Seq<T>>,
}

impl<T, F> FnCallback<T, F> {
    /// The wrapped closure.
    pub closed spec fn function(self) -> F {
        self.f
    }

    /// The values that the closure has been invoked with, oldest first.
    pub closed spec fn received(self) -> Seq<T> {
        self.received@
    }

    /// Wraps `f`, which has not been invoked yet.
    pub fn new(f: F) -> (callback: Self)
        ensures
            callback.function() == f,
            callback.received() == Seq::<T>::empty(),
    {
        FnCallback { f, received: Ghost(Seq::empty()) }
    }
}

impl<T, R, F: FnMut(&T) -> R> Callback<T> for FnCallback<T, F> {
    /// The closure accepts every value.
    open spec fn wf(&self) -> bool {
        forall|value: &T| call_requires(self.function(), (value,))
    }

    /// The closure has been invoked once more, with `value`, and has
    /// returned; it is the same closure afterwards.
    open spec fn delivered(pre: Self, value: T, post: Self) -> bool {
        &&& post.function() == pre.function()
        &&& post.received() == pre.received().push(value)
        &&& exists|ret: R| call_ensures(pre.function(), (&value,), ret)
    }

    fn call(&mut self, value: &T) {
        assert(call_requires(self.function(), (value,)));
        let ret = (self.f)(value);
        proof {
            self.received@ = self.received@.push(*value);
        }
        assert(call_ensures(old(self).function(), (value,), ret));
    }
}

} // verus!
