//! Observables derived by transforming each value.

use crate::callback::Callback;
use crate::reactive::{Observable, Source, Subscribe, Unsub};
use std::marker::PhantomData;
use std::rc::Rc;
use vstd::prelude::*;

verus! {

/// An observable that hands its callbacks `f(item)` for every `item` of the
/// observable it wraps.
///
/// The function is held once and shared by every subscription made through
/// this value.
pub struct Mapped<O, F, B> {
    observer: O,
    mapping_fn: Rc<F>,
    _item: PhantomData<B>,
}

/// The callback that a [`Mapped`] registers at the source: it applies the
/// mapping function and invokes the downstream callback with the result.
pub struct MapCallback<F, D, B> {
    /// The function applied to each value.
    pub mapping_fn: Rc<F>,
    /// The callback that receives the results.
    pub downstream: D,
    /// What the function returns and the downstream callback takes.
    pub item: PhantomData<B>,
}

impl<T, B, F: Fn(&T) -> B, D: Callback<B>> Callback<T> for MapCallback<F, D, B> {
    /// The mapping function accepts every value and the downstream callback
    /// may be invoked.
    open spec fn wf(&self) -> bool {
        &&& forall|value: &T| call_requires(*self.mapping_fn, (value,))
        &&& self.downstream.wf()
    }

    /// The downstream callback has been invoked exactly once, with a result of
    /// the mapping function on `value`; the mapping function stays.
    open spec fn delivered(pre: Self, value: T, post: Self) -> bool {
        &&& *post.mapping_fn == *pre.mapping_fn
        &&& exists|item: B|
            {
                &&& call_ensures(*pre.mapping_fn, (&value,), item)
                &&& D::delivered(pre.downstream, item, post.downstream)
            }
    }

    /// Applies the mapping function to `value` and invokes the downstream
    /// callback with the result.
    fn call(&mut self, value: &T) {
        assert(call_requires(*self.mapping_fn, (value,)));
        let item = (self.mapping_fn)(value);
        self.downstream.call(&item);
        assert(call_ensures(*old(self).mapping_fn, (value,), item));
        assert(D::delivered(old(self).downstream, item, self.downstream));
    }
}

impl<O, F, B> Mapped<O, F, B> {
    /// The wrapped observable.
    pub closed spec fn observer(&self) -> O {
        self.observer
    }

    /// The function applied to each item.
    pub closed spec fn mapping_fn(&self) -> F {
        *self.mapping_fn
    }

    /// Wraps `observer` so that its items pass through `f`.
    pub fn new(observer: O, f: F) -> (mapped: Self)
        ensures
            mapped.observer() == observer,
            mapped.mapping_fn() == f,
    {
        Mapped { observer, mapping_fn: Rc::new(f), _item: PhantomData }
    }
}

impl<O: Observable, B, F: Fn(&O::Item) -> B> Observable for Mapped<O, F, B> {
    type Item = B;

    type Value = O::Value;

    /// A mapped observable subscribes under the id of the observable it
    /// wraps.
    open spec fn id(&self) -> nat {
        self.observer().id()
    }

    /// The wrapped observable is well-formed and the mapping function accepts
    /// every item.
    open spec fn wf(&self) -> bool {
        &&& self.observer().wf()
        &&& forall|item: &O::Item| call_requires(self.mapping_fn(), (item,))
    }

    /// `item` is a result of the mapping function on what the wrapped
    /// observable makes of `value`.
    open spec fn sampled(&self, value: O::Value, item: B) -> bool {
        exists|inner: O::Item|
            {
                &&& self.observer().sampled(value, inner)
                &&& call_ensures(self.mapping_fn(), (&inner,), item)
            }
    }

    /// Samples the wrapped observable and hands `f` the result of the mapping
    /// function on what was found.
    fn with<C: Callback<O::Value>, Out, G: FnOnce(Option<&B>) -> Out>(
        &self,
        source: Option<&Source<O::Value, C>>,
        f: G,
    ) -> (ret: Out) {
        let mapping_fn = &self.mapping_fn;
        assert(**mapping_fn == self.mapping_fn());
        let ghost downstream = f;
        let inner = |item: Option<&O::Item>| -> (ret: Out)
            requires
                match item {
                    Some(i) => {
                        &&& call_requires(**mapping_fn, (i,))
                        &&& forall|b: &B|
                            call_ensures(**mapping_fn, (i,), *b) ==> call_requires(f, (Some(b),))
                    },
                    None => call_requires(f, (None::<&B>,)),
                },
            ensures
                match item {
                    Some(i) => exists|b: &B|
                        call_ensures(**mapping_fn, (i,), *b) && call_ensures(f, (Some(b),), ret),
                    None => call_ensures(f, (None::<&B>,), ret),
                },
            {
                match item {
                    Some(i) => {
                        let b = (mapping_fn)(i);
                        f(Some(&b))
                    },
                    None => f(None),
                }
            };
        let ghost forward = inner;
        proof {
            assert forall|item: &O::Item|
                source matches Some(s) && self.observer.sampled(s.value(), *item)
                implies call_requires(forward, (Some(item),)) by {
                let s = source->0;
                assert forall|b: &B| call_ensures(**mapping_fn, (item,), *b)
                    implies call_requires(downstream, (Some(b),)) by {
                    assert(self.sampled(s.value(), *b));
                }
            }
        }
        let ret = self.observer.with(source, inner);
        proof {
            if let Some(s) = source {
                let item = choose|item: &O::Item|
                    {
                        &&& self.observer.sampled(s.value(), *item)
                        &&& call_ensures(forward, (Some(item),), ret)
                    };
                let b = choose|b: &B|
                    {
                        &&& call_ensures(**mapping_fn, (item,), *b)
                        &&& call_ensures(downstream, (Some(b),), ret)
                    };
                assert(self.sampled(s.value(), *b));
            }
        }
        ret
    }
}

impl<O, B, F, D> Subscribe<D> for Mapped<O, F, B> where
    F: Fn(&O::Item) -> B,
    D: Callback<B>,
    O: Subscribe<MapCallback<F, D, B>>,
 {
    type Stored = O::Stored;

    /// What the wrapped observable stores for the callback that applies the
    /// mapping function and hands the result to `callback`.
    open spec fn stored(&self, callback: D) -> O::Stored {
        self.observer().stored(
            MapCallback {
                mapping_fn: Rc::new(self.mapping_fn()),
                downstream: callback,
                item: PhantomData,
            },
        )
    }

    /// Subscribes, through the wrapped observable, the callback that applies
    /// the mapping function and hands the result to `callback`. The token is
    /// the wrapped observable's own.
    fn subscribe(&self, source: Option<&mut Source<O::Value, O::Stored>>, callback: D) -> (unsub:
        Option<Unsub<O::Value>>) {
        let forward = MapCallback {
            mapping_fn: self.mapping_fn.clone(),
            downstream: callback,
            item: PhantomData,
        };
        assert(*forward.mapping_fn == self.mapping_fn());
        self.observer.subscribe(source, forward)
    }
}

} // verus!
