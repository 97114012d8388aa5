//! Components and their local state.

pub mod each;
pub mod if_;

use crate::callback::Callback;
use crate::reactive::{changed, Observable, Observer, Source};
use vstd::prelude::*;

verus! {

/// A component, described by the properties it is made with.
pub trait Comp {
    /// What the component is configured with.
    type Props;
}

impl Comp for () {
    type Props = ();
}

/// Hands the messages of one component to its update function.
pub struct MsgDispatcher<UF> {
    update_fn: UF,
}

impl<UF> MsgDispatcher<UF> {
    /// The function that applies a message to the model.
    pub closed spec fn update_fn(&self) -> UF {
        self.update_fn
    }

    /// Applies `msg` to the model held by `model` and notifies the model's
    /// subscribers of the result. Where the model is gone the message is
    /// dropped.
    pub fn dispatch_msg<M, LocalMsg, C: Callback<M>>(
        &self,
        model: Option<&mut Source<M, C>>,
        msg: LocalMsg,
    ) where UF: Fn(&mut M, LocalMsg)
        requires
            model matches Some(s) ==> {
                &&& s.wf()
                &&& forall|place: &mut M|
                    *place == s.value() ==> call_requires(self.update_fn(), (place, msg))
            },
        ensures
            model matches Some(s) ==> {
                &&& exists|place: &mut M|
                    {
                        &&& *place == s.value()
                        &&& *final(place) == final(s).value()
                        &&& call_ensures(self.update_fn(), (place, msg), ())
                    }
                &&& changed(*s, final(s).value(), *final(s))
                &&& final(s).wf()
            },
    {
        match model {
            Some(s) => {
                let update_fn = &self.update_fn;
                let apply = |place: &mut M|
                    requires
                        forall|inner: &mut M|
                            *inner == *place ==> call_requires(*update_fn, (inner, msg)),
                    ensures
                        exists|inner: &mut M|
                            {
                                &&& *inner == *old(place)
                                &&& *final(inner) == *final(place)
                                &&& call_ensures(*update_fn, (inner, msg), ())
                            },
                    {
                        update_fn(place, msg)
                    };
                s.set_with(apply);
            },
            None => {},
        }
    }
}

/// Sets up the state of one component: a new source that holds the model
/// which `initial_model` makes, the first observer of that source, and the
/// dispatcher through which messages reach the model by way of `update_fn`.
pub fn create_local_state<M, LocalMsg, C: Callback<M>, MF: FnOnce() -> M, UF: Fn(&mut M, LocalMsg)>(
    initial_model: MF,
    update_fn: UF,
) -> (state: (Source<M, C>, Observer<M>, MsgDispatcher<UF>))
    requires
        call_requires(initial_model, ()),
    ensures
        call_ensures(initial_model, (), state.0.value()),
        state.0.slots() == seq![None::<C>],
        state.0.wf(),
        state.1.id() == 0,
        state.2.update_fn() == update_fn,
{
    let mut model = Source::new(initial_model());
    let observer = model.observer();
    assert(model.slots() =~= seq![None::<C>]);
    (model, observer, MsgDispatcher { update_fn })
}

} // verus!
