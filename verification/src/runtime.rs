//! What an application's model and its event handlers hand to the runtime.

use vstd::prelude::*;

verus! {

/// A model from which a view model is kept up to date.
///
/// A view model typically holds one source per part of the view; `diff` then
/// sets those sources whose part of the model has changed. What "up to date"
/// means is the model's own business, so neither method promises anything
/// here.
pub trait DiffableModel {
    /// What the view is rendered from.
    type ViewModel;

    /// Makes the view model of this model.
    fn to_view_model(&self) -> Self::ViewModel;

    /// Brings `view_model` up to date with this model.
    fn diff(&self, view_model: &mut Self::ViewModel);
}

impl DiffableModel for () {
    type ViewModel = ();

    fn to_view_model(&self) -> (view_model: ()) {
    }

    fn diff(&self, view_model: &mut ()) {
    }
}

/// What an event handler may return: a message for the application, or
/// nothing.
pub trait IntoMsg<Msg>: Sized {
    /// The message that this value stands for, if any.
    spec fn msg(self) -> Option<Msg>;

    /// Turns the value into the message it stands for.
    fn into_msg(self) -> (msg: Option<Msg>)
        ensures
            msg == self.msg(),
    ;
}

impl<Msg> IntoMsg<Msg> for Option<Msg> {
    /// An optional message is what it is.
    open spec fn msg(self) -> Option<Msg> {
        self
    }

    fn into_msg(self) -> (msg: Option<Msg>) {
        self
    }
}

impl<Msg> IntoMsg<Msg> for () {
    /// The unit value stands for no message.
    open spec fn msg(self) -> Option<Msg> {
        None
    }

    fn into_msg(self) -> (msg: Option<Msg>) {
        None
    }
}

} // verus!
