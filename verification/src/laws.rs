//! What holds of every source, whatever its callbacks do.
//!
//! Each operation on a source is specified by a relation between the source
//! before and after. The statements here are about those relations alone, so
//! they hold of every run of the operations.

use crate::callback::{Callback, FnCallback};
use crate::mapped::{MapCallback, Mapped};
use crate::reactive::{
    changed, fresh, issued, slot_notified, subscribed, unsubscribed, Observable, Observer, Source,
    Subscribe, Unsub,
};
use vstd::prelude::*;

verus! {

/// `post` is reached from `pre` by setting each of `values` in turn.
pub open spec fn changed_through<T, C: Callback<T>>(
    pre: Source<T, C>,
    values: Seq<T>,
    post: Source<T, C>,
) -> bool
    decreases values.len(),
{
    if values.len() == 0 {
        post == pre
    } else {
        exists|mid: Source<T, C>|
            changed(pre, values.first(), mid) && changed_through(mid, values.drop_first(), post)
    }
}

/// One slot after a notification pass with each of `values` in turn.
pub open spec fn slot_notified_through<T, C: Callback<T>>(
    pre: Option<C>,
    values: Seq<T>,
    post: Option<C>,
) -> bool
    decreases values.len(),
{
    if values.len() == 0 {
        post == pre
    } else {
        exists|mid: Option<C>|
            slot_notified(pre, values.first(), mid) && slot_notified_through(
                mid,
                values.drop_first(),
                post,
            )
    }
}

/// `post` is `pre` after it has been invoked once with a result of `f` for
/// each of `values`, in turn.
pub open spec fn forwarded_through<T, B, F: Fn(&T) -> B, D: Callback<B>>(
    f: F,
    pre: D,
    values: Seq<T>,
    post: D,
) -> bool
    decreases values.len(),
{
    if values.len() == 0 {
        post == pre
    } else {
        exists|item: B, mid: D|
            {
                &&& call_ensures(f, (&values.first(),), item)
                &&& D::delivered(pre, item, mid)
                &&& forwarded_through(f, mid, values.drop_first(), post)
            }
    }
}

/// One operation on a source, by what it is given.
pub enum Operation<T, C> {
    /// An id is handed out, by [`Source::observer`] or [`Observer::clone`].
    Observe,
    /// The value is changed, by [`Source::set`] or [`Source::set_with`].
    Change(T),
    /// A callback is subscribed under an id.
    Subscribe(nat, C),
    /// The subscription under an id is cancelled.
    Unsubscribe(nat),
}

/// `post` is what `operation` may make of `pre`.
pub open spec fn performed<T, C: Callback<T>>(
    pre: Source<T, C>,
    operation: Operation<T, C>,
    post: Source<T, C>,
) -> bool {
    match operation {
        Operation::Observe => issued(pre, pre.next_id(), post),
        Operation::Change(value) => changed(pre, value, post),
        Operation::Subscribe(id, callback) => subscribed(pre, id, callback, post),
        Operation::Unsubscribe(id) => unsubscribed(pre, id, post),
    }
}

/// `post` is what `operations`, performed in turn, may make of `pre`.
pub open spec fn performed_all<T, C: Callback<T>>(
    pre: Source<T, C>,
    operations: Seq<Operation<T, C>>,
    post: Source<T, C>,
) -> bool
    decreases operations.len(),
{
    if operations.len() == 0 {
        post == pre
    } else {
        exists|mid: Source<T, C>|
            performed(pre, operations.first(), mid) && performed_all(
                mid,
                operations.drop_first(),
                post,
            )
    }
}

/// The ids under which a callback is subscribed.
pub open spec fn live_ids<T, C: Callback<T>>(source: Source<T, C>) -> Set<nat> {
    Set::new(|id: nat| source.is_live(id))
}

/// Initial push: a callback subscribed through the first observer of a new
/// source has been invoked exactly once, with the value the source was made
/// with, by the time `subscribe` returns, and is then registered.
pub proof fn initial_push<T, C: Callback<T>>(
    made: Source<T, C>,
    value: T,
    observed: Source<T, C>,
    id: nat,
    callback: C,
    post: Source<T, C>,
)
    requires
        fresh(made, value),
        issued(made, id, observed),
        subscribed(observed, id, callback, post),
    ensures
        post.value() == value,
        post.is_live(id),
        C::delivered(callback, value, post.slots()[id as int]->0),
{
}

/// Initial push, on any source: wherever a subscription takes place, the
/// callback that ends up in the slot is the one handed in after exactly one
/// invocation with the current value, and every other slot is as it was.
pub proof fn subscription_pushes_current_value<T, C: Callback<T>>(
    pre: Source<T, C>,
    id: nat,
    callback: C,
    post: Source<T, C>,
)
    requires
        id < pre.next_id(),
        subscribed(pre, id, callback, post),
    ensures
        post.value() == pre.value(),
        post.next_id() == pre.next_id(),
        post.is_live(id),
        C::delivered(callback, pre.value(), post.slots()[id as int]->0),
        forall|other: nat|
            other != id && other < pre.next_id() ==> post.slots()[other as int]
                == pre.slots()[other as int],
{
}

/// Change propagation: setting the value invokes each subscribed callback
/// exactly once, with the new value, and neither adds nor removes a
/// subscription.
pub proof fn change_propagation<T, C: Callback<T>>(pre: Source<T, C>, value: T, post: Source<T, C>)
    requires
        changed(pre, value, post),
    ensures
        post.value() == value,
        post.next_id() == pre.next_id(),
        live_ids(post) == live_ids(pre),
        forall|id: nat|
            pre.is_live(id) ==> C::delivered(
                pre.slots()[id as int]->0,
                value,
                #[trigger] post.slots()[id as int]->0,
            ),
{
    assert forall|id: nat| post.is_live(id) == pre.is_live(id) by {
        if id < pre.next_id() {
            assert(slot_notified(pre.slots()[id as int], value, post.slots()[id as int]));
        }
    }
    assert(live_ids(post) =~= live_ids(pre));
    assert forall|id: nat| pre.is_live(id) implies C::delivered(
        pre.slots()[id as int]->0,
        value,
        #[trigger] post.slots()[id as int]->0,
    ) by {
        assert(slot_notified(pre.slots()[id as int], value, post.slots()[id as int]));
    }
}

/// A run of changes keeps the number of slots, and takes each slot through a
/// notification pass for each value in turn.
pub proof fn changes_notify_each_slot<T, C: Callback<T>>(
    pre: Source<T, C>,
    values: Seq<T>,
    post: Source<T, C>,
)
    requires
        changed_through(pre, values, post),
    ensures
        post.next_id() == pre.next_id(),
        values.len() > 0 ==> post.value() == values.last(),
        values.len() == 0 ==> post.value() == pre.value(),
        forall|id: nat|
            id < pre.next_id() ==> slot_notified_through(
                pre.slots()[id as int],
                values,
                #[trigger] post.slots()[id as int],
            ),
    decreases values.len(),
{
    if values.len() > 0 {
        let mid = choose|mid: Source<T, C>|
            changed(pre, values.first(), mid) && changed_through(mid, values.drop_first(), post);
        changes_notify_each_slot(mid, values.drop_first(), post);
        assert forall|id: nat| id < pre.next_id() implies slot_notified_through(
            pre.slots()[id as int],
            values,
            #[trigger] post.slots()[id as int],
        ) by {
            assert(slot_notified(pre.slots()[id as int], values.first(), mid.slots()[id as int]));
        }
        if values.drop_first().len() > 0 {
            assert(values.drop_first().last() == values.last());
        }
    }
}

/// An empty slot stays empty however often it is notified.
pub proof fn empty_slot_stays_empty<T, C: Callback<T>>(values: Seq<T>, post: Option<C>)
    requires
        slot_notified_through(None::<C>, values, post),
    ensures
        post is None,
    decreases values.len(),
{
    if values.len() > 0 {
        let mid = choose|mid: Option<C>|
            slot_notified(None::<C>, values.first(), mid) && slot_notified_through(
                mid,
                values.drop_first(),
                post,
            );
        empty_slot_stays_empty(values.drop_first(), post);
    }
}

/// Unsubscribe isolation: once a subscription is cancelled, no later change
/// of the value invokes its callback, while every other slot goes through
/// exactly the notifications it would have gone through anyway.
pub proof fn unsubscribe_isolation<T, C: Callback<T>>(
    pre: Source<T, C>,
    id: nat,
    cancelled: Source<T, C>,
    values: Seq<T>,
    post: Source<T, C>,
)
    requires
        unsubscribed(pre, id, cancelled),
        changed_through(cancelled, values, post),
    ensures
        !post.is_live(id),
        post.next_id() == pre.next_id(),
        forall|other: nat|
            other != id && other < pre.next_id() ==> slot_notified_through(
                pre.slots()[other as int],
                values,
                #[trigger] post.slots()[other as int],
            ),
{
    changes_notify_each_slot(cancelled, values, post);
    if id < pre.next_id() {
        assert(cancelled.slots()[id as int] is None);
        assert(slot_notified_through(
            cancelled.slots()[id as int],
            values,
            post.slots()[id as int],
        ));
        empty_slot_stays_empty(values, post.slots()[id as int]);
    }
    assert forall|other: nat| other != id && other < pre.next_id() implies slot_notified_through(
        pre.slots()[other as int],
        values,
        #[trigger] post.slots()[other as int],
    ) by {
        assert(cancelled.slots()[other as int] == pre.slots()[other as int]);
    }
}

/// The number of ids that `operations` hand out.
pub open spec fn ids_handed_out<T, C>(operations: Seq<Operation<T, C>>) -> nat
    decreases operations.len(),
{
    if operations.len() == 0 {
        0
    } else if operations.first() is Observe {
        1 + ids_handed_out(operations.drop_first())
    } else {
        ids_handed_out(operations.drop_first())
    }
}

/// Ids are stable and never reused: no operation takes a slot away, and only
/// handing out an id adds one. So an id that has been handed out stays below
/// every id that is handed out later.
pub proof fn ids_are_never_reused<T, C: Callback<T>>(
    pre: Source<T, C>,
    operations: Seq<Operation<T, C>>,
    post: Source<T, C>,
)
    requires
        performed_all(pre, operations, post),
    ensures
        pre.next_id() <= post.next_id(),
        post.next_id() == pre.next_id() + ids_handed_out(operations),
    decreases operations.len(),
{
    if operations.len() > 0 {
        let mid = choose|mid: Source<T, C>|
            performed(pre, operations.first(), mid) && performed_all(
                mid,
                operations.drop_first(),
                post,
            );
        ids_are_never_reused(mid, operations.drop_first(), post);
    }
}

/// The value changes only when it is set.
pub proof fn value_changes_only_by_setting<T, C: Callback<T>>(
    pre: Source<T, C>,
    operations: Seq<Operation<T, C>>,
    post: Source<T, C>,
)
    requires
        performed_all(pre, operations, post),
        forall|i: int| 0 <= i < operations.len() ==> !(#[trigger] operations[i] is Change),
    ensures
        post.value() == pre.value(),
    decreases operations.len(),
{
    if operations.len() > 0 {
        let mid = choose|mid: Source<T, C>|
            performed(pre, operations.first(), mid) && performed_all(
                mid,
                operations.drop_first(),
                post,
            );
        assert(!(operations[0] is Change));
        assert forall|i: int| 0 <= i < operations.drop_first().len() implies !(
        #[trigger] operations.drop_first()[i] is Change) by {
            assert(operations.drop_first()[i] == operations[i + 1]);
        }
        value_changes_only_by_setting(mid, operations.drop_first(), post);
    }
}

/// A cancelled subscription stays cancelled: whatever is done to the source
/// afterwards, short of subscribing under the same id again, the slot stays
/// empty, so no callback is invoked on its behalf.
pub proof fn cancelled_stays_cancelled<T, C: Callback<T>>(
    pre: Source<T, C>,
    id: nat,
    operations: Seq<Operation<T, C>>,
    post: Source<T, C>,
)
    requires
        !pre.is_live(id),
        performed_all(pre, operations, post),
        forall|i: int|
            0 <= i < operations.len() ==> !(#[trigger] operations[i] matches Operation::Subscribe(
                under,
                _,
            ) && under == id),
    ensures
        !post.is_live(id),
    decreases operations.len(),
{
    if operations.len() > 0 {
        let mid = choose|mid: Source<T, C>|
            performed(pre, operations.first(), mid) && performed_all(
                mid,
                operations.drop_first(),
                post,
            );
        let first = operations[0];
        assert(!(first matches Operation::Subscribe(under, _) && under == id));
        match first {
            Operation::Change(value) => {
                if id < pre.next_id() {
                    assert(slot_notified(pre.slots()[id as int], value, mid.slots()[id as int]));
                }
            },
            _ => {},
        }
        assert(!mid.is_live(id));
        assert forall|i: int| 0 <= i < operations.drop_first().len() implies !(
        #[trigger] operations.drop_first()[i] matches Operation::Subscribe(under, _) && under
            == id) by {
            assert(operations.drop_first()[i] == operations[i + 1]);
        }
        cancelled_stays_cancelled(mid, id, operations.drop_first(), post);
    }
}

/// A closure in a slot that is notified of each of `values` in turn has been
/// invoked with exactly these values, once each and in this order, on top of
/// what it had been invoked with before.
pub proof fn closure_is_invoked_once_per_notification<T, R, F: FnMut(&T) -> R>(
    pre: Option<FnCallback<T, F>>,
    values: Seq<T>,
    post: Option<FnCallback<T, F>>,
)
    requires
        pre is Some,
        slot_notified_through(pre, values, post),
    ensures
        post is Some,
        post->0.function() == pre->0.function(),
        post->0.received() == pre->0.received() + values,
    decreases values.len(),
{
    if values.len() > 0 {
        let mid = choose|mid: Option<FnCallback<T, F>>|
            slot_notified(pre, values.first(), mid) && slot_notified_through(
                mid,
                values.drop_first(),
                post,
            );
        closure_is_invoked_once_per_notification(mid, values.drop_first(), post);
        assert(pre->0.received().push(values.first()) + values.drop_first() =~= pre->0.received()
            + values);
    } else {
        assert(pre->0.received() + values =~= pre->0.received());
    }
}

/// Initial push and change propagation, for a closure: once it is subscribed
/// and the value has been set to each of `values` in turn, the closure has
/// been invoked with the value held at subscription and then with each of
/// `values`, once each and in this order, and with nothing else since.
pub proof fn closure_history<T, R, F: FnMut(&T) -> R>(
    pre: Source<T, FnCallback<T, F>>,
    id: nat,
    callback: FnCallback<T, F>,
    registered: Source<T, FnCallback<T, F>>,
    values: Seq<T>,
    post: Source<T, FnCallback<T, F>>,
)
    requires
        id < pre.next_id(),
        subscribed(pre, id, callback, registered),
        changed_through(registered, values, post),
    ensures
        post.is_live(id),
        post.slots()[id as int]->0.function() == callback.function(),
        post.slots()[id as int]->0.received() == callback.received() + (seq![pre.value()] + values),
{
    changes_notify_each_slot(registered, values, post);
    closure_is_invoked_once_per_notification(
        registered.slots()[id as int],
        values,
        post.slots()[id as int],
    );
    assert(callback.received().push(pre.value()) + values =~= callback.received() + (seq![
        pre.value(),
    ] + values));
}

/// A callback registered by a mapped observable, notified of each of
/// `values` in turn, has handed its downstream callback a result of the
/// mapping function for each of them, in the same order.
pub proof fn notifications_are_forwarded<T, B, F: Fn(&T) -> B, D: Callback<B>>(
    pre: Option<MapCallback<F, D, B>>,
    values: Seq<T>,
    post: Option<MapCallback<F, D, B>>,
)
    requires
        pre is Some,
        slot_notified_through(pre, values, post),
    ensures
        post is Some,
        *post->0.mapping_fn == *pre->0.mapping_fn,
        forwarded_through(*pre->0.mapping_fn, pre->0.downstream, values, post->0.downstream),
    decreases values.len(),
{
    if values.len() > 0 {
        let mid = choose|mid: Option<MapCallback<F, D, B>>|
            slot_notified(pre, values.first(), mid) && slot_notified_through(
                mid,
                values.drop_first(),
                post,
            );
        notifications_are_forwarded(mid, values.drop_first(), post);
        let item = choose|item: B|
            call_ensures(*pre->0.mapping_fn, (&values.first(),), item) && D::delivered(
                pre->0.downstream,
                item,
                mid->0.downstream,
            );
        assert(forwarded_through(
            *pre->0.mapping_fn,
            mid->0.downstream,
            values.drop_first(),
            post->0.downstream,
        ));
    }
}

/// Map forwarding: a callback subscribed through `observer.map(f)` is invoked
/// with a result of `f` for the value that the source holds when it
/// subscribes, and then with a result of `f` for every value that the source
/// is set to, once each and in that order.
pub proof fn map_forwarding<T, B, F: Fn(&T) -> B, D: Callback<B>>(
    mapped: Mapped<Observer<T>, F, B>,
    callback: D,
    pre: Source<T, MapCallback<F, D, B>>,
    registered: Source<T, MapCallback<F, D, B>>,
    values: Seq<T>,
    post: Source<T, MapCallback<F, D, B>>,
)
    requires
        mapped.id() < pre.next_id(),
        subscribed(pre, mapped.id(), mapped.stored(callback), registered),
        changed_through(registered, values, post),
    ensures
        post.is_live(mapped.id()),
        forwarded_through(
            mapped.mapping_fn(),
            callback,
            seq![pre.value()] + values,
            post.slots()[mapped.id() as int]->0.downstream,
        ),
{
    let id = mapped.id() as int;
    let all = seq![pre.value()] + values;
    let stored = registered.slots()[id]->0;
    changes_notify_each_slot(registered, values, post);
    notifications_are_forwarded(registered.slots()[id], values, post.slots()[id]);
    assert(all.first() == pre.value());
    assert(all.drop_first() =~= values);
    let item = choose|item: B|
        call_ensures(mapped.mapping_fn(), (&pre.value(),), item) && D::delivered(
            callback,
            item,
            stored.downstream,
        );
    assert(forwarded_through(
        mapped.mapping_fn(),
        stored.downstream,
        all.drop_first(),
        post.slots()[id]->0.downstream,
    ));
}

/// Where the downstream callback is a closure, what it has been invoked with
/// can be read off its history: `forwarded_through` adds to the history one
/// result of the mapping function for each of `values`, in the same order.
pub proof fn forwarded_values_are_received<T, B, R, F: Fn(&T) -> B, G: FnMut(&B) -> R>(
    f: F,
    pre: FnCallback<B, G>,
    values: Seq<T>,
    post: FnCallback<B, G>,
) -> (items: Seq<B>)
    requires
        forwarded_through(f, pre, values, post),
    ensures
        items.len() == values.len(),
        forall|i: int|
            0 <= i < values.len() ==> call_ensures(f, (&values[i],), #[trigger] items[i]),
        post.received() == pre.received() + items,
        post.function() == pre.function(),
    decreases values.len(),
{
    if values.len() == 0 {
        assert(pre.received() + Seq::<B>::empty() =~= pre.received());
        Seq::empty()
    } else {
        let (item, mid) = choose|item: B, mid: FnCallback<B, G>|
            {
                &&& call_ensures(f, (&values.first(),), item)
                &&& <FnCallback<B, G> as Callback<B>>::delivered(pre, item, mid)
                &&& forwarded_through(f, mid, values.drop_first(), post)
            };
        let rest = forwarded_values_are_received(f, mid, values.drop_first(), post);
        let items = seq![item] + rest;
        assert forall|i: int| 0 <= i < values.len() implies call_ensures(
            f,
            (&values[i],),
            #[trigger] items[i],
        ) by {
            if i > 0 {
                assert(values[i] == values.drop_first()[i - 1]);
                assert(items[i] == rest[i - 1]);
            }
        }
        assert(pre.received().push(item) + rest =~= pre.received() + items);
        items
    }
}

/// Map teardown: the token returned by subscribing through a mapped
/// observable names the registration at the source itself, so cancelling it
/// leaves the slot empty and the source as if the slot had been emptied
/// without ever subscribing.
pub proof fn map_teardown<O, B, F, D>(
    mapped: Mapped<O, F, B>,
    callback: D,
    pre: Source<O::Value, O::Stored>,
    registered: Source<O::Value, O::Stored>,
    token: Unsub<O::Value>,
    post: Source<O::Value, O::Stored>,
) where F: Fn(&O::Item) -> B, D: Callback<B>, O: Subscribe<MapCallback<F, D, B>>
    requires
        subscribed(pre, mapped.id(), mapped.stored(callback), registered),
        token.id() == mapped.id(),
        unsubscribed(registered, token.id(), post),
    ensures
        !post.is_live(mapped.id()),
        unsubscribed(pre, mapped.id(), post),
{
    if mapped.id() < pre.next_id() {
        assert(post.slots() =~= pre.slots().update(mapped.id() as int, None));
    }
}

} // verus!
