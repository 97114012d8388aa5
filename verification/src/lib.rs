//! A synchronous reactive signal engine, and the few plain pieces of a view
//! layer that are built directly on it.
//!
//! # The engine
//!
//! A [`Source`] owns a value and a registry of callbacks. An [`Observer`] is a
//! handle that names one slot of that registry; subscribing through it pushes
//! the current value to the callback at once and registers it for every later
//! change. An [`Unsub`] cancels exactly one registration. [`Mapped`] derives a
//! new observable that transforms each value before handing it on.
//!
//! Handles neither own nor borrow the source. Whoever holds both passes the
//! source to each operation: as `Some(..)` while the source exists, as `None`
//! once it is gone. Every operation states what it does in either case, and
//! none of them can fail: a handle without a source does nothing.
//!
//! Changing the value takes the source by `&mut`, and so does subscribing.
//! While a source notifies its callbacks nothing else can reach it, so a
//! callback always sees the value that was set, never one in transition.
//!
//! # Around the engine
//!
//! [`components`] holds what a component does with a source: its local state,
//! and the decision which block of a conditional chain is shown. [`context`]
//! numbers the nodes of a tree, [`html`] names element kinds, and [`runtime`]
//! says what a model and an event handler hand to an application's runtime.
//!
//! # What is proved
//!
//! Each operation is specified by a relation between the source before and
//! after it, over the source's value and its sequence of slots
//! ([`reactive::changed`], [`reactive::subscribed`], ...). A callback is a state
//! machine whose steps are its invocations ([`Callback::delivered`]); the
//! relations say which callbacks took exactly one step, and with which value.
//! Module [`laws`] states what follows for whole runs of operations.
//!
//! # Calling the library from verified code
//!
//! A [`FnCallback`] records in ghost state what its closure has been invoked
//! with, so a caller can state what a closure has seen:
//!
//! ```ignore
//! fn example() {
//!     let mut source = Source::new(10u64);
//!     let observer = source.observer();
//!     let unsub = observer.subscribe(Some(&mut source), FnCallback::new(|v: &u64| {}));
//!     source.set(7);
//!     assert(source.slots()[0]->0.received() =~= seq![10u64, 7u64]);
//!     unsub.unwrap().unsubscribe(Some(&mut source));
//!     source.set(8);
//!     assert(source.slots()[0] is None);
//! }
//! ```
//!
//! The verifier does not know what a closure of a concrete type returns. A
//! caller that maps gets the full contract by being generic in the types of
//! its closures:
//!
//! ```ignore
//! fn halves<F: Fn(&u64) -> u64, G: FnMut(&u64)>(half: F, sink: G)
//!     requires
//!         forall|v: &u64| call_requires(half, (v,)),
//!         forall|v: &u64, r: u64| call_ensures(half, (v,), r) ==> r == *v / 2,
//!         forall|v: &u64| call_requires(sink, (v,)),
//! {
//!     let mut source = Source::new(10);
//!     let mapped = source.observer().map(half);
//!     let unsub = mapped.subscribe(Some(&mut source), FnCallback::new(sink));
//!     source.set(7);
//!     assert(source.slots()[0]->0.downstream.received() =~= seq![5u64, 3u64]);
//!     unsub.unwrap().unsubscribe(Some(&mut source));
//!     assert(!source.is_live(0));
//! }
//! ```

pub mod callback;
pub mod components;
pub mod context;
pub mod html;
pub mod laws;
pub mod mapped;
pub mod reactive;
pub mod runtime;

pub use callback::{Callback, FnCallback};
pub use mapped::{MapCallback, Mapped};
pub use reactive::{Observable, Observer, Source, Subscribe, Unsub};
