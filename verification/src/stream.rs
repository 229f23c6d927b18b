//! Staged processing of deliveries.
//!
//! A stream is a chain of stages, composed statically. One delivery enters at
//! the head of the chain and either comes out at its end, transformed, or is
//! dropped on the way. `subscribe` ends the chain with a handler; what it
//! returns is the one call sequence that every delivery then takes.
//!
//! Stages are executable functions, so what a stage does is known by its
//! contract alone: `call_ensures(f, (x,), y)` reads "`f` may answer `y` to
//! `x`". The contracts here are relations built from those, and the laws at
//! the end of this file are proved for every choice of stage functions.
//!
//! A stage can also be a type of its own that implements `Stream`, as
//! `Messages` does. For a chain of such stages the verifier sees every type
//! that travels through it, which it does not for a chain of closures: where
//! verified code needs the exact result of one concrete chain, it writes its
//! stages that way.

use vstd::prelude::*;
use crate::buffers::{is_message_of, TCStr};

verus! {

/// A chain of stages that takes deliveries of type `Input` and passes on
/// values of type `Output`.
pub trait Stream: Sized + Send {
    /// What enters the chain at its head.
    type Input;

    /// What leaves the chain at its end.
    type Output;

    /// Every stage that `x` reaches on its way is ready to take what reaches it.
    spec fn admits(&self, x: Self::Input) -> bool;

    /// The chain may answer `out` to the delivery `x`: `Some` of what leaves
    /// it, or `None` where a stage drops the delivery.
    spec fn emits(&self, x: Self::Input, out: Option<Self::Output>) -> bool;

    /// Sends one delivery through the chain.
    fn feed(&self, x: Self::Input) -> (out: Option<Self::Output>)
        requires
            self.admits(x),
        ensures
            self.emits(x, out),
    ;

    /// Ends the chain with `handler`.
    fn subscribe<H>(self, handler: H) -> (sub: Subscription<Self, H>) where
        H: Fn(Self::Output) + Sync + Send + 'static,

        ensures
            sub.stream == self,
            sub.handler == handler,
    {
        Subscription { stream: self, handler }
    }

    /// Appends a stage that passes on what `f` makes of each value.
    fn map<F, R>(self, f: F) -> (s: Mapped<Self, F>) where F: Fn(Self::Output) -> R + Sync + Send
        ensures
            s.inner == self,
            s.f == f,
    {
        Mapped { inner: self, f }
    }

    /// Appends a stage that passes on the values of which `f` approves.
    fn filter<F>(self, f: F) -> (s: Filter<Self, F>) where
        F: Fn(&Self::Output) -> bool + Sync + Send,

        ensures
            s.inner == self,
            s.f == f,
    {
        Filter { inner: self, f }
    }

    /// Appends a stage that passes on what `f` makes of each value, where it
    /// makes anything of it.
    fn filter_map<F, T>(self, f: F) -> (s: FilterMap<Self, F>) where
        F: Fn(Self::Output) -> Option<T> + Sync + Send,

        ensures
            s.inner == self,
            s.f == f,
    {
        FilterMap { inner: self, f }
    }

    /// Appends a stage that shows each value to `f` and passes it on unchanged.
    fn inspect<F>(self, f: F) -> (s: Inspect<Self, F>) where F: Fn(&Self::Output) + Sync + Send
        ensures
            s.inner == self,
            s.f == f,
    {
        Inspect { inner: self, f }
    }
}

/// The head of every chain: it passes each delivery on as it came.
pub struct InputStream<T>(pub core::marker::PhantomData<T>);

impl<T: Send> InputStream<T> {
    /// A chain without stages: it admits every delivery and passes it on.
    pub fn new() -> (s: Self)
        ensures
            forall|x: T| s.admits(x),
            forall|x: T, out: Option<T>| #[trigger] s.emits(x, out) <==> out == Some(x),
    {
        InputStream(core::marker::PhantomData)
    }
}

impl<T: Send> Stream for InputStream<T> {
    type Input = T;

    type Output = T;

    open spec fn admits(&self, x: T) -> bool {
        true
    }

    open spec fn emits(&self, x: T, out: Option<T>) -> bool {
        out == Some(x)
    }

    fn feed(&self, x: T) -> (out: Option<T>) {
        Some(x)
    }
}

/// A chain of raw deliveries followed by the stage that takes the message
/// out of each: the bytes before the first terminator.
pub struct Messages<S> {
    /// The chain before the stage.
    pub inner: S,
}

impl<S> Stream for Messages<S> where S: Stream<Output = Vec<u8>> {
    type Input = S::Input;

    type Output = TCStr;

    open spec fn admits(&self, x: S::Input) -> bool {
        self.inner.admits(x)
    }

    open spec fn emits(&self, x: S::Input, out: Option<TCStr>) -> bool {
        exists|mid: Option<Vec<u8>>| #[trigger]
            self.inner.emits(x, mid) && match mid {
                Some(raw) => out is Some && is_message_of(out->0@, raw@),
                None => out is None,
            }
    }

    fn feed(&self, x: S::Input) -> (out: Option<TCStr>) {
        match self.inner.feed(x) {
            Some(raw) => Some(TCStr::new(raw.as_slice())),
            None => None,
        }
    }
}

/// The chain that a connector's deliveries enter: each arrives as the bytes
/// that the connector handed over and leaves as the message they hold.
pub fn input_stream() -> (s: Messages<InputStream<Vec<u8>>>)
    ensures
        forall|raw: Vec<u8>| s.admits(raw),
        forall|raw: Vec<u8>, out: Option<TCStr>| #[trigger]
            s.emits(raw, out) <==> (out is Some && is_message_of(out->0@, raw@)),
{
    let s = Messages { inner: InputStream::new() };
    assert forall|raw: Vec<u8>, out: Option<TCStr>|
        (out is Some && is_message_of(out->0@, raw@)) implies #[trigger] s.emits(raw, out) by {
        assert(s.inner.emits(raw, Some(raw)));
    }
    s
}

/// A chain followed by a transforming stage.
pub struct Mapped<S, F> {
    /// The chain before the stage.
    pub inner: S,
    /// The stage.
    pub f: F,
}

impl<S, F, R> Stream for Mapped<S, F> where
    S: Stream,
    F: Fn(S::Output) -> R + Sync + Send + 'static,
 {
    type Input = S::Input;

    type Output = R;

    open spec fn admits(&self, x: S::Input) -> bool {
        &&& self.inner.admits(x)
        &&& forall|y: S::Output| self.inner.emits(x, Some(y)) ==> call_requires(self.f, (y,))
    }

    open spec fn emits(&self, x: S::Input, out: Option<R>) -> bool {
        exists|mid: Option<S::Output>| #[trigger]
            self.inner.emits(x, mid) && match mid {
                Some(y) => out is Some && call_ensures(self.f, (y,), out->0),
                None => out is None,
            }
    }

    fn feed(&self, x: S::Input) -> (out: Option<R>) {
        match self.inner.feed(x) {
            Some(y) => Some((self.f)(y)),
            None => None,
        }
    }
}

/// A chain followed by a stage that drops what its predicate refuses.
pub struct Filter<S, F> {
    /// The chain before the stage.
    pub inner: S,
    /// The predicate.
    pub f: F,
}

impl<S, F> Stream for Filter<S, F> where
    S: Stream,
    F: Fn(&S::Output) -> bool + Sync + Send + 'static,
 {
    type Input = S::Input;

    type Output = S::Output;

    open spec fn admits(&self, x: S::Input) -> bool {
        &&& self.inner.admits(x)
        &&& forall|y: S::Output| self.inner.emits(x, Some(y)) ==> call_requires(self.f, (&y,))
    }

    open spec fn emits(&self, x: S::Input, out: Option<S::Output>) -> bool {
        exists|mid: Option<S::Output>| #[trigger]
            self.inner.emits(x, mid) && match mid {
                Some(y) => call_ensures(self.f, (&y,), out is Some) && (out is Some ==> out
                    == Some(y)),
                None => out is None,
            }
    }

    fn feed(&self, x: S::Input) -> (out: Option<S::Output>) {
        match self.inner.feed(x) {
            Some(y) => {
                if (self.f)(&y) {
                    Some(y)
                } else {
                    None
                }
            },
            None => None,
        }
    }
}

/// A chain followed by a stage that transforms and drops in one step.
pub struct FilterMap<S, F> {
    /// The chain before the stage.
    pub inner: S,
    /// The stage.
    pub f: F,
}

impl<S, F, T> Stream for FilterMap<S, F> where
    S: Stream,
    F: Fn(S::Output) -> Option<T> + Sync + Send + 'static,
 {
    type Input = S::Input;

    type Output = T;

    open spec fn admits(&self, x: S::Input) -> bool {
        &&& self.inner.admits(x)
        &&& forall|y: S::Output| self.inner.emits(x, Some(y)) ==> call_requires(self.f, (y,))
    }

    open spec fn emits(&self, x: S::Input, out: Option<T>) -> bool {
        exists|mid: Option<S::Output>| #[trigger]
            self.inner.emits(x, mid) && match mid {
                Some(y) => call_ensures(self.f, (y,), out),
                None => out is None,
            }
    }

    fn feed(&self, x: S::Input) -> (out: Option<T>) {
        match self.inner.feed(x) {
            Some(y) => (self.f)(y),
            None => None,
        }
    }
}

/// A chain followed by a stage that looks at each value and passes it on.
pub struct Inspect<S, F> {
    /// The chain before the stage.
    pub inner: S,
    /// The observer.
    pub f: F,
}

impl<S, F> Stream for Inspect<S, F> where
    S: Stream,
    F: Fn(&S::Output) + Sync + Send + 'static,
 {
    type Input = S::Input;

    type Output = S::Output;

    open spec fn admits(&self, x: S::Input) -> bool {
        &&& self.inner.admits(x)
        &&& forall|y: S::Output| self.inner.emits(x, Some(y)) ==> call_requires(self.f, (&y,))
    }

    open spec fn emits(&self, x: S::Input, out: Option<S::Output>) -> bool {
        exists|mid: Option<S::Output>| #[trigger]
            self.inner.emits(x, mid) && match mid {
                Some(y) => call_ensures(self.f, (&y,), ()) && out == Some(y),
                None => out is None,
            }
    }

    fn feed(&self, x: S::Input) -> (out: Option<S::Output>) {
        match self.inner.feed(x) {
            Some(y) => {
                (self.f)(&y);
                Some(y)
            },
            None => None,
        }
    }
}

/// A chain ended by its handler: the single call sequence that a delivery takes.
pub struct Subscription<S, H> {
    /// The chain of stages.
    pub stream: S,
    /// What receives the values that leave the chain.
    pub handler: H,
}

impl<S, H> Subscription<S, H> where S: Stream, H: Fn(S::Output) + Sync + Send + 'static {
    /// The chain admits `x`, and the handler is ready for whatever leaves it.
    pub open spec fn accepts(&self, x: S::Input) -> bool {
        &&& self.stream.admits(x)
        &&& forall|y: S::Output| self.stream.emits(x, Some(y)) ==> call_requires(self.handler, (y,))
    }

    /// The delivery `x` may end with the handler called (`handled`) or not:
    /// it is called exactly where a value leaves the chain, and on that value.
    pub open spec fn delivers(&self, x: S::Input, handled: bool) -> bool {
        exists|out: Option<S::Output>| #[trigger]
            self.stream.emits(x, out) && handled == (out is Some) && (out matches Some(y)
                ==> call_ensures(self.handler, (y,), ()))
    }

    /// Takes one delivery through the stages and, where a value leaves them,
    /// calls the handler on it before returning. Says whether it did.
    pub fn deliver(&self, x: S::Input) -> (handled: bool)
        requires
            self.accepts(x),
        ensures
            self.delivers(x, handled),
    {
        match self.stream.feed(x) {
            Some(y) => {
                (self.handler)(y);
                true
            },
            None => false,
        }
    }

    /// Takes a finite run of deliveries through the chain, one after the
    /// other in the order in which they arrived, and says of each whether the
    /// handler was called for it.
    pub fn deliver_all(&self, xs: Vec<S::Input>) -> (handled: Vec<bool>)
        requires
            forall|i: int| 0 <= i < xs@.len() ==> self.accepts(#[trigger] xs@[i]),
        ensures
            handled@.len() == xs@.len(),
            forall|i: int| 0 <= i < xs@.len() ==> self.delivers(xs@[i], #[trigger] handled@[i]),
    {
        let mut handled: Vec<bool> = Vec::new();
        for x in it: xs
            invariant
                it.seq() == xs@,
                handled@.len() == it.index(),
                forall|i: int| 0 <= i < xs@.len() ==> self.accepts(#[trigger] xs@[i]),
                forall|i: int|
                    0 <= i < handled@.len() ==> self.delivers(xs@[i], #[trigger] handled@[i]),
        {
            let h = self.deliver(x);
            handled.push(h);
        }
        handled
    }
}

/// A delivery `x` sent through `map(f).filter(p).subscribe(h)` ends with the
/// handler called exactly where `p` approves of what `f` made of `x`, and the
/// handler is then called on that very value.
pub proof fn map_filter_subscribe_law<T, R, F, P, H>(
    sub: Subscription<Filter<Mapped<InputStream<T>, F>, P>, H>,
    x: T,
    handled: bool,
) where
    T: Send,
    F: Fn(T) -> R + Sync + Send + 'static,
    P: Fn(&R) -> bool + Sync + Send + 'static,
    H: Fn(R) + Sync + Send + 'static,

    ensures
        sub.delivers(x, handled) <==> exists|y: R| #[trigger]
            call_ensures(sub.stream.inner.f, (x,), y) && call_ensures(
                sub.stream.f,
                (&y,),
                handled,
            ) && (handled ==> call_ensures(sub.handler, (y,), ())),
{
    let mapped = sub.stream.inner;
    let head = mapped.inner;
    if sub.delivers(x, handled) {
        let out = choose|out: Option<R>| #[trigger]
            sub.stream.emits(x, out) && handled == (out is Some) && (out matches Some(y)
                ==> call_ensures(sub.handler, (y,), ()));
        let mid = choose|mid: Option<R>| #[trigger]
            mapped.emits(x, mid) && match mid {
                Some(y) => call_ensures(sub.stream.f, (&y,), out is Some) && (out is Some ==> out
                    == Some(y)),
                None => out is None,
            };
        let first = choose|first: Option<T>| #[trigger]
            head.emits(x, first) && match first {
                Some(y) => mid is Some && call_ensures(mapped.f, (y,), mid->0),
                None => mid is None,
            };
        assert(first == Some(x));
        let y = mid->0;
        assert(call_ensures(sub.stream.inner.f, (x,), y));
    }
    if exists|y: R| #[trigger]
        call_ensures(sub.stream.inner.f, (x,), y) && call_ensures(sub.stream.f, (&y,), handled) && (
        handled ==> call_ensures(sub.handler, (y,), ())) {
        let y = choose|y: R| #[trigger]
            call_ensures(sub.stream.inner.f, (x,), y) && call_ensures(
                sub.stream.f,
                (&y,),
                handled,
            ) && (handled ==> call_ensures(sub.handler, (y,), ()));
        let out = if handled {
            Some(y)
        } else {
            None
        };
        assert(head.emits(x, Some(x)));
        assert(mapped.emits(x, Some(y)));
        assert(sub.stream.emits(x, out));
        assert(sub.delivers(x, handled));
    }
}

/// Where `f` computes the function `ff` and `p` decides the predicate `pp`,
/// a run of deliveries through `map(f).filter(p).subscribe(h)` reaches the
/// handler, delivery by delivery in the order of arrival, exactly where
/// `pp(ff(x))` holds, and what the handler is called on is `ff(x)`.
pub proof fn map_filter_keeps_arrival_order<T, R, F, P, H>(
    sub: Subscription<Filter<Mapped<InputStream<T>, F>, P>, H>,
    xs: Seq<T>,
    handled: Seq<bool>,
    ff: spec_fn(T) -> R,
    pp: spec_fn(R) -> bool,
) where
    T: Send,
    F: Fn(T) -> R + Sync + Send + 'static,
    P: Fn(&R) -> bool + Sync + Send + 'static,
    H: Fn(R) + Sync + Send + 'static,

    requires
        handled.len() == xs.len(),
        forall|i: int| 0 <= i < xs.len() ==> sub.delivers(xs[i], #[trigger] handled[i]),
        forall|x: T, y: R| call_ensures(sub.stream.inner.f, (x,), y) ==> y == ff(x),
        forall|y: R, b: bool| call_ensures(sub.stream.f, (&y,), b) ==> b == pp(y),
    ensures
        handled =~= Seq::new(xs.len(), |i: int| pp(ff(xs[i]))),
        forall|i: int|
            0 <= i < xs.len() && #[trigger] handled[i] ==> call_ensures(
                sub.handler,
                (ff(xs[i]),),
                (),
            ),
{
    assert forall|i: int| 0 <= i < xs.len() implies (#[trigger] handled[i] == pp(ff(xs[i])) && (
    handled[i] ==> call_ensures(sub.handler, (ff(xs[i]),), ()))) by {
        map_filter_subscribe_law(sub, xs[i], handled[i]);
        let y = choose|y: R| #[trigger]
            call_ensures(sub.stream.inner.f, (xs[i],), y) && call_ensures(
                sub.stream.f,
                (&y,),
                handled[i],
            ) && (handled[i] ==> call_ensures(sub.handler, (y,), ()));
        assert(y == ff(xs[i]));
    }
}

} // verus!
