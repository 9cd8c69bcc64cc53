//! The callable capability traits.
//!
//! A callable value accepts a fixed tuple of argument types and produces one
//! result. Three invocation capabilities exist, mirroring how often and under
//! what access a callable may be invoked:
//!
//! - `CallOnceN`: consume the callable and invoke it once;
//! - `CallMutN`: invoke repeatedly through exclusive access, possibly
//!   mutating internal state;
//! - `CallN`: invoke repeatedly through shared access, never mutating
//!   observable state.
//!
//! Each arity from 1 to 6 has its own trait triple. The contract of every
//! capability is phrased over two spec functions of the base trait: `preN`
//! says when a call is permitted, and `outN` says exactly which value a call
//! returns. A mutable-access call additionally pins the state after the call
//! with `afterN`. Because the result of every call form equals `outN` of the
//! receiver before the call, repeated shared-access invocation is guaranteed
//! to be observationally stable.
//!
//! `Duplicable` is the orthogonal capability of producing an independent copy
//! of oneself; the repeatable partial-application forms of the adapters
//! require it of the wrapped callable. A shared reference to a shared-access
//! callable is itself a callable of every capability, so the adapters can
//! also wrap callables they do not own.

use vstd::prelude::*;

verus! {

/// A callable that can produce an independent copy of itself.
///
/// Partial application by shared or mutable access must keep the wrapped
/// callable while also storing it inside the returned closure, so those call
/// forms are only available when the wrapped callable is duplicable.
pub trait Duplicable: Sized {
    /// Returns a copy of `self` that is equal to it.
    fn duplicate(&self) -> (r: Self)
        ensures
            r == *self,
    ;
}

/// A unary callable that may be invoked once, consuming itself.
pub trait CallOnce1<A>: Sized {
    /// The result type of an invocation.
    type O;

    /// When an invocation with argument `a` is permitted.
    spec fn pre1(&self, a: A) -> bool;

    /// The value an invocation with argument `a` returns.
    spec fn out1(&self, a: A) -> Self::O;

    /// Consumes the callable and invokes it with `a`.
    fn call_once1(self, a: A) -> (o: Self::O)
        requires
            self.pre1(a),
        ensures
            o == self.out1(a),
    ;
}

/// A unary callable that may be invoked repeatedly through exclusive access.
pub trait CallMut1<A>: CallOnce1<A> {
    /// The state of the callable after an invocation with argument `a`.
    spec fn after1(&self, a: A) -> Self;

    /// Invokes the callable with `a` through exclusive access.
    fn call_mut1(&mut self, a: A) -> (o: Self::O)
        requires
            old(self).pre1(a),
        ensures
            o == old(self).out1(a),
            *final(self) == old(self).after1(a),
    ;
}

/// A unary callable that may be invoked repeatedly through shared access.
pub trait Call1<A>: CallMut1<A> {
    /// Invokes the callable with `a` through shared access.
    fn call1(&self, a: A) -> (o: Self::O)
        requires
            self.pre1(a),
        ensures
            o == self.out1(a),
    ;
}

/// A binary callable that may be invoked once, consuming itself.
pub trait CallOnce2<A, B>: Sized {
    /// The result type of an invocation.
    type O;

    /// When an invocation with arguments `a, b` is permitted.
    spec fn pre2(&self, a: A, b: B) -> bool;

    /// The value an invocation with arguments `a, b` returns.
    spec fn out2(&self, a: A, b: B) -> Self::O;

    /// Consumes the callable and invokes it with `a, b`.
    fn call_once2(self, a: A, b: B) -> (o: Self::O)
        requires
            self.pre2(a, b),
        ensures
            o == self.out2(a, b),
    ;
}

/// A binary callable that may be invoked repeatedly through exclusive access.
pub trait CallMut2<A, B>: CallOnce2<A, B> {
    /// The state of the callable after an invocation with arguments `a, b`.
    spec fn after2(&self, a: A, b: B) -> Self;

    /// Invokes the callable with `a, b` through exclusive access.
    fn call_mut2(&mut self, a: A, b: B) -> (o: Self::O)
        requires
            old(self).pre2(a, b),
        ensures
            o == old(self).out2(a, b),
            *final(self) == old(self).after2(a, b),
    ;
}

/// A binary callable that may be invoked repeatedly through shared access.
pub trait Call2<A, B>: CallMut2<A, B> {
    /// Invokes the callable with `a, b` through shared access.
    fn call2(&self, a: A, b: B) -> (o: Self::O)
        requires
            self.pre2(a, b),
        ensures
            o == self.out2(a, b),
    ;
}

/// A ternary callable that may be invoked once, consuming itself.
pub trait CallOnce3<A, B, C>: Sized {
    /// The result type of an invocation.
    type O;

    /// When an invocation with arguments `a, b, c` is permitted.
    spec fn pre3(&self, a: A, b: B, c: C) -> bool;

    /// The value an invocation with arguments `a, b, c` returns.
    spec fn out3(&self, a: A, b: B, c: C) -> Self::O;

    /// Consumes the callable and invokes it with `a, b, c`.
    fn call_once3(self, a: A, b: B, c: C) -> (o: Self::O)
        requires
            self.pre3(a, b, c),
        ensures
            o == self.out3(a, b, c),
    ;
}

/// A ternary callable that may be invoked repeatedly through exclusive access.
pub trait CallMut3<A, B, C>: CallOnce3<A, B, C> {
    /// The state of the callable after an invocation with arguments `a, b, c`.
    spec fn after3(&self, a: A, b: B, c: C) -> Self;

    /// Invokes the callable with `a, b, c` through exclusive access.
    fn call_mut3(&mut self, a: A, b: B, c: C) -> (o: Self::O)
        requires
            old(self).pre3(a, b, c),
        ensures
            o == old(self).out3(a, b, c),
            *final(self) == old(self).after3(a, b, c),
    ;
}

/// A ternary callable that may be invoked repeatedly through shared access.
pub trait Call3<A, B, C>: CallMut3<A, B, C> {
    /// Invokes the callable with `a, b, c` through shared access.
    fn call3(&self, a: A, b: B, c: C) -> (o: Self::O)
        requires
            self.pre3(a, b, c),
        ensures
            o == self.out3(a, b, c),
    ;
}

/// A 4-ary callable that may be invoked once, consuming itself.
pub trait CallOnce4<A, B, C, D>: Sized {
    /// The result type of an invocation.
    type O;

    /// When an invocation with arguments `a, b, c, d` is permitted.
    spec fn pre4(&self, a: A, b: B, c: C, d: D) -> bool;

    /// The value an invocation with arguments `a, b, c, d` returns.
    spec fn out4(&self, a: A, b: B, c: C, d: D) -> Self::O;

    /// Consumes the callable and invokes it with `a, b, c, d`.
    fn call_once4(self, a: A, b: B, c: C, d: D) -> (o: Self::O)
        requires
            self.pre4(a, b, c, d),
        ensures
            o == self.out4(a, b, c, d),
    ;
}

/// A 4-ary callable that may be invoked repeatedly through exclusive access.
pub trait CallMut4<A, B, C, D>: CallOnce4<A, B, C, D> {
    /// The state of the callable after an invocation with arguments `a, b, c, d`.
    spec fn after4(&self, a: A, b: B, c: C, d: D) -> Self;

    /// Invokes the callable with `a, b, c, d` through exclusive access.
    fn call_mut4(&mut self, a: A, b: B, c: C, d: D) -> (o: Self::O)
        requires
            old(self).pre4(a, b, c, d),
        ensures
            o == old(self).out4(a, b, c, d),
            *final(self) == old(self).after4(a, b, c, d),
    ;
}

/// A 4-ary callable that may be invoked repeatedly through shared access.
pub trait Call4<A, B, C, D>: CallMut4<A, B, C, D> {
    /// Invokes the callable with `a, b, c, d` through shared access.
    fn call4(&self, a: A, b: B, c: C, d: D) -> (o: Self::O)
        requires
            self.pre4(a, b, c, d),
        ensures
            o == self.out4(a, b, c, d),
    ;
}

/// A 5-ary callable that may be invoked once, consuming itself.
pub trait CallOnce5<A, B, C, D, E>: Sized {
    /// The result type of an invocation.
    type O;

    /// When an invocation with arguments `a, b, c, d, e` is permitted.
    spec fn pre5(&self, a: A, b: B, c: C, d: D, e: E) -> bool;

    /// The value an invocation with arguments `a, b, c, d, e` returns.
    spec fn out5(&self, a: A, b: B, c: C, d: D, e: E) -> Self::O;

    /// Consumes the callable and invokes it with `a, b, c, d, e`.
    fn call_once5(self, a: A, b: B, c: C, d: D, e: E) -> (o: Self::O)
        requires
            self.pre5(a, b, c, d, e),
        ensures
            o == self.out5(a, b, c, d, e),
    ;
}

/// A 5-ary callable that may be invoked repeatedly through exclusive access.
pub trait CallMut5<A, B, C, D, E>: CallOnce5<A, B, C, D, E> {
    /// The state of the callable after an invocation with arguments `a, b, c, d, e`.
    spec fn after5(&self, a: A, b: B, c: C, d: D, e: E) -> Self;

    /// Invokes the callable with `a, b, c, d, e` through exclusive access.
    fn call_mut5(&mut self, a: A, b: B, c: C, d: D, e: E) -> (o: Self::O)
        requires
            old(self).pre5(a, b, c, d, e),
        ensures
            o == old(self).out5(a, b, c, d, e),
            *final(self) == old(self).after5(a, b, c, d, e),
    ;
}

/// A 5-ary callable that may be invoked repeatedly through shared access.
pub trait Call5<A, B, C, D, E>: CallMut5<A, B, C, D, E> {
    /// Invokes the callable with `a, b, c, d, e` through shared access.
    fn call5(&self, a: A, b: B, c: C, d: D, e: E) -> (o: Self::O)
        requires
            self.pre5(a, b, c, d, e),
        ensures
            o == self.out5(a, b, c, d, e),
    ;
}

/// A 6-ary callable that may be invoked once, consuming itself.
pub trait CallOnce6<A, B, C, D, E, F>: Sized {
    /// The result type of an invocation.
    type O;

    /// When an invocation with arguments `a, b, c, d, e, f` is permitted.
    spec fn pre6(&self, a: A, b: B, c: C, d: D, e: E, f: F) -> bool;

    /// The value an invocation with arguments `a, b, c, d, e, f` returns.
    spec fn out6(&self, a: A, b: B, c: C, d: D, e: E, f: F) -> Self::O;

    /// Consumes the callable and invokes it with `a, b, c, d, e, f`.
    fn call_once6(self, a: A, b: B, c: C, d: D, e: E, f: F) -> (o: Self::O)
        requires
            self.pre6(a, b, c, d, e, f),
        ensures
            o == self.out6(a, b, c, d, e, f),
    ;
}

/// A 6-ary callable that may be invoked repeatedly through exclusive access.
pub trait CallMut6<A, B, C, D, E, F>: CallOnce6<A, B, C, D, E, F> {
    /// The state of the callable after an invocation with arguments `a, b, c, d, e, f`.
    spec fn after6(&self, a: A, b: B, c: C, d: D, e: E, f: F) -> Self;

    /// Invokes the callable with `a, b, c, d, e, f` through exclusive access.
    fn call_mut6(&mut self, a: A, b: B, c: C, d: D, e: E, f: F) -> (o: Self::O)
        requires
            old(self).pre6(a, b, c, d, e, f),
        ensures
            o == old(self).out6(a, b, c, d, e, f),
            *final(self) == old(self).after6(a, b, c, d, e, f),
    ;
}

/// A 6-ary callable that may be invoked repeatedly through shared access.
pub trait Call6<A, B, C, D, E, F>: CallMut6<A, B, C, D, E, F> {
    /// Invokes the callable with `a, b, c, d, e, f` through shared access.
    fn call6(&self, a: A, b: B, c: C, d: D, e: E, f: F) -> (o: Self::O)
        requires
            self.pre6(a, b, c, d, e, f),
        ensures
            o == self.out6(a, b, c, d, e, f),
    ;
}

impl<'g, G> Duplicable for &'g G {
    fn duplicate(&self) -> (r: Self) {
        *self
    }
}

impl<'g, A, G: Call1<A>> CallOnce1<A> for &'g G {
    type O = <G as CallOnce1<A>>::O;

    open spec fn pre1(&self, a: A) -> bool {
        (**self).pre1(a)
    }

    open spec fn out1(&self, a: A) -> Self::O {
        (**self).out1(a)
    }

    fn call_once1(self, a: A) -> (o: Self::O) {
        (*self).call1(a)
    }
}

impl<'g, A, G: Call1<A>> CallMut1<A> for &'g G {
    open spec fn after1(&self, a: A) -> Self {
        *self
    }

    fn call_mut1(&mut self, a: A) -> (o: Self::O) {
        (**self).call1(a)
    }
}

impl<'g, A, G: Call1<A>> Call1<A> for &'g G {
    fn call1(&self, a: A) -> (o: Self::O) {
        (**self).call1(a)
    }
}

impl<'g, A, B, G: Call2<A, B>> CallOnce2<A, B> for &'g G {
    type O = <G as CallOnce2<A, B>>::O;

    open spec fn pre2(&self, a: A, b: B) -> bool {
        (**self).pre2(a, b)
    }

    open spec fn out2(&self, a: A, b: B) -> Self::O {
        (**self).out2(a, b)
    }

    fn call_once2(self, a: A, b: B) -> (o: Self::O) {
        (*self).call2(a, b)
    }
}

impl<'g, A, B, G: Call2<A, B>> CallMut2<A, B> for &'g G {
    open spec fn after2(&self, a: A, b: B) -> Self {
        *self
    }

    fn call_mut2(&mut self, a: A, b: B) -> (o: Self::O) {
        (**self).call2(a, b)
    }
}

impl<'g, A, B, G: Call2<A, B>> Call2<A, B> for &'g G {
    fn call2(&self, a: A, b: B) -> (o: Self::O) {
        (**self).call2(a, b)
    }
}

impl<'g, A, B, C, G: Call3<A, B, C>> CallOnce3<A, B, C> for &'g G {
    type O = <G as CallOnce3<A, B, C>>::O;

    open spec fn pre3(&self, a: A, b: B, c: C) -> bool {
        (**self).pre3(a, b, c)
    }

    open spec fn out3(&self, a: A, b: B, c: C) -> Self::O {
        (**self).out3(a, b, c)
    }

    fn call_once3(self, a: A, b: B, c: C) -> (o: Self::O) {
        (*self).call3(a, b, c)
    }
}

impl<'g, A, B, C, G: Call3<A, B, C>> CallMut3<A, B, C> for &'g G {
    open spec fn after3(&self, a: A, b: B, c: C) -> Self {
        *self
    }

    fn call_mut3(&mut self, a: A, b: B, c: C) -> (o: Self::O) {
        (**self).call3(a, b, c)
    }
}

impl<'g, A, B, C, G: Call3<A, B, C>> Call3<A, B, C> for &'g G {
    fn call3(&self, a: A, b: B, c: C) -> (o: Self::O) {
        (**self).call3(a, b, c)
    }
}

impl<'g, A, B, C, D, G: Call4<A, B, C, D>> CallOnce4<A, B, C, D> for &'g G {
    type O = <G as CallOnce4<A, B, C, D>>::O;

    open spec fn pre4(&self, a: A, b: B, c: C, d: D) -> bool {
        (**self).pre4(a, b, c, d)
    }

    open spec fn out4(&self, a: A, b: B, c: C, d: D) -> Self::O {
        (**self).out4(a, b, c, d)
    }

    fn call_once4(self, a: A, b: B, c: C, d: D) -> (o: Self::O) {
        (*self).call4(a, b, c, d)
    }
}

impl<'g, A, B, C, D, G: Call4<A, B, C, D>> CallMut4<A, B, C, D> for &'g G {
    open spec fn after4(&self, a: A, b: B, c: C, d: D) -> Self {
        *self
    }

    fn call_mut4(&mut self, a: A, b: B, c: C, d: D) -> (o: Self::O) {
        (**self).call4(a, b, c, d)
    }
}

impl<'g, A, B, C, D, G: Call4<A, B, C, D>> Call4<A, B, C, D> for &'g G {
    fn call4(&self, a: A, b: B, c: C, d: D) -> (o: Self::O) {
        (**self).call4(a, b, c, d)
    }
}

impl<'g, A, B, C, D, E, G: Call5<A, B, C, D, E>> CallOnce5<A, B, C, D, E> for &'g G {
    type O = <G as CallOnce5<A, B, C, D, E>>::O;

    open spec fn pre5(&self, a: A, b: B, c: C, d: D, e: E) -> bool {
        (**self).pre5(a, b, c, d, e)
    }

    open spec fn out5(&self, a: A, b: B, c: C, d: D, e: E) -> Self::O {
        (**self).out5(a, b, c, d, e)
    }

    fn call_once5(self, a: A, b: B, c: C, d: D, e: E) -> (o: Self::O) {
        (*self).call5(a, b, c, d, e)
    }
}

impl<'g, A, B, C, D, E, G: Call5<A, B, C, D, E>> CallMut5<A, B, C, D, E> for &'g G {
    open spec fn after5(&self, a: A, b: B, c: C, d: D, e: E) -> Self {
        *self
    }

    fn call_mut5(&mut self, a: A, b: B, c: C, d: D, e: E) -> (o: Self::O) {
        (**self).call5(a, b, c, d, e)
    }
}

impl<'g, A, B, C, D, E, G: Call5<A, B, C, D, E>> Call5<A, B, C, D, E> for &'g G {
    fn call5(&self, a: A, b: B, c: C, d: D, e: E) -> (o: Self::O) {
        (**self).call5(a, b, c, d, e)
    }
}

impl<'g, A, B, C, D, E, F, G: Call6<A, B, C, D, E, F>> CallOnce6<A, B, C, D, E, F> for &'g G {
    type O = <G as CallOnce6<A, B, C, D, E, F>>::O;

    open spec fn pre6(&self, a: A, b: B, c: C, d: D, e: E, f: F) -> bool {
        (**self).pre6(a, b, c, d, e, f)
    }

    open spec fn out6(&self, a: A, b: B, c: C, d: D, e: E, f: F) -> Self::O {
        (**self).out6(a, b, c, d, e, f)
    }

    fn call_once6(self, a: A, b: B, c: C, d: D, e: E, f: F) -> (o: Self::O) {
        (*self).call6(a, b, c, d, e, f)
    }
}

impl<'g, A, B, C, D, E, F, G: Call6<A, B, C, D, E, F>> CallMut6<A, B, C, D, E, F> for &'g G {
    open spec fn after6(&self, a: A, b: B, c: C, d: D, e: E, f: F) -> Self {
        *self
    }

    fn call_mut6(&mut self, a: A, b: B, c: C, d: D, e: E, f: F) -> (o: Self::O) {
        (**self).call6(a, b, c, d, e, f)
    }
}

impl<'g, A, B, C, D, E, F, G: Call6<A, B, C, D, E, F>> Call6<A, B, C, D, E, F> for &'g G {
    fn call6(&self, a: A, b: B, c: C, d: D, e: E, f: F) -> (o: Self::O) {
        (**self).call6(a, b, c, d, e, f)
    }
}

} // verus!
