//! A curried ternary function.

use vstd::prelude::*;

use crate::call::{Call1, Call2, Call3, CallMut1, CallMut2, CallMut3, CallOnce1, CallOnce2, CallOnce3, Duplicable};
use crate::curry2::Closure2;

verus! {

/// A curried ternary function.
///
/// Invoking it with all three arguments delegates to the wrapped callable;
/// invoking it with fewer arguments yields a partial-application closure
/// that remembers the supplied prefix and awaits the rest, one at a time.
#[derive(PartialEq, Eq, Clone, Copy, Default, Debug)]
pub struct Curry3<F>(pub F);

impl<F> Curry3<F> {
    /// Constructs a new `Curry3` from `f`.
    pub fn new(f: F) -> (r: Self)
        ensures
            r.0 == f,
    {
        Curry3(f)
    }

    /// References the inner value.
    pub fn as_ref(&self) -> (r: Curry3<&F>)
        ensures
            r.0 == self.0,
    {
        Curry3(&self.0)
    }

    /// Mutably references the inner value.
    pub fn as_mut(&mut self) -> (r: Curry3<&mut F>)
        ensures
            *r.0 == old(self).0,
            final(self).0 == *final(r.0),
    {
        Curry3(&mut self.0)
    }
}

impl<'f, F: Duplicable> Curry3<&'f F> {
    /// Duplicates the inner value out of the reference.
    pub fn cloned(&self) -> (r: Curry3<F>)
        ensures
            r.0 == *self.0,
    {
        Curry3(self.0.duplicate())
    }
}

impl<'f, F: Copy> Curry3<&'f F> {
    /// Copies the inner value out of the reference.
    pub fn copied(&self) -> (r: Curry3<F>)
        ensures
            r.0 == *self.0,
    {
        Curry3(*self.0)
    }
}

impl<'f, F: Duplicable> Curry3<&'f mut F> {
    /// Duplicates the inner value out of the mutable reference.
    pub fn cloned(&self) -> (r: Curry3<F>)
        ensures
            r.0 == *old(self.0),
    {
        Curry3(self.0.duplicate())
    }
}

impl<'f, F: Copy> Curry3<&'f mut F> {
    /// Copies the inner value out of the mutable reference.
    pub fn copied(&self) -> (r: Curry3<F>)
        ensures
            r.0 == *old(self.0),
    {
        Curry3(*self.0)
    }
}

impl<F: Duplicable> Duplicable for Curry3<F> {
    fn duplicate(&self) -> (r: Self) {
        Curry3(self.0.duplicate())
    }
}

impl<A, F> CallOnce1<A> for Curry3<F> {
    type O = Closure2<A, Curry3<F>>;

    open spec fn pre1(&self, a: A) -> bool {
        true
    }

    open spec fn out1(&self, a: A) -> Closure2<A, Curry3<F>> {
        (Closure2 { a, func: *self })
    }

    fn call_once1(self, a: A) -> (o: Closure2<A, Curry3<F>>) {
        Closure2 { a, func: self }
    }
}

impl<A, F: Duplicable> CallMut1<A> for Curry3<F> {
    open spec fn after1(&self, a: A) -> Self {
        *self
    }

    fn call_mut1(&mut self, a: A) -> (o: Closure2<A, Curry3<F>>) {
        Closure2 { a, func: Curry3(self.0.duplicate()) }
    }
}

impl<A, F: Duplicable> Call1<A> for Curry3<F> {
    fn call1(&self, a: A) -> (o: Closure2<A, Curry3<F>>) {
        Closure2 { a, func: Curry3(self.0.duplicate()) }
    }
}

impl<A, B, F> CallOnce2<A, B> for Curry3<F> {
    type O = Closure3<A, B, F>;

    open spec fn pre2(&self, a: A, b: B) -> bool {
        true
    }

    open spec fn out2(&self, a: A, b: B) -> Closure3<A, B, F> {
        (Closure3 { a, b, func: self.0 })
    }

    fn call_once2(self, a: A, b: B) -> (o: Closure3<A, B, F>) {
        Closure3 { a, b, func: self.0 }
    }
}

impl<A, B, F: Duplicable> CallMut2<A, B> for Curry3<F> {
    open spec fn after2(&self, a: A, b: B) -> Self {
        *self
    }

    fn call_mut2(&mut self, a: A, b: B) -> (o: Closure3<A, B, F>) {
        Closure3 { a, b, func: self.0.duplicate() }
    }
}

impl<A, B, F: Duplicable> Call2<A, B> for Curry3<F> {
    fn call2(&self, a: A, b: B) -> (o: Closure3<A, B, F>) {
        Closure3 { a, b, func: self.0.duplicate() }
    }
}

impl<A, B, C, G: CallOnce3<A, B, C>> CallOnce3<A, B, C> for Curry3<G> {
    type O = <G as CallOnce3<A, B, C>>::O;

    open spec fn pre3(&self, a: A, b: B, c: C) -> bool {
        self.0.pre3(a, b, c)
    }

    open spec fn out3(&self, a: A, b: B, c: C) -> Self::O {
        self.0.out3(a, b, c)
    }

    fn call_once3(self, a: A, b: B, c: C) -> (o: Self::O) {
        self.0.call_once3(a, b, c)
    }
}

impl<A, B, C, G: CallMut3<A, B, C>> CallMut3<A, B, C> for Curry3<G> {
    open spec fn after3(&self, a: A, b: B, c: C) -> Self {
        Curry3(self.0.after3(a, b, c))
    }

    fn call_mut3(&mut self, a: A, b: B, c: C) -> (o: Self::O) {
        self.0.call_mut3(a, b, c)
    }
}

impl<A, B, C, G: Call3<A, B, C>> Call3<A, B, C> for Curry3<G> {
    fn call3(&self, a: A, b: B, c: C) -> (o: Self::O) {
        self.0.call3(a, b, c)
    }
}

/// A partial application of a ternary function: two bound arguments
/// in call order plus the wrapped callable, awaiting one further argument.
#[derive(PartialEq, Eq, Clone, Copy, Default, Debug)]
pub struct Closure3<A, B, F> {
    /// The stored `A` parameter.
    pub a: A,
    /// The stored `B` parameter.
    pub b: B,
    /// The function being wrapped.
    pub func: F,
}

impl<A, B, F> Closure3<A, B, F> {
    /// Constructs a new `Closure3` from `a`, `b` and `func`.
    pub fn new(a: A, b: B, func: F) -> (r: Self)
        ensures
            r.a == a,
            r.b == b,
            r.func == func,
    {
        Closure3 { a, b, func }
    }
}

impl<A: Copy, B: Copy, F: Duplicable> Duplicable for Closure3<A, B, F> {
    fn duplicate(&self) -> (r: Self) {
        Closure3 { a: self.a, b: self.b, func: self.func.duplicate() }
    }
}

impl<A, B, C, G: CallOnce3<A, B, C>> CallOnce1<C> for Closure3<A, B, G> {
    type O = <G as CallOnce3<A, B, C>>::O;

    open spec fn pre1(&self, c: C) -> bool {
        self.func.pre3(self.a, self.b, c)
    }

    open spec fn out1(&self, c: C) -> Self::O {
        self.func.out3(self.a, self.b, c)
    }

    fn call_once1(self, c: C) -> (o: Self::O) {
        self.func.call_once3(self.a, self.b, c)
    }
}

impl<A: Copy, B: Copy, C, G: CallMut3<A, B, C>> CallMut1<C> for Closure3<A, B, G> {
    open spec fn after1(&self, c: C) -> Self {
        (Closure3 { a: self.a, b: self.b, func: self.func.after3(self.a, self.b, c) })
    }

    fn call_mut1(&mut self, c: C) -> (o: Self::O) {
        let a = self.a;
        let b = self.b;
        self.func.call_mut3(a, b, c)
    }
}

impl<A: Copy, B: Copy, C, G: Call3<A, B, C>> Call1<C> for Closure3<A, B, G> {
    fn call1(&self, c: C) -> (o: Self::O) {
        self.func.call3(self.a, self.b, c)
    }
}

/// Invoking a curried ternary function with all arguments at once agrees
/// with the wrapped callable, and supplying any prefix of the arguments first
/// and the rest one at a time returns the same result: the split point does
/// not matter, the arguments reach the wrapped callable in call order, every
/// partial step is permitted unconditionally, and the final step is permitted
/// exactly when the wrapped callable's own precondition holds.
pub proof fn lemma_curry3_splits<A, B, C, F: CallOnce3<A, B, C>>(f: F, a: A, b: B, c: C)
    ensures
        Curry3(f).pre3(a, b, c) == f.pre3(a, b, c),
        Curry3(f).out3(a, b, c) == f.out3(a, b, c),
        Curry3(f).pre1(a),
        Curry3(f).out1(a).pre1(b),
        Curry3(f).out1(a).out1(b).pre1(c) == f.pre3(a, b, c),
        Curry3(f).out1(a).out1(b).out1(c) == f.out3(a, b, c),
        Curry3(f).out2(a, b).out1(c) == f.out3(a, b, c),
        Curry3(f).out2(a, b).pre1(c) == f.pre3(a, b, c),
{
}

} // verus!
