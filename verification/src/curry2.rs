//! A curried binary function.

use vstd::prelude::*;

use crate::call::{Call1, Call2, CallMut1, CallMut2, CallOnce1, CallOnce2, Duplicable};

verus! {

/// A curried binary function.
///
/// Invoking it with both arguments delegates to the wrapped callable;
/// invoking it with one argument yields a [`Closure2`] that remembers the
/// argument and awaits the second.
#[derive(PartialEq, Eq, Clone, Copy, Default, Debug)]
pub struct Curry2<F>(pub F);

impl<F> Curry2<F> {
    /// Constructs a new `Curry2` from `f`.
    pub fn new(f: F) -> (r: Self)
        ensures
            r.0 == f,
    {
        Curry2(f)
    }

    /// References the inner value.
    pub fn as_ref(&self) -> (r: Curry2<&F>)
        ensures
            r.0 == self.0,
    {
        Curry2(&self.0)
    }

    /// Mutably references the inner value.
    pub fn as_mut(&mut self) -> (r: Curry2<&mut F>)
        ensures
            *r.0 == old(self).0,
            final(self).0 == *final(r.0),
    {
        Curry2(&mut self.0)
    }
}

impl<'f, F: Duplicable> Curry2<&'f F> {
    /// Duplicates the inner value out of the reference.
    pub fn cloned(&self) -> (r: Curry2<F>)
        ensures
            r.0 == *self.0,
    {
        Curry2(self.0.duplicate())
    }
}

impl<'f, F: Copy> Curry2<&'f F> {
    /// Copies the inner value out of the reference.
    pub fn copied(&self) -> (r: Curry2<F>)
        ensures
            r.0 == *self.0,
    {
        Curry2(*self.0)
    }
}

impl<'f, F: Duplicable> Curry2<&'f mut F> {
    /// Duplicates the inner value out of the mutable reference.
    pub fn cloned(&self) -> (r: Curry2<F>)
        ensures
            r.0 == *old(self.0),
    {
        Curry2(self.0.duplicate())
    }
}

impl<'f, F: Copy> Curry2<&'f mut F> {
    /// Copies the inner value out of the mutable reference.
    pub fn copied(&self) -> (r: Curry2<F>)
        ensures
            r.0 == *old(self.0),
    {
        Curry2(*self.0)
    }
}

impl<F: Duplicable> Duplicable for Curry2<F> {
    fn duplicate(&self) -> (r: Self) {
        Curry2(self.0.duplicate())
    }
}

impl<A, F> CallOnce1<A> for Curry2<F> {
    type O = Closure2<A, F>;

    open spec fn pre1(&self, a: A) -> bool {
        true
    }

    open spec fn out1(&self, a: A) -> Closure2<A, F> {
        (Closure2 { a, func: self.0 })
    }

    fn call_once1(self, a: A) -> (o: Closure2<A, F>) {
        Closure2 { a, func: self.0 }
    }
}

impl<A, F: Duplicable> CallMut1<A> for Curry2<F> {
    open spec fn after1(&self, a: A) -> Self {
        *self
    }

    fn call_mut1(&mut self, a: A) -> (o: Closure2<A, F>) {
        Closure2 { a, func: self.0.duplicate() }
    }
}

impl<A, F: Duplicable> Call1<A> for Curry2<F> {
    fn call1(&self, a: A) -> (o: Closure2<A, F>) {
        Closure2 { a, func: self.0.duplicate() }
    }
}

impl<A, B, F: CallOnce2<A, B>> CallOnce2<A, B> for Curry2<F> {
    type O = <F as CallOnce2<A, B>>::O;

    open spec fn pre2(&self, a: A, b: B) -> bool {
        self.0.pre2(a, b)
    }

    open spec fn out2(&self, a: A, b: B) -> Self::O {
        self.0.out2(a, b)
    }

    fn call_once2(self, a: A, b: B) -> (o: Self::O) {
        self.0.call_once2(a, b)
    }
}

impl<A, B, F: CallMut2<A, B>> CallMut2<A, B> for Curry2<F> {
    open spec fn after2(&self, a: A, b: B) -> Self {
        Curry2(self.0.after2(a, b))
    }

    fn call_mut2(&mut self, a: A, b: B) -> (o: Self::O) {
        self.0.call_mut2(a, b)
    }
}

impl<A, B, F: Call2<A, B>> Call2<A, B> for Curry2<F> {
    fn call2(&self, a: A, b: B) -> (o: Self::O) {
        self.0.call2(a, b)
    }
}

/// A partial application of a binary function: one bound argument plus the
/// wrapped callable, awaiting the final argument.
#[derive(PartialEq, Eq, Clone, Copy, Default, Debug)]
pub struct Closure2<A, F> {
    /// The stored first argument.
    pub a: A,
    /// The function being wrapped.
    pub func: F,
}

impl<A, F> Closure2<A, F> {
    /// Constructs a new `Closure2` from `a` and `func`.
    pub fn new(a: A, func: F) -> (r: Self)
        ensures
            r.a == a,
            r.func == func,
    {
        Closure2 { a, func }
    }
}

impl<A: Copy, F: Duplicable> Duplicable for Closure2<A, F> {
    fn duplicate(&self) -> (r: Self) {
        Closure2 { a: self.a, func: self.func.duplicate() }
    }
}

impl<A, B, F: CallOnce2<A, B>> CallOnce1<B> for Closure2<A, F> {
    type O = <F as CallOnce2<A, B>>::O;

    open spec fn pre1(&self, b: B) -> bool {
        self.func.pre2(self.a, b)
    }

    open spec fn out1(&self, b: B) -> Self::O {
        self.func.out2(self.a, b)
    }

    fn call_once1(self, b: B) -> (o: Self::O) {
        self.func.call_once2(self.a, b)
    }
}

impl<A: Copy, B, F: CallMut2<A, B>> CallMut1<B> for Closure2<A, F> {
    open spec fn after1(&self, b: B) -> Self {
        (Closure2 { a: self.a, func: self.func.after2(self.a, b) })
    }

    fn call_mut1(&mut self, b: B) -> (o: Self::O) {
        let a = self.a;
        self.func.call_mut2(a, b)
    }
}

impl<A: Copy, B, F: Call2<A, B>> Call1<B> for Closure2<A, F> {
    fn call1(&self, b: B) -> (o: Self::O) {
        self.func.call2(self.a, b)
    }
}

/// Invoking a curried binary function with both arguments at once agrees
/// with the wrapped callable, and partially applying the first argument and
/// then supplying the second returns the same result: the split point does
/// not matter, and the arguments reach the wrapped callable in call order.
pub proof fn lemma_curry2_splits<A, B, F: CallOnce2<A, B>>(f: F, a: A, b: B)
    ensures
        Curry2(f).pre2(a, b) == f.pre2(a, b),
        Curry2(f).out2(a, b) == f.out2(a, b),
        Curry2(f).pre1(a),
        Curry2(f).out1(a).pre1(b) == f.pre2(a, b),
        Curry2(f).out1(a).out1(b) == f.out2(a, b),
{
}

} // verus!
