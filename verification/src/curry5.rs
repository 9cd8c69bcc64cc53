//! A curried 5-ary function.

use vstd::prelude::*;

use crate::call::{Call1, Call2, Call3, Call4, Call5, CallMut1, CallMut2, CallMut3, CallMut4, CallMut5, CallOnce1, CallOnce2, CallOnce3, CallOnce4, CallOnce5, Duplicable};
use crate::curry2::Closure2;
use crate::curry3::Closure3;
use crate::curry4::Closure4;

verus! {

/// A curried 5-ary function.
///
/// Invoking it with all five arguments delegates to the wrapped callable;
/// invoking it with fewer arguments yields a partial-application closure
/// that remembers the supplied prefix and awaits the rest, one at a time.
#[derive(PartialEq, Eq, Clone, Copy, Default, Debug)]
pub struct Curry5<F>(pub F);

impl<F> Curry5<F> {
    /// Constructs a new `Curry5` from `f`.
    pub fn new(f: F) -> (r: Self)
        ensures
            r.0 == f,
    {
        Curry5(f)
    }

    /// References the inner value.
    pub fn as_ref(&self) -> (r: Curry5<&F>)
        ensures
            r.0 == self.0,
    {
        Curry5(&self.0)
    }

    /// Mutably references the inner value.
    pub fn as_mut(&mut self) -> (r: Curry5<&mut F>)
        ensures
            *r.0 == old(self).0,
            final(self).0 == *final(r.0),
    {
        Curry5(&mut self.0)
    }
}

impl<'f, F: Duplicable> Curry5<&'f F> {
    /// Duplicates the inner value out of the reference.
    pub fn cloned(&self) -> (r: Curry5<F>)
        ensures
            r.0 == *self.0,
    {
        Curry5(self.0.duplicate())
    }
}

impl<'f, F: Copy> Curry5<&'f F> {
    /// Copies the inner value out of the reference.
    pub fn copied(&self) -> (r: Curry5<F>)
        ensures
            r.0 == *self.0,
    {
        Curry5(*self.0)
    }
}

impl<'f, F: Duplicable> Curry5<&'f mut F> {
    /// Duplicates the inner value out of the mutable reference.
    pub fn cloned(&self) -> (r: Curry5<F>)
        ensures
            r.0 == *old(self.0),
    {
        Curry5(self.0.duplicate())
    }
}

impl<'f, F: Copy> Curry5<&'f mut F> {
    /// Copies the inner value out of the mutable reference.
    pub fn copied(&self) -> (r: Curry5<F>)
        ensures
            r.0 == *old(self.0),
    {
        Curry5(*self.0)
    }
}

impl<F: Duplicable> Duplicable for Curry5<F> {
    fn duplicate(&self) -> (r: Self) {
        Curry5(self.0.duplicate())
    }
}

impl<A, F> CallOnce1<A> for Curry5<F> {
    type O = Closure2<A, Curry5<F>>;

    open spec fn pre1(&self, a: A) -> bool {
        true
    }

    open spec fn out1(&self, a: A) -> Closure2<A, Curry5<F>> {
        (Closure2 { a, func: *self })
    }

    fn call_once1(self, a: A) -> (o: Closure2<A, Curry5<F>>) {
        Closure2 { a, func: self }
    }
}

impl<A, F: Duplicable> CallMut1<A> for Curry5<F> {
    open spec fn after1(&self, a: A) -> Self {
        *self
    }

    fn call_mut1(&mut self, a: A) -> (o: Closure2<A, Curry5<F>>) {
        Closure2 { a, func: Curry5(self.0.duplicate()) }
    }
}

impl<A, F: Duplicable> Call1<A> for Curry5<F> {
    fn call1(&self, a: A) -> (o: Closure2<A, Curry5<F>>) {
        Closure2 { a, func: Curry5(self.0.duplicate()) }
    }
}

impl<A, B, F> CallOnce2<A, B> for Curry5<F> {
    type O = Closure3<A, B, Curry5<F>>;

    open spec fn pre2(&self, a: A, b: B) -> bool {
        true
    }

    open spec fn out2(&self, a: A, b: B) -> Closure3<A, B, Curry5<F>> {
        (Closure3 { a, b, func: *self })
    }

    fn call_once2(self, a: A, b: B) -> (o: Closure3<A, B, Curry5<F>>) {
        Closure3 { a, b, func: self }
    }
}

impl<A, B, F: Duplicable> CallMut2<A, B> for Curry5<F> {
    open spec fn after2(&self, a: A, b: B) -> Self {
        *self
    }

    fn call_mut2(&mut self, a: A, b: B) -> (o: Closure3<A, B, Curry5<F>>) {
        Closure3 { a, b, func: Curry5(self.0.duplicate()) }
    }
}

impl<A, B, F: Duplicable> Call2<A, B> for Curry5<F> {
    fn call2(&self, a: A, b: B) -> (o: Closure3<A, B, Curry5<F>>) {
        Closure3 { a, b, func: Curry5(self.0.duplicate()) }
    }
}

impl<A, B, C, F> CallOnce3<A, B, C> for Curry5<F> {
    type O = Closure4<A, B, C, Curry5<F>>;

    open spec fn pre3(&self, a: A, b: B, c: C) -> bool {
        true
    }

    open spec fn out3(&self, a: A, b: B, c: C) -> Closure4<A, B, C, Curry5<F>> {
        (Closure4 { a, b, c, func: *self })
    }

    fn call_once3(self, a: A, b: B, c: C) -> (o: Closure4<A, B, C, Curry5<F>>) {
        Closure4 { a, b, c, func: self }
    }
}

impl<A, B, C, F: Duplicable> CallMut3<A, B, C> for Curry5<F> {
    open spec fn after3(&self, a: A, b: B, c: C) -> Self {
        *self
    }

    fn call_mut3(&mut self, a: A, b: B, c: C) -> (o: Closure4<A, B, C, Curry5<F>>) {
        Closure4 { a, b, c, func: Curry5(self.0.duplicate()) }
    }
}

impl<A, B, C, F: Duplicable> Call3<A, B, C> for Curry5<F> {
    fn call3(&self, a: A, b: B, c: C) -> (o: Closure4<A, B, C, Curry5<F>>) {
        Closure4 { a, b, c, func: Curry5(self.0.duplicate()) }
    }
}

impl<A, B, C, D, F> CallOnce4<A, B, C, D> for Curry5<F> {
    type O = Closure5<A, B, C, D, F>;

    open spec fn pre4(&self, a: A, b: B, c: C, d: D) -> bool {
        true
    }

    open spec fn out4(&self, a: A, b: B, c: C, d: D) -> Closure5<A, B, C, D, F> {
        (Closure5 { a, b, c, d, func: self.0 })
    }

    fn call_once4(self, a: A, b: B, c: C, d: D) -> (o: Closure5<A, B, C, D, F>) {
        Closure5 { a, b, c, d, func: self.0 }
    }
}

impl<A, B, C, D, F: Duplicable> CallMut4<A, B, C, D> for Curry5<F> {
    open spec fn after4(&self, a: A, b: B, c: C, d: D) -> Self {
        *self
    }

    fn call_mut4(&mut self, a: A, b: B, c: C, d: D) -> (o: Closure5<A, B, C, D, F>) {
        Closure5 { a, b, c, d, func: self.0.duplicate() }
    }
}

impl<A, B, C, D, F: Duplicable> Call4<A, B, C, D> for Curry5<F> {
    fn call4(&self, a: A, b: B, c: C, d: D) -> (o: Closure5<A, B, C, D, F>) {
        Closure5 { a, b, c, d, func: self.0.duplicate() }
    }
}

impl<A, B, C, D, E, G: CallOnce5<A, B, C, D, E>> CallOnce5<A, B, C, D, E> for Curry5<G> {
    type O = <G as CallOnce5<A, B, C, D, E>>::O;

    open spec fn pre5(&self, a: A, b: B, c: C, d: D, e: E) -> bool {
        self.0.pre5(a, b, c, d, e)
    }

    open spec fn out5(&self, a: A, b: B, c: C, d: D, e: E) -> Self::O {
        self.0.out5(a, b, c, d, e)
    }

    fn call_once5(self, a: A, b: B, c: C, d: D, e: E) -> (o: Self::O) {
        self.0.call_once5(a, b, c, d, e)
    }
}

impl<A, B, C, D, E, G: CallMut5<A, B, C, D, E>> CallMut5<A, B, C, D, E> for Curry5<G> {
    open spec fn after5(&self, a: A, b: B, c: C, d: D, e: E) -> Self {
        Curry5(self.0.after5(a, b, c, d, e))
    }

    fn call_mut5(&mut self, a: A, b: B, c: C, d: D, e: E) -> (o: Self::O) {
        self.0.call_mut5(a, b, c, d, e)
    }
}

impl<A, B, C, D, E, G: Call5<A, B, C, D, E>> Call5<A, B, C, D, E> for Curry5<G> {
    fn call5(&self, a: A, b: B, c: C, d: D, e: E) -> (o: Self::O) {
        self.0.call5(a, b, c, d, e)
    }
}

/// A partial application of a 5-ary function: four bound arguments
/// in call order plus the wrapped callable, awaiting one further argument.
#[derive(PartialEq, Eq, Clone, Copy, Default, Debug)]
pub struct Closure5<A, B, C, D, F> {
    /// The stored `A` parameter.
    pub a: A,
    /// The stored `B` parameter.
    pub b: B,
    /// The stored `C` parameter.
    pub c: C,
    /// The stored `D` parameter.
    pub d: D,
    /// The function being wrapped.
    pub func: F,
}

impl<A, B, C, D, F> Closure5<A, B, C, D, F> {
    /// Constructs a new `Closure5` from `a`, `b`, `c`, `d` and `func`.
    pub fn new(a: A, b: B, c: C, d: D, func: F) -> (r: Self)
        ensures
            r.a == a,
            r.b == b,
            r.c == c,
            r.d == d,
            r.func == func,
    {
        Closure5 { a, b, c, d, func }
    }
}

impl<A: Copy, B: Copy, C: Copy, D: Copy, F: Duplicable> Duplicable for Closure5<A, B, C, D, F> {
    fn duplicate(&self) -> (r: Self) {
        Closure5 { a: self.a, b: self.b, c: self.c, d: self.d, func: self.func.duplicate() }
    }
}

impl<A, B, C, D, E, G: CallOnce5<A, B, C, D, E>> CallOnce1<E> for Closure5<A, B, C, D, G> {
    type O = <G as CallOnce5<A, B, C, D, E>>::O;

    open spec fn pre1(&self, e: E) -> bool {
        self.func.pre5(self.a, self.b, self.c, self.d, e)
    }

    open spec fn out1(&self, e: E) -> Self::O {
        self.func.out5(self.a, self.b, self.c, self.d, e)
    }

    fn call_once1(self, e: E) -> (o: Self::O) {
        self.func.call_once5(self.a, self.b, self.c, self.d, e)
    }
}

impl<A: Copy, B: Copy, C: Copy, D: Copy, E, G: CallMut5<A, B, C, D, E>> CallMut1<E> for Closure5<A, B, C, D, G> {
    open spec fn after1(&self, e: E) -> Self {
        (Closure5 { a: self.a, b: self.b, c: self.c, d: self.d, func: self.func.after5(self.a, self.b, self.c, self.d, e) })
    }

    fn call_mut1(&mut self, e: E) -> (o: Self::O) {
        let a = self.a;
        let b = self.b;
        let c = self.c;
        let d = self.d;
        self.func.call_mut5(a, b, c, d, e)
    }
}

impl<A: Copy, B: Copy, C: Copy, D: Copy, E, G: Call5<A, B, C, D, E>> Call1<E> for Closure5<A, B, C, D, G> {
    fn call1(&self, e: E) -> (o: Self::O) {
        self.func.call5(self.a, self.b, self.c, self.d, e)
    }
}

/// Invoking a curried 5-ary function with all arguments at once agrees
/// with the wrapped callable, and supplying any prefix of the arguments first
/// and the rest one at a time returns the same result: the split point does
/// not matter, the arguments reach the wrapped callable in call order, every
/// partial step is permitted unconditionally, and the final step is permitted
/// exactly when the wrapped callable's own precondition holds.
pub proof fn lemma_curry5_splits<A, B, C, D, E, F: CallOnce5<A, B, C, D, E>>(f: F, a: A, b: B, c: C, d: D, e: E)
    ensures
        Curry5(f).pre5(a, b, c, d, e) == f.pre5(a, b, c, d, e),
        Curry5(f).out5(a, b, c, d, e) == f.out5(a, b, c, d, e),
        Curry5(f).pre1(a),
        Curry5(f).out1(a).pre1(b),
        Curry5(f).out1(a).out1(b).pre1(c),
        Curry5(f).out1(a).out1(b).out1(c).pre1(d),
        Curry5(f).out1(a).out1(b).out1(c).out1(d).pre1(e) == f.pre5(a, b, c, d, e),
        Curry5(f).out1(a).out1(b).out1(c).out1(d).out1(e) == f.out5(a, b, c, d, e),
        Curry5(f).out2(a, b).out1(c).out1(d).out1(e) == f.out5(a, b, c, d, e),
        Curry5(f).out3(a, b, c).out1(d).out1(e) == f.out5(a, b, c, d, e),
        Curry5(f).out4(a, b, c, d).out1(e) == f.out5(a, b, c, d, e),
        Curry5(f).out2(a, b).out1(c).out1(d).pre1(e) == f.pre5(a, b, c, d, e),
        Curry5(f).out3(a, b, c).out1(d).pre1(e) == f.pre5(a, b, c, d, e),
        Curry5(f).out4(a, b, c, d).pre1(e) == f.pre5(a, b, c, d, e),
{
}

} // verus!
