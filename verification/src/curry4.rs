//! A curried 4-ary function.

use vstd::prelude::*;

use crate::call::{Call1, Call2, Call3, Call4, CallMut1, CallMut2, CallMut3, CallMut4, CallOnce1, CallOnce2, CallOnce3, CallOnce4, Duplicable};
use crate::curry2::Closure2;
use crate::curry3::Closure3;

verus! {

/// A curried 4-ary function.
///
/// Invoking it with all four arguments delegates to the wrapped callable;
/// invoking it with fewer arguments yields a partial-application closure
/// that remembers the supplied prefix and awaits the rest, one at a time.
#[derive(PartialEq, Eq, Clone, Copy, Default, Debug)]
pub struct Curry4<F>(pub F);

impl<F> Curry4<F> {
    /// Constructs a new `Curry4` from `f`.
    pub fn new(f: F) -> (r: Self)
        ensures
            r.0 == f,
    {
        Curry4(f)
    }

    /// References the inner value.
    pub fn as_ref(&self) -> (r: Curry4<&F>)
        ensures
            r.0 == self.0,
    {
        Curry4(&self.0)
    }

    /// Mutably references the inner value.
    pub fn as_mut(&mut self) -> (r: Curry4<&mut F>)
        ensures
            *r.0 == old(self).0,
            final(self).0 == *final(r.0),
    {
        Curry4(&mut self.0)
    }
}

impl<'f, F: Duplicable> Curry4<&'f F> {
    /// Duplicates the inner value out of the reference.
    pub fn cloned(&self) -> (r: Curry4<F>)
        ensures
            r.0 == *self.0,
    {
        Curry4(self.0.duplicate())
    }
}

impl<'f, F: Copy> Curry4<&'f F> {
    /// Copies the inner value out of the reference.
    pub fn copied(&self) -> (r: Curry4<F>)
        ensures
            r.0 == *self.0,
    {
        Curry4(*self.0)
    }
}

impl<'f, F: Duplicable> Curry4<&'f mut F> {
    /// Duplicates the inner value out of the mutable reference.
    pub fn cloned(&self) -> (r: Curry4<F>)
        ensures
            r.0 == *old(self.0),
    {
        Curry4(self.0.duplicate())
    }
}

impl<'f, F: Copy> Curry4<&'f mut F> {
    /// Copies the inner value out of the mutable reference.
    pub fn copied(&self) -> (r: Curry4<F>)
        ensures
            r.0 == *old(self.0),
    {
        Curry4(*self.0)
    }
}

impl<F: Duplicable> Duplicable for Curry4<F> {
    fn duplicate(&self) -> (r: Self) {
        Curry4(self.0.duplicate())
    }
}

impl<A, F> CallOnce1<A> for Curry4<F> {
    type O = Closure2<A, Curry4<F>>;

    open spec fn pre1(&self, a: A) -> bool {
        true
    }

    open spec fn out1(&self, a: A) -> Closure2<A, Curry4<F>> {
        (Closure2 { a, func: *self })
    }

    fn call_once1(self, a: A) -> (o: Closure2<A, Curry4<F>>) {
        Closure2 { a, func: self }
    }
}

impl<A, F: Duplicable> CallMut1<A> for Curry4<F> {
    open spec fn after1(&self, a: A) -> Self {
        *self
    }

    fn call_mut1(&mut self, a: A) -> (o: Closure2<A, Curry4<F>>) {
        Closure2 { a, func: Curry4(self.0.duplicate()) }
    }
}

impl<A, F: Duplicable> Call1<A> for Curry4<F> {
    fn call1(&self, a: A) -> (o: Closure2<A, Curry4<F>>) {
        Closure2 { a, func: Curry4(self.0.duplicate()) }
    }
}

impl<A, B, F> CallOnce2<A, B> for Curry4<F> {
    type O = Closure3<A, B, Curry4<F>>;

    open spec fn pre2(&self, a: A, b: B) -> bool {
        true
    }

    open spec fn out2(&self, a: A, b: B) -> Closure3<A, B, Curry4<F>> {
        (Closure3 { a, b, func: *self })
    }

    fn call_once2(self, a: A, b: B) -> (o: Closure3<A, B, Curry4<F>>) {
        Closure3 { a, b, func: self }
    }
}

impl<A, B, F: Duplicable> CallMut2<A, B> for Curry4<F> {
    open spec fn after2(&self, a: A, b: B) -> Self {
        *self
    }

    fn call_mut2(&mut self, a: A, b: B) -> (o: Closure3<A, B, Curry4<F>>) {
        Closure3 { a, b, func: Curry4(self.0.duplicate()) }
    }
}

impl<A, B, F: Duplicable> Call2<A, B> for Curry4<F> {
    fn call2(&self, a: A, b: B) -> (o: Closure3<A, B, Curry4<F>>) {
        Closure3 { a, b, func: Curry4(self.0.duplicate()) }
    }
}

impl<A, B, C, F> CallOnce3<A, B, C> for Curry4<F> {
    type O = Closure4<A, B, C, F>;

    open spec fn pre3(&self, a: A, b: B, c: C) -> bool {
        true
    }

    open spec fn out3(&self, a: A, b: B, c: C) -> Closure4<A, B, C, F> {
        (Closure4 { a, b, c, func: self.0 })
    }

    fn call_once3(self, a: A, b: B, c: C) -> (o: Closure4<A, B, C, F>) {
        Closure4 { a, b, c, func: self.0 }
    }
}

impl<A, B, C, F: Duplicable> CallMut3<A, B, C> for Curry4<F> {
    open spec fn after3(&self, a: A, b: B, c: C) -> Self {
        *self
    }

    fn call_mut3(&mut self, a: A, b: B, c: C) -> (o: Closure4<A, B, C, F>) {
        Closure4 { a, b, c, func: self.0.duplicate() }
    }
}

impl<A, B, C, F: Duplicable> Call3<A, B, C> for Curry4<F> {
    fn call3(&self, a: A, b: B, c: C) -> (o: Closure4<A, B, C, F>) {
        Closure4 { a, b, c, func: self.0.duplicate() }
    }
}

impl<A, B, C, D, G: CallOnce4<A, B, C, D>> CallOnce4<A, B, C, D> for Curry4<G> {
    type O = <G as CallOnce4<A, B, C, D>>::O;

    open spec fn pre4(&self, a: A, b: B, c: C, d: D) -> bool {
        self.0.pre4(a, b, c, d)
    }

    open spec fn out4(&self, a: A, b: B, c: C, d: D) -> Self::O {
        self.0.out4(a, b, c, d)
    }

    fn call_once4(self, a: A, b: B, c: C, d: D) -> (o: Self::O) {
        self.0.call_once4(a, b, c, d)
    }
}

impl<A, B, C, D, G: CallMut4<A, B, C, D>> CallMut4<A, B, C, D> for Curry4<G> {
    open spec fn after4(&self, a: A, b: B, c: C, d: D) -> Self {
        Curry4(self.0.after4(a, b, c, d))
    }

    fn call_mut4(&mut self, a: A, b: B, c: C, d: D) -> (o: Self::O) {
        self.0.call_mut4(a, b, c, d)
    }
}

impl<A, B, C, D, G: Call4<A, B, C, D>> Call4<A, B, C, D> for Curry4<G> {
    fn call4(&self, a: A, b: B, c: C, d: D) -> (o: Self::O) {
        self.0.call4(a, b, c, d)
    }
}

/// A partial application of a 4-ary function: three bound arguments
/// in call order plus the wrapped callable, awaiting one further argument.
#[derive(PartialEq, Eq, Clone, Copy, Default, Debug)]
pub struct Closure4<A, B, C, F> {
    /// The stored `A` parameter.
    pub a: A,
    /// The stored `B` parameter.
    pub b: B,
    /// The stored `C` parameter.
    pub c: C,
    /// The function being wrapped.
    pub func: F,
}

impl<A, B, C, F> Closure4<A, B, C, F> {
    /// Constructs a new `Closure4` from `a`, `b`, `c` and `func`.
    pub fn new(a: A, b: B, c: C, func: F) -> (r: Self)
        ensures
            r.a == a,
            r.b == b,
            r.c == c,
            r.func == func,
    {
        Closure4 { a, b, c, func }
    }
}

impl<A: Copy, B: Copy, C: Copy, F: Duplicable> Duplicable for Closure4<A, B, C, F> {
    fn duplicate(&self) -> (r: Self) {
        Closure4 { a: self.a, b: self.b, c: self.c, func: self.func.duplicate() }
    }
}

impl<A, B, C, D, G: CallOnce4<A, B, C, D>> CallOnce1<D> for Closure4<A, B, C, G> {
    type O = <G as CallOnce4<A, B, C, D>>::O;

    open spec fn pre1(&self, d: D) -> bool {
        self.func.pre4(self.a, self.b, self.c, d)
    }

    open spec fn out1(&self, d: D) -> Self::O {
        self.func.out4(self.a, self.b, self.c, d)
    }

    fn call_once1(self, d: D) -> (o: Self::O) {
        self.func.call_once4(self.a, self.b, self.c, d)
    }
}

impl<A: Copy, B: Copy, C: Copy, D, G: CallMut4<A, B, C, D>> CallMut1<D> for Closure4<A, B, C, G> {
    open spec fn after1(&self, d: D) -> Self {
        (Closure4 { a: self.a, b: self.b, c: self.c, func: self.func.after4(self.a, self.b, self.c, d) })
    }

    fn call_mut1(&mut self, d: D) -> (o: Self::O) {
        let a = self.a;
        let b = self.b;
        let c = self.c;
        self.func.call_mut4(a, b, c, d)
    }
}

impl<A: Copy, B: Copy, C: Copy, D, G: Call4<A, B, C, D>> Call1<D> for Closure4<A, B, C, G> {
    fn call1(&self, d: D) -> (o: Self::O) {
        self.func.call4(self.a, self.b, self.c, d)
    }
}

/// Invoking a curried 4-ary function with all arguments at once agrees
/// with the wrapped callable, and supplying any prefix of the arguments first
/// and the rest one at a time returns the same result: the split point does
/// not matter, the arguments reach the wrapped callable in call order, every
/// partial step is permitted unconditionally, and the final step is permitted
/// exactly when the wrapped callable's own precondition holds.
pub proof fn lemma_curry4_splits<A, B, C, D, F: CallOnce4<A, B, C, D>>(f: F, a: A, b: B, c: C, d: D)
    ensures
        Curry4(f).pre4(a, b, c, d) == f.pre4(a, b, c, d),
        Curry4(f).out4(a, b, c, d) == f.out4(a, b, c, d),
        Curry4(f).pre1(a),
        Curry4(f).out1(a).pre1(b),
        Curry4(f).out1(a).out1(b).pre1(c),
        Curry4(f).out1(a).out1(b).out1(c).pre1(d) == f.pre4(a, b, c, d),
        Curry4(f).out1(a).out1(b).out1(c).out1(d) == f.out4(a, b, c, d),
        Curry4(f).out2(a, b).out1(c).out1(d) == f.out4(a, b, c, d),
        Curry4(f).out3(a, b, c).out1(d) == f.out4(a, b, c, d),
        Curry4(f).out2(a, b).out1(c).pre1(d) == f.pre4(a, b, c, d),
        Curry4(f).out3(a, b, c).pre1(d) == f.pre4(a, b, c, d),
{
}

} // verus!
