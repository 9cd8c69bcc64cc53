//! A curried 6-ary function.

use vstd::prelude::*;

use crate::call::{Call1, Call2, Call3, Call4, Call5, Call6, CallMut1, CallMut2, CallMut3, CallMut4, CallMut5, CallMut6, CallOnce1, CallOnce2, CallOnce3, CallOnce4, CallOnce5, CallOnce6, Duplicable};
use crate::curry2::Closure2;
use crate::curry3::Closure3;
use crate::curry4::Closure4;
use crate::curry5::Closure5;

verus! {

/// A curried 6-ary function.
///
/// Invoking it with all six arguments delegates to the wrapped callable;
/// invoking it with fewer arguments yields a partial-application closure
/// that remembers the supplied prefix and awaits the rest, one at a time.
#[derive(PartialEq, Eq, Clone, Copy, Default, Debug)]
pub struct Curry6<F>(pub F);

impl<F> Curry6<F> {
    /// Constructs a new `Curry6` from `f`.
    pub fn new(f: F) -> (r: Self)
        ensures
            r.0 == f,
    {
        Curry6(f)
    }

    /// References the inner value.
    pub fn as_ref(&self) -> (r: Curry6<&F>)
        ensures
            r.0 == self.0,
    {
        Curry6(&self.0)
    }

    /// Mutably references the inner value.
    pub fn as_mut(&mut self) -> (r: Curry6<&mut F>)
        ensures
            *r.0 == old(self).0,
            final(self).0 == *final(r.0),
    {
        Curry6(&mut self.0)
    }
}

impl<'f, F: Duplicable> Curry6<&'f F> {
    /// Duplicates the inner value out of the reference.
    pub fn cloned(&self) -> (r: Curry6<F>)
        ensures
            r.0 == *self.0,
    {
        Curry6(self.0.duplicate())
    }
}

impl<'f, F: Copy> Curry6<&'f F> {
    /// Copies the inner value out of the reference.
    pub fn copied(&self) -> (r: Curry6<F>)
        ensures
            r.0 == *self.0,
    {
        Curry6(*self.0)
    }
}

impl<'f, F: Duplicable> Curry6<&'f mut F> {
    /// Duplicates the inner value out of the mutable reference.
    pub fn cloned(&self) -> (r: Curry6<F>)
        ensures
            r.0 == *old(self.0),
    {
        Curry6(self.0.duplicate())
    }
}

impl<'f, F: Copy> Curry6<&'f mut F> {
    /// Copies the inner value out of the mutable reference.
    pub fn copied(&self) -> (r: Curry6<F>)
        ensures
            r.0 == *old(self.0),
    {
        Curry6(*self.0)
    }
}

impl<F: Duplicable> Duplicable for Curry6<F> {
    fn duplicate(&self) -> (r: Self) {
        Curry6(self.0.duplicate())
    }
}

impl<A, F> CallOnce1<A> for Curry6<F> {
    type O = Closure2<A, Curry6<F>>;

    open spec fn pre1(&self, a: A) -> bool {
        true
    }

    open spec fn out1(&self, a: A) -> Closure2<A, Curry6<F>> {
        (Closure2 { a, func: *self })
    }

    fn call_once1(self, a: A) -> (o: Closure2<A, Curry6<F>>) {
        Closure2 { a, func: self }
    }
}

impl<A, F: Duplicable> CallMut1<A> for Curry6<F> {
    open spec fn after1(&self, a: A) -> Self {
        *self
    }

    fn call_mut1(&mut self, a: A) -> (o: Closure2<A, Curry6<F>>) {
        Closure2 { a, func: Curry6(self.0.duplicate()) }
    }
}

impl<A, F: Duplicable> Call1<A> for Curry6<F> {
    fn call1(&self, a: A) -> (o: Closure2<A, Curry6<F>>) {
        Closure2 { a, func: Curry6(self.0.duplicate()) }
    }
}

impl<A, B, F> CallOnce2<A, B> for Curry6<F> {
    type O = Closure3<A, B, Curry6<F>>;

    open spec fn pre2(&self, a: A, b: B) -> bool {
        true
    }

    open spec fn out2(&self, a: A, b: B) -> Closure3<A, B, Curry6<F>> {
        (Closure3 { a, b, func: *self })
    }

    fn call_once2(self, a: A, b: B) -> (o: Closure3<A, B, Curry6<F>>) {
        Closure3 { a, b, func: self }
    }
}

impl<A, B, F: Duplicable> CallMut2<A, B> for Curry6<F> {
    open spec fn after2(&self, a: A, b: B) -> Self {
        *self
    }

    fn call_mut2(&mut self, a: A, b: B) -> (o: Closure3<A, B, Curry6<F>>) {
        Closure3 { a, b, func: Curry6(self.0.duplicate()) }
    }
}

impl<A, B, F: Duplicable> Call2<A, B> for Curry6<F> {
    fn call2(&self, a: A, b: B) -> (o: Closure3<A, B, Curry6<F>>) {
        Closure3 { a, b, func: Curry6(self.0.duplicate()) }
    }
}

impl<A, B, C, F> CallOnce3<A, B, C> for Curry6<F> {
    type O = Closure4<A, B, C, Curry6<F>>;

    open spec fn pre3(&self, a: A, b: B, c: C) -> bool {
        true
    }

    open spec fn out3(&self, a: A, b: B, c: C) -> Closure4<A, B, C, Curry6<F>> {
        (Closure4 { a, b, c, func: *self })
    }

    fn call_once3(self, a: A, b: B, c: C) -> (o: Closure4<A, B, C, Curry6<F>>) {
        Closure4 { a, b, c, func: self }
    }
}

impl<A, B, C, F: Duplicable> CallMut3<A, B, C> for Curry6<F> {
    open spec fn after3(&self, a: A, b: B, c: C) -> Self {
        *self
    }

    fn call_mut3(&mut self, a: A, b: B, c: C) -> (o: Closure4<A, B, C, Curry6<F>>) {
        Closure4 { a, b, c, func: Curry6(self.0.duplicate()) }
    }
}

impl<A, B, C, F: Duplicable> Call3<A, B, C> for Curry6<F> {
    fn call3(&self, a: A, b: B, c: C) -> (o: Closure4<A, B, C, Curry6<F>>) {
        Closure4 { a, b, c, func: Curry6(self.0.duplicate()) }
    }
}

impl<A, B, C, D, F> CallOnce4<A, B, C, D> for Curry6<F> {
    type O = Closure5<A, B, C, D, Curry6<F>>;

    open spec fn pre4(&self, a: A, b: B, c: C, d: D) -> bool {
        true
    }

    open spec fn out4(&self, a: A, b: B, c: C, d: D) -> Closure5<A, B, C, D, Curry6<F>> {
        (Closure5 { a, b, c, d, func: *self })
    }

    fn call_once4(self, a: A, b: B, c: C, d: D) -> (o: Closure5<A, B, C, D, Curry6<F>>) {
        Closure5 { a, b, c, d, func: self }
    }
}

impl<A, B, C, D, F: Duplicable> CallMut4<A, B, C, D> for Curry6<F> {
    open spec fn after4(&self, a: A, b: B, c: C, d: D) -> Self {
        *self
    }

    fn call_mut4(&mut self, a: A, b: B, c: C, d: D) -> (o: Closure5<A, B, C, D, Curry6<F>>) {
        Closure5 { a, b, c, d, func: Curry6(self.0.duplicate()) }
    }
}

impl<A, B, C, D, F: Duplicable> Call4<A, B, C, D> for Curry6<F> {
    fn call4(&self, a: A, b: B, c: C, d: D) -> (o: Closure5<A, B, C, D, Curry6<F>>) {
        Closure5 { a, b, c, d, func: Curry6(self.0.duplicate()) }
    }
}

impl<A, B, C, D, E, F> CallOnce5<A, B, C, D, E> for Curry6<F> {
    type O = Closure6<A, B, C, D, E, F>;

    open spec fn pre5(&self, a: A, b: B, c: C, d: D, e: E) -> bool {
        true
    }

    open spec fn out5(&self, a: A, b: B, c: C, d: D, e: E) -> Closure6<A, B, C, D, E, F> {
        (Closure6 { a, b, c, d, e, func: self.0 })
    }

    fn call_once5(self, a: A, b: B, c: C, d: D, e: E) -> (o: Closure6<A, B, C, D, E, F>) {
        Closure6 { a, b, c, d, e, func: self.0 }
    }
}

impl<A, B, C, D, E, F: Duplicable> CallMut5<A, B, C, D, E> for Curry6<F> {
    open spec fn after5(&self, a: A, b: B, c: C, d: D, e: E) -> Self {
        *self
    }

    fn call_mut5(&mut self, a: A, b: B, c: C, d: D, e: E) -> (o: Closure6<A, B, C, D, E, F>) {
        Closure6 { a, b, c, d, e, func: self.0.duplicate() }
    }
}

impl<A, B, C, D, E, F: Duplicable> Call5<A, B, C, D, E> for Curry6<F> {
    fn call5(&self, a: A, b: B, c: C, d: D, e: E) -> (o: Closure6<A, B, C, D, E, F>) {
        Closure6 { a, b, c, d, e, func: self.0.duplicate() }
    }
}

impl<A, B, C, D, E, F, G: CallOnce6<A, B, C, D, E, F>> CallOnce6<A, B, C, D, E, F> for Curry6<G> {
    type O = <G as CallOnce6<A, B, C, D, E, F>>::O;

    open spec fn pre6(&self, a: A, b: B, c: C, d: D, e: E, f: F) -> bool {
        self.0.pre6(a, b, c, d, e, f)
    }

    open spec fn out6(&self, a: A, b: B, c: C, d: D, e: E, f: F) -> Self::O {
        self.0.out6(a, b, c, d, e, f)
    }

    fn call_once6(self, a: A, b: B, c: C, d: D, e: E, f: F) -> (o: Self::O) {
        self.0.call_once6(a, b, c, d, e, f)
    }
}

impl<A, B, C, D, E, F, G: CallMut6<A, B, C, D, E, F>> CallMut6<A, B, C, D, E, F> for Curry6<G> {
    open spec fn after6(&self, a: A, b: B, c: C, d: D, e: E, f: F) -> Self {
        Curry6(self.0.after6(a, b, c, d, e, f))
    }

    fn call_mut6(&mut self, a: A, b: B, c: C, d: D, e: E, f: F) -> (o: Self::O) {
        self.0.call_mut6(a, b, c, d, e, f)
    }
}

impl<A, B, C, D, E, F, G: Call6<A, B, C, D, E, F>> Call6<A, B, C, D, E, F> for Curry6<G> {
    fn call6(&self, a: A, b: B, c: C, d: D, e: E, f: F) -> (o: Self::O) {
        self.0.call6(a, b, c, d, e, f)
    }
}

/// A partial application of a 6-ary function: five bound arguments
/// in call order plus the wrapped callable, awaiting one further argument.
#[derive(PartialEq, Eq, Clone, Copy, Default, Debug)]
pub struct Closure6<A, B, C, D, E, F> {
    /// The stored `A` parameter.
    pub a: A,
    /// The stored `B` parameter.
    pub b: B,
    /// The stored `C` parameter.
    pub c: C,
    /// The stored `D` parameter.
    pub d: D,
    /// The stored `E` parameter.
    pub e: E,
    /// The function being wrapped.
    pub func: F,
}

impl<A, B, C, D, E, F> Closure6<A, B, C, D, E, F> {
    /// Constructs a new `Closure6` from `a`, `b`, `c`, `d`, `e` and `func`.
    pub fn new(a: A, b: B, c: C, d: D, e: E, func: F) -> (r: Self)
        ensures
            r.a == a,
            r.b == b,
            r.c == c,
            r.d == d,
            r.e == e,
            r.func == func,
    {
        Closure6 { a, b, c, d, e, func }
    }
}

impl<A: Copy, B: Copy, C: Copy, D: Copy, E: Copy, F: Duplicable> Duplicable for Closure6<A, B, C, D, E, F> {
    fn duplicate(&self) -> (r: Self) {
        Closure6 { a: self.a, b: self.b, c: self.c, d: self.d, e: self.e, func: self.func.duplicate() }
    }
}

impl<A, B, C, D, E, F, G: CallOnce6<A, B, C, D, E, F>> CallOnce1<F> for Closure6<A, B, C, D, E, G> {
    type O = <G as CallOnce6<A, B, C, D, E, F>>::O;

    open spec fn pre1(&self, f: F) -> bool {
        self.func.pre6(self.a, self.b, self.c, self.d, self.e, f)
    }

    open spec fn out1(&self, f: F) -> Self::O {
        self.func.out6(self.a, self.b, self.c, self.d, self.e, f)
    }

    fn call_once1(self, f: F) -> (o: Self::O) {
        self.func.call_once6(self.a, self.b, self.c, self.d, self.e, f)
    }
}

impl<A: Copy, B: Copy, C: Copy, D: Copy, E: Copy, F, G: CallMut6<A, B, C, D, E, F>> CallMut1<F> for Closure6<A, B, C, D, E, G> {
    open spec fn after1(&self, f: F) -> Self {
        (Closure6 { a: self.a, b: self.b, c: self.c, d: self.d, e: self.e, func: self.func.after6(self.a, self.b, self.c, self.d, self.e, f) })
    }

    fn call_mut1(&mut self, f: F) -> (o: Self::O) {
        let a = self.a;
        let b = self.b;
        let c = self.c;
        let d = self.d;
        let e = self.e;
        self.func.call_mut6(a, b, c, d, e, f)
    }
}

impl<A: Copy, B: Copy, C: Copy, D: Copy, E: Copy, F, G: Call6<A, B, C, D, E, F>> Call1<F> for Closure6<A, B, C, D, E, G> {
    fn call1(&self, f: F) -> (o: Self::O) {
        self.func.call6(self.a, self.b, self.c, self.d, self.e, f)
    }
}

/// Invoking a curried 6-ary function with all arguments at once agrees
/// with the wrapped callable, and supplying any prefix of the arguments first
/// and the rest one at a time returns the same result: the split point does
/// not matter, the arguments reach the wrapped callable in call order, every
/// partial step is permitted unconditionally, and the final step is permitted
/// exactly when the wrapped callable's own precondition holds.
pub proof fn lemma_curry6_splits<A, B, C, D, E, F, G: CallOnce6<A, B, C, D, E, F>>(g: G, a: A, b: B, c: C, d: D, e: E, f: F)
    ensures
        Curry6(g).pre6(a, b, c, d, e, f) == g.pre6(a, b, c, d, e, f),
        Curry6(g).out6(a, b, c, d, e, f) == g.out6(a, b, c, d, e, f),
        Curry6(g).pre1(a),
        Curry6(g).out1(a).pre1(b),
        Curry6(g).out1(a).out1(b).pre1(c),
        Curry6(g).out1(a).out1(b).out1(c).pre1(d),
        Curry6(g).out1(a).out1(b).out1(c).out1(d).pre1(e),
        Curry6(g).out1(a).out1(b).out1(c).out1(d).out1(e).pre1(f) == g.pre6(a, b, c, d, e, f),
        Curry6(g).out1(a).out1(b).out1(c).out1(d).out1(e).out1(f) == g.out6(a, b, c, d, e, f),
        Curry6(g).out2(a, b).out1(c).out1(d).out1(e).out1(f) == g.out6(a, b, c, d, e, f),
        Curry6(g).out3(a, b, c).out1(d).out1(e).out1(f) == g.out6(a, b, c, d, e, f),
        Curry6(g).out4(a, b, c, d).out1(e).out1(f) == g.out6(a, b, c, d, e, f),
        Curry6(g).out5(a, b, c, d, e).out1(f) == g.out6(a, b, c, d, e, f),
        Curry6(g).out2(a, b).out1(c).out1(d).out1(e).pre1(f) == g.pre6(a, b, c, d, e, f),
        Curry6(g).out3(a, b, c).out1(d).out1(e).pre1(f) == g.pre6(a, b, c, d, e, f),
        Curry6(g).out4(a, b, c, d).out1(e).pre1(f) == g.pre6(a, b, c, d, e, f),
        Curry6(g).out5(a, b, c, d, e).pre1(f) == g.pre6(a, b, c, d, e, f),
{
}

} // verus!
