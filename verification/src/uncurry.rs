//! An uncurried function.

use vstd::prelude::*;

use crate::call::{
    Call1, Call2, Call3, Call4, Call5, Call6, CallMut1, CallMut2, CallMut3, CallMut4, CallMut5,
    CallMut6, CallOnce1, CallOnce2, CallOnce3, CallOnce4, CallOnce5, CallOnce6,
};
use crate::curry2::Curry2;
use crate::curry3::Curry3;
use crate::curry4::Curry4;
use crate::curry5::Curry5;
use crate::curry6::Curry6;

verus! {

/// The result of applying a unary callable to one argument.
pub type Step<F, A> = <F as CallOnce1<A>>::O;

/// An uncurried function.
///
/// Wraps a callable whose result, when invoked with one argument, is itself
/// invocable with one argument, nested up to six levels deep, and exposes
/// the chain as a single multi-argument callable: supplying `m` arguments
/// applies them strictly left to right, each nested call fully evaluated
/// before the next begins. The invocation capability matches across the
/// whole chain: a consuming call consumes each intermediate result, an
/// exclusive-access call invokes each through exclusive access, and a
/// shared-access call invokes each through shared access. No partial state
/// is retained between separate invocations; each call starts the nested
/// chain fresh from the stored wrapped value.
#[derive(PartialEq, Eq, Clone, Copy, Default, Debug)]
pub struct Uncurry<F>(pub F);

impl<A, F> CallOnce1<A> for Uncurry<F>
where
    F: CallOnce1<A>,
{
    type O = Step<F, A>;

    open spec fn pre1(&self, a: A) -> bool {
        self.0.pre1(a)
    }

    open spec fn out1(&self, a: A) -> Self::O {
        self.0.out1(a)
    }

    fn call_once1(self, a: A) -> (o: Self::O) {
        self.0.call_once1(a)
    }
}

impl<A, F> CallMut1<A> for Uncurry<F>
where
    F: CallMut1<A>,
{
    open spec fn after1(&self, a: A) -> Self {
        Uncurry(self.0.after1(a))
    }

    fn call_mut1(&mut self, a: A) -> (o: Self::O) {
        self.0.call_mut1(a)
    }
}

impl<A, F> Call1<A> for Uncurry<F>
where
    F: Call1<A>,
{
    fn call1(&self, a: A) -> (o: Self::O) {
        self.0.call1(a)
    }
}

impl<A, B, F> CallOnce2<A, B> for Uncurry<F>
where
    F: CallOnce1<A>,
    Step<F, A>: CallOnce1<B>,
{
    type O = Step<Step<F, A>, B>;

    open spec fn pre2(&self, a: A, b: B) -> bool {
        self.0.pre1(a) && self.0.out1(a).pre1(b)
    }

    open spec fn out2(&self, a: A, b: B) -> Self::O {
        self.0.out1(a).out1(b)
    }

    fn call_once2(self, a: A, b: B) -> (o: Self::O) {
        let g1 = self.0.call_once1(a);
        let g2 = g1.call_once1(b);
        g2
    }
}

impl<A, B, F> CallMut2<A, B> for Uncurry<F>
where
    F: CallMut1<A>,
    Step<F, A>: CallMut1<B>,
{
    open spec fn after2(&self, a: A, b: B) -> Self {
        Uncurry(self.0.after1(a))
    }

    fn call_mut2(&mut self, a: A, b: B) -> (o: Self::O) {
        let mut g1 = self.0.call_mut1(a);
        g1.call_mut1(b)
    }
}

impl<A, B, F> Call2<A, B> for Uncurry<F>
where
    F: Call1<A>,
    Step<F, A>: Call1<B>,
{
    fn call2(&self, a: A, b: B) -> (o: Self::O) {
        let g1 = self.0.call1(a);
        g1.call1(b)
    }
}

impl<A, B, C, F> CallOnce3<A, B, C> for Uncurry<F>
where
    F: CallOnce1<A>,
    Step<F, A>: CallOnce1<B>,
    Step<Step<F, A>, B>: CallOnce1<C>,
{
    type O = Step<Step<Step<F, A>, B>, C>;

    open spec fn pre3(&self, a: A, b: B, c: C) -> bool {
        self.0.pre1(a) && self.0.out1(a).pre1(b) && self.0.out1(a).out1(b).pre1(c)
    }

    open spec fn out3(&self, a: A, b: B, c: C) -> Self::O {
        self.0.out1(a).out1(b).out1(c)
    }

    fn call_once3(self, a: A, b: B, c: C) -> (o: Self::O) {
        let g1 = self.0.call_once1(a);
        let g2 = g1.call_once1(b);
        let g3 = g2.call_once1(c);
        g3
    }
}

impl<A, B, C, F> CallMut3<A, B, C> for Uncurry<F>
where
    F: CallMut1<A>,
    Step<F, A>: CallMut1<B>,
    Step<Step<F, A>, B>: CallMut1<C>,
{
    open spec fn after3(&self, a: A, b: B, c: C) -> Self {
        Uncurry(self.0.after1(a))
    }

    fn call_mut3(&mut self, a: A, b: B, c: C) -> (o: Self::O) {
        let mut g1 = self.0.call_mut1(a);
        let mut g2 = g1.call_mut1(b);
        g2.call_mut1(c)
    }
}

impl<A, B, C, F> Call3<A, B, C> for Uncurry<F>
where
    F: Call1<A>,
    Step<F, A>: Call1<B>,
    Step<Step<F, A>, B>: Call1<C>,
{
    fn call3(&self, a: A, b: B, c: C) -> (o: Self::O) {
        let g1 = self.0.call1(a);
        let g2 = g1.call1(b);
        g2.call1(c)
    }
}

impl<A, B, C, D, F> CallOnce4<A, B, C, D> for Uncurry<F>
where
    F: CallOnce1<A>,
    Step<F, A>: CallOnce1<B>,
    Step<Step<F, A>, B>: CallOnce1<C>,
    Step<Step<Step<F, A>, B>, C>: CallOnce1<D>,
{
    type O = Step<Step<Step<Step<F, A>, B>, C>, D>;

    open spec fn pre4(&self, a: A, b: B, c: C, d: D) -> bool {
        self.0.pre1(a) && self.0.out1(a).pre1(b) && self.0.out1(a).out1(b).pre1(c) && self.0.out1(a).out1(b).out1(c).pre1(d)
    }

    open spec fn out4(&self, a: A, b: B, c: C, d: D) -> Self::O {
        self.0.out1(a).out1(b).out1(c).out1(d)
    }

    fn call_once4(self, a: A, b: B, c: C, d: D) -> (o: Self::O) {
        let g1 = self.0.call_once1(a);
        let g2 = g1.call_once1(b);
        let g3 = g2.call_once1(c);
        let g4 = g3.call_once1(d);
        g4
    }
}

impl<A, B, C, D, F> CallMut4<A, B, C, D> for Uncurry<F>
where
    F: CallMut1<A>,
    Step<F, A>: CallMut1<B>,
    Step<Step<F, A>, B>: CallMut1<C>,
    Step<Step<Step<F, A>, B>, C>: CallMut1<D>,
{
    open spec fn after4(&self, a: A, b: B, c: C, d: D) -> Self {
        Uncurry(self.0.after1(a))
    }

    fn call_mut4(&mut self, a: A, b: B, c: C, d: D) -> (o: Self::O) {
        let mut g1 = self.0.call_mut1(a);
        let mut g2 = g1.call_mut1(b);
        let mut g3 = g2.call_mut1(c);
        g3.call_mut1(d)
    }
}

impl<A, B, C, D, F> Call4<A, B, C, D> for Uncurry<F>
where
    F: Call1<A>,
    Step<F, A>: Call1<B>,
    Step<Step<F, A>, B>: Call1<C>,
    Step<Step<Step<F, A>, B>, C>: Call1<D>,
{
    fn call4(&self, a: A, b: B, c: C, d: D) -> (o: Self::O) {
        let g1 = self.0.call1(a);
        let g2 = g1.call1(b);
        let g3 = g2.call1(c);
        g3.call1(d)
    }
}

impl<A, B, C, D, E, F> CallOnce5<A, B, C, D, E> for Uncurry<F>
where
    F: CallOnce1<A>,
    Step<F, A>: CallOnce1<B>,
    Step<Step<F, A>, B>: CallOnce1<C>,
    Step<Step<Step<F, A>, B>, C>: CallOnce1<D>,
    Step<Step<Step<Step<F, A>, B>, C>, D>: CallOnce1<E>,
{
    type O = Step<Step<Step<Step<Step<F, A>, B>, C>, D>, E>;

    open spec fn pre5(&self, a: A, b: B, c: C, d: D, e: E) -> bool {
        self.0.pre1(a) && self.0.out1(a).pre1(b) && self.0.out1(a).out1(b).pre1(c) && self.0.out1(a).out1(b).out1(c).pre1(d) && self.0.out1(a).out1(b).out1(c).out1(d).pre1(e)
    }

    open spec fn out5(&self, a: A, b: B, c: C, d: D, e: E) -> Self::O {
        self.0.out1(a).out1(b).out1(c).out1(d).out1(e)
    }

    fn call_once5(self, a: A, b: B, c: C, d: D, e: E) -> (o: Self::O) {
        let g1 = self.0.call_once1(a);
        let g2 = g1.call_once1(b);
        let g3 = g2.call_once1(c);
        let g4 = g3.call_once1(d);
        let g5 = g4.call_once1(e);
        g5
    }
}

impl<A, B, C, D, E, F> CallMut5<A, B, C, D, E> for Uncurry<F>
where
    F: CallMut1<A>,
    Step<F, A>: CallMut1<B>,
    Step<Step<F, A>, B>: CallMut1<C>,
    Step<Step<Step<F, A>, B>, C>: CallMut1<D>,
    Step<Step<Step<Step<F, A>, B>, C>, D>: CallMut1<E>,
{
    open spec fn after5(&self, a: A, b: B, c: C, d: D, e: E) -> Self {
        Uncurry(self.0.after1(a))
    }

    fn call_mut5(&mut self, a: A, b: B, c: C, d: D, e: E) -> (o: Self::O) {
        let mut g1 = self.0.call_mut1(a);
        let mut g2 = g1.call_mut1(b);
        let mut g3 = g2.call_mut1(c);
        let mut g4 = g3.call_mut1(d);
        g4.call_mut1(e)
    }
}

impl<A, B, C, D, E, F> Call5<A, B, C, D, E> for Uncurry<F>
where
    F: Call1<A>,
    Step<F, A>: Call1<B>,
    Step<Step<F, A>, B>: Call1<C>,
    Step<Step<Step<F, A>, B>, C>: Call1<D>,
    Step<Step<Step<Step<F, A>, B>, C>, D>: Call1<E>,
{
    fn call5(&self, a: A, b: B, c: C, d: D, e: E) -> (o: Self::O) {
        let g1 = self.0.call1(a);
        let g2 = g1.call1(b);
        let g3 = g2.call1(c);
        let g4 = g3.call1(d);
        g4.call1(e)
    }
}

impl<A, B, C, D, E, F, G> CallOnce6<A, B, C, D, E, F> for Uncurry<G>
where
    G: CallOnce1<A>,
    Step<G, A>: CallOnce1<B>,
    Step<Step<G, A>, B>: CallOnce1<C>,
    Step<Step<Step<G, A>, B>, C>: CallOnce1<D>,
    Step<Step<Step<Step<G, A>, B>, C>, D>: CallOnce1<E>,
    Step<Step<Step<Step<Step<G, A>, B>, C>, D>, E>: CallOnce1<F>,
{
    type O = Step<Step<Step<Step<Step<Step<G, A>, B>, C>, D>, E>, F>;

    open spec fn pre6(&self, a: A, b: B, c: C, d: D, e: E, f: F) -> bool {
        self.0.pre1(a) && self.0.out1(a).pre1(b) && self.0.out1(a).out1(b).pre1(c) && self.0.out1(a).out1(b).out1(c).pre1(d) && self.0.out1(a).out1(b).out1(c).out1(d).pre1(e) && self.0.out1(a).out1(b).out1(c).out1(d).out1(e).pre1(f)
    }

    open spec fn out6(&self, a: A, b: B, c: C, d: D, e: E, f: F) -> Self::O {
        self.0.out1(a).out1(b).out1(c).out1(d).out1(e).out1(f)
    }

    fn call_once6(self, a: A, b: B, c: C, d: D, e: E, f: F) -> (o: Self::O) {
        let g1 = self.0.call_once1(a);
        let g2 = g1.call_once1(b);
        let g3 = g2.call_once1(c);
        let g4 = g3.call_once1(d);
        let g5 = g4.call_once1(e);
        let g6 = g5.call_once1(f);
        g6
    }
}

impl<A, B, C, D, E, F, G> CallMut6<A, B, C, D, E, F> for Uncurry<G>
where
    G: CallMut1<A>,
    Step<G, A>: CallMut1<B>,
    Step<Step<G, A>, B>: CallMut1<C>,
    Step<Step<Step<G, A>, B>, C>: CallMut1<D>,
    Step<Step<Step<Step<G, A>, B>, C>, D>: CallMut1<E>,
    Step<Step<Step<Step<Step<G, A>, B>, C>, D>, E>: CallMut1<F>,
{
    open spec fn after6(&self, a: A, b: B, c: C, d: D, e: E, f: F) -> Self {
        Uncurry(self.0.after1(a))
    }

    fn call_mut6(&mut self, a: A, b: B, c: C, d: D, e: E, f: F) -> (o: Self::O) {
        let mut g1 = self.0.call_mut1(a);
        let mut g2 = g1.call_mut1(b);
        let mut g3 = g2.call_mut1(c);
        let mut g4 = g3.call_mut1(d);
        let mut g5 = g4.call_mut1(e);
        g5.call_mut1(f)
    }
}

impl<A, B, C, D, E, F, G> Call6<A, B, C, D, E, F> for Uncurry<G>
where
    G: Call1<A>,
    Step<G, A>: Call1<B>,
    Step<Step<G, A>, B>: Call1<C>,
    Step<Step<Step<G, A>, B>, C>: Call1<D>,
    Step<Step<Step<Step<G, A>, B>, C>, D>: Call1<E>,
    Step<Step<Step<Step<Step<G, A>, B>, C>, D>, E>: Call1<F>,
{
    fn call6(&self, a: A, b: B, c: C, d: D, e: E, f: F) -> (o: Self::O) {
        let g1 = self.0.call1(a);
        let g2 = g1.call1(b);
        let g3 = g2.call1(c);
        let g4 = g3.call1(d);
        let g5 = g4.call1(e);
        g5.call1(f)
    }
}

/// Invoking an uncurried function with one argument applies them to the
/// wrapped nested callable strictly left to right, one at a time, and is
/// permitted exactly when each nested step permits its argument.
pub proof fn lemma_uncurry1_chain<A, F>(g: F, a: A)
    where
        F: CallOnce1<A>,
    ensures
        Uncurry(g).pre1(a) == (g.pre1(a)),
        Uncurry(g).out1(a) == g.out1(a),
{
}

/// Invoking an uncurried function with two arguments applies them to the
/// wrapped nested callable strictly left to right, one at a time, and is
/// permitted exactly when each nested step permits its argument.
pub proof fn lemma_uncurry2_chain<A, B, F>(g: F, a: A, b: B)
    where
        F: CallOnce1<A>,
        Step<F, A>: CallOnce1<B>,
    ensures
        Uncurry(g).pre2(a, b) == (g.pre1(a) && g.out1(a).pre1(b)),
        Uncurry(g).out2(a, b) == g.out1(a).out1(b),
{
}

/// Invoking an uncurried function with three arguments applies them to the
/// wrapped nested callable strictly left to right, one at a time, and is
/// permitted exactly when each nested step permits its argument.
pub proof fn lemma_uncurry3_chain<A, B, C, F>(g: F, a: A, b: B, c: C)
    where
        F: CallOnce1<A>,
        Step<F, A>: CallOnce1<B>,
        Step<Step<F, A>, B>: CallOnce1<C>,
    ensures
        Uncurry(g).pre3(a, b, c) == (g.pre1(a) && g.out1(a).pre1(b) && g.out1(a).out1(b).pre1(c)),
        Uncurry(g).out3(a, b, c) == g.out1(a).out1(b).out1(c),
{
}

/// Invoking an uncurried function with four arguments applies them to the
/// wrapped nested callable strictly left to right, one at a time, and is
/// permitted exactly when each nested step permits its argument.
pub proof fn lemma_uncurry4_chain<A, B, C, D, F>(g: F, a: A, b: B, c: C, d: D)
    where
        F: CallOnce1<A>,
        Step<F, A>: CallOnce1<B>,
        Step<Step<F, A>, B>: CallOnce1<C>,
        Step<Step<Step<F, A>, B>, C>: CallOnce1<D>,
    ensures
        Uncurry(g).pre4(a, b, c, d) == (g.pre1(a) && g.out1(a).pre1(b) && g.out1(a).out1(b).pre1(c) && g.out1(a).out1(b).out1(c).pre1(d)),
        Uncurry(g).out4(a, b, c, d) == g.out1(a).out1(b).out1(c).out1(d),
{
}

/// Invoking an uncurried function with five arguments applies them to the
/// wrapped nested callable strictly left to right, one at a time, and is
/// permitted exactly when each nested step permits its argument.
pub proof fn lemma_uncurry5_chain<A, B, C, D, E, F>(g: F, a: A, b: B, c: C, d: D, e: E)
    where
        F: CallOnce1<A>,
        Step<F, A>: CallOnce1<B>,
        Step<Step<F, A>, B>: CallOnce1<C>,
        Step<Step<Step<F, A>, B>, C>: CallOnce1<D>,
        Step<Step<Step<Step<F, A>, B>, C>, D>: CallOnce1<E>,
    ensures
        Uncurry(g).pre5(a, b, c, d, e) == (g.pre1(a) && g.out1(a).pre1(b) && g.out1(a).out1(b).pre1(c) && g.out1(a).out1(b).out1(c).pre1(d) && g.out1(a).out1(b).out1(c).out1(d).pre1(e)),
        Uncurry(g).out5(a, b, c, d, e) == g.out1(a).out1(b).out1(c).out1(d).out1(e),
{
}

/// Invoking an uncurried function with six arguments applies them to the
/// wrapped nested callable strictly left to right, one at a time, and is
/// permitted exactly when each nested step permits its argument.
pub proof fn lemma_uncurry6_chain<A, B, C, D, E, F, G>(g: G, a: A, b: B, c: C, d: D, e: E, f: F)
    where
        G: CallOnce1<A>,
        Step<G, A>: CallOnce1<B>,
        Step<Step<G, A>, B>: CallOnce1<C>,
        Step<Step<Step<G, A>, B>, C>: CallOnce1<D>,
        Step<Step<Step<Step<G, A>, B>, C>, D>: CallOnce1<E>,
        Step<Step<Step<Step<Step<G, A>, B>, C>, D>, E>: CallOnce1<F>,
    ensures
        Uncurry(g).pre6(a, b, c, d, e, f) == (g.pre1(a) && g.out1(a).pre1(b) && g.out1(a).out1(b).pre1(c) && g.out1(a).out1(b).out1(c).pre1(d) && g.out1(a).out1(b).out1(c).out1(d).pre1(e) && g.out1(a).out1(b).out1(c).out1(d).out1(e).pre1(f)),
        Uncurry(g).out6(a, b, c, d, e, f) == g.out1(a).out1(b).out1(c).out1(d).out1(e).out1(f),
{
}

/// Round trip: uncurrying a curried function behaves identically to the
/// underlying callable when invoked with both arguments at once.
pub proof fn lemma_uncurry_curry2<A, B, F: CallOnce2<A, B>>(f: F, a: A, b: B)
    ensures
        Uncurry(Curry2(f)).pre2(a, b) == f.pre2(a, b),
        Uncurry(Curry2(f)).out2(a, b) == f.out2(a, b),
{
}

/// Round trip: uncurrying a curried function behaves identically to the
/// underlying callable when invoked with all three arguments at once.
pub proof fn lemma_uncurry_curry3<A, B, C, F: CallOnce3<A, B, C>>(f: F, a: A, b: B, c: C)
    ensures
        Uncurry(Curry3(f)).pre3(a, b, c) == f.pre3(a, b, c),
        Uncurry(Curry3(f)).out3(a, b, c) == f.out3(a, b, c),
{
}

/// Round trip: uncurrying a curried function behaves identically to the
/// underlying callable when invoked with all four arguments at once.
pub proof fn lemma_uncurry_curry4<A, B, C, D, F: CallOnce4<A, B, C, D>>(f: F, a: A, b: B, c: C, d: D)
    ensures
        Uncurry(Curry4(f)).pre4(a, b, c, d) == f.pre4(a, b, c, d),
        Uncurry(Curry4(f)).out4(a, b, c, d) == f.out4(a, b, c, d),
{
}

/// Round trip: uncurrying a curried function behaves identically to the
/// underlying callable when invoked with all five arguments at once.
pub proof fn lemma_uncurry_curry5<A, B, C, D, E, F: CallOnce5<A, B, C, D, E>>(f: F, a: A, b: B, c: C, d: D, e: E)
    ensures
        Uncurry(Curry5(f)).pre5(a, b, c, d, e) == f.pre5(a, b, c, d, e),
        Uncurry(Curry5(f)).out5(a, b, c, d, e) == f.out5(a, b, c, d, e),
{
}

/// Round trip: uncurrying a curried function behaves identically to the
/// underlying callable when invoked with all six arguments at once.
pub proof fn lemma_uncurry_curry6<A, B, C, D, E, F, G: CallOnce6<A, B, C, D, E, F>>(g: G, a: A, b: B, c: C, d: D, e: E, f: F)
    ensures
        Uncurry(Curry6(g)).pre6(a, b, c, d, e, f) == g.pre6(a, b, c, d, e, f),
        Uncurry(Curry6(g)).out6(a, b, c, d, e, f) == g.out6(a, b, c, d, e, f),
{
}

} // verus!
