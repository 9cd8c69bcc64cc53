//! Adapters that turn a multi-argument callable into a chain of
//! single-argument callables (currying) and back (uncurrying), for
//! arities 2 through 6, with verified calling contracts.

mod call;
mod curry2;
mod curry3;
mod curry4;
mod curry5;
mod curry6;
mod fns;
mod uncurry;

pub use call::{
    Call1, Call2, Call3, Call4, Call5, Call6, CallMut1, CallMut2, CallMut3, CallMut4, CallMut5,
    CallMut6, CallOnce1, CallOnce2, CallOnce3, CallOnce4, CallOnce5, CallOnce6, Duplicable,
};
pub use curry2::{lemma_curry2_splits, Closure2, Curry2};
pub use curry3::{lemma_curry3_splits, Closure3, Curry3};
pub use curry4::{lemma_curry4_splits, Closure4, Curry4};
pub use curry5::{lemma_curry5_splits, Closure5, Curry5};
pub use curry6::{lemma_curry6_splits, Closure6, Curry6};
pub use fns::{Acc1, Acc2, Acc3, Acc4, Acc5, Acc6, Add2, Add3, Add4, Add5, Add6, AssertFn, Pack3};
pub use uncurry::{
    lemma_uncurry1_chain, lemma_uncurry2_chain, lemma_uncurry3_chain, lemma_uncurry4_chain,
    lemma_uncurry5_chain, lemma_uncurry6_chain, lemma_uncurry_curry2, lemma_uncurry_curry3,
    lemma_uncurry_curry4, lemma_uncurry_curry5, lemma_uncurry_curry6, Step, Uncurry,
};
