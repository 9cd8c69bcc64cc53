//! Small concrete callables.
//!
//! New ad-hoc callable types are declared by implementing the capability
//! traits by hand: define `preN`, `outN` and the call bodies once, and let
//! the repeatable capabilities reuse the same logic. The types here follow
//! that template and give the adapters something concrete to wrap: flat
//! adders of several arities, a chain of nested single-argument adders for
//! uncurrying, a digit packer whose result depends on argument order, and an
//! argument checker.

use vstd::prelude::*;

use crate::call::{
    Call1, Call2, Call3, Call4, Call5, Call6, CallMut1, CallMut2, CallMut3, CallMut4, CallMut5,
    CallMut6, CallOnce1, CallOnce2, CallOnce3, CallOnce4, CallOnce5, CallOnce6, Duplicable,
};

verus! {

/// Adds two numbers.
#[derive(PartialEq, Eq, Clone, Copy, Default, Debug)]
pub struct Add2;

impl Duplicable for Add2 {
    fn duplicate(&self) -> (r: Self) {
        Add2
    }
}

impl CallOnce2<u64, u64> for Add2 {
    type O = u64;

    open spec fn pre2(&self, a: u64, b: u64) -> bool {
        a + b <= u64::MAX
    }

    open spec fn out2(&self, a: u64, b: u64) -> u64 {
        (a + b) as u64
    }

    fn call_once2(self, a: u64, b: u64) -> (o: u64) {
        a + b
    }
}

impl CallMut2<u64, u64> for Add2 {
    open spec fn after2(&self, a: u64, b: u64) -> Self {
        *self
    }

    fn call_mut2(&mut self, a: u64, b: u64) -> (o: u64) {
        a + b
    }
}

impl Call2<u64, u64> for Add2 {
    fn call2(&self, a: u64, b: u64) -> (o: u64) {
        a + b
    }
}

/// Adds three numbers.
#[derive(PartialEq, Eq, Clone, Copy, Default, Debug)]
pub struct Add3;

impl Duplicable for Add3 {
    fn duplicate(&self) -> (r: Self) {
        Add3
    }
}

impl CallOnce3<u64, u64, u64> for Add3 {
    type O = u64;

    open spec fn pre3(&self, a: u64, b: u64, c: u64) -> bool {
        a + b + c <= u64::MAX
    }

    open spec fn out3(&self, a: u64, b: u64, c: u64) -> u64 {
        (a + b + c) as u64
    }

    fn call_once3(self, a: u64, b: u64, c: u64) -> (o: u64) {
        a + b + c
    }
}

impl CallMut3<u64, u64, u64> for Add3 {
    open spec fn after3(&self, a: u64, b: u64, c: u64) -> Self {
        *self
    }

    fn call_mut3(&mut self, a: u64, b: u64, c: u64) -> (o: u64) {
        a + b + c
    }
}

impl Call3<u64, u64, u64> for Add3 {
    fn call3(&self, a: u64, b: u64, c: u64) -> (o: u64) {
        a + b + c
    }
}

/// Adds four numbers.
#[derive(PartialEq, Eq, Clone, Copy, Default, Debug)]
pub struct Add4;

impl Duplicable for Add4 {
    fn duplicate(&self) -> (r: Self) {
        Add4
    }
}

impl CallOnce4<u64, u64, u64, u64> for Add4 {
    type O = u64;

    open spec fn pre4(&self, a: u64, b: u64, c: u64, d: u64) -> bool {
        a + b + c + d <= u64::MAX
    }

    open spec fn out4(&self, a: u64, b: u64, c: u64, d: u64) -> u64 {
        (a + b + c + d) as u64
    }

    fn call_once4(self, a: u64, b: u64, c: u64, d: u64) -> (o: u64) {
        a + b + c + d
    }
}

impl CallMut4<u64, u64, u64, u64> for Add4 {
    open spec fn after4(&self, a: u64, b: u64, c: u64, d: u64) -> Self {
        *self
    }

    fn call_mut4(&mut self, a: u64, b: u64, c: u64, d: u64) -> (o: u64) {
        a + b + c + d
    }
}

impl Call4<u64, u64, u64, u64> for Add4 {
    fn call4(&self, a: u64, b: u64, c: u64, d: u64) -> (o: u64) {
        a + b + c + d
    }
}

/// Adds five numbers.
#[derive(PartialEq, Eq, Clone, Copy, Default, Debug)]
pub struct Add5;

impl Duplicable for Add5 {
    fn duplicate(&self) -> (r: Self) {
        Add5
    }
}

impl CallOnce5<u64, u64, u64, u64, u64> for Add5 {
    type O = u64;

    open spec fn pre5(&self, a: u64, b: u64, c: u64, d: u64, e: u64) -> bool {
        a + b + c + d + e <= u64::MAX
    }

    open spec fn out5(&self, a: u64, b: u64, c: u64, d: u64, e: u64) -> u64 {
        (a + b + c + d + e) as u64
    }

    fn call_once5(self, a: u64, b: u64, c: u64, d: u64, e: u64) -> (o: u64) {
        a + b + c + d + e
    }
}

impl CallMut5<u64, u64, u64, u64, u64> for Add5 {
    open spec fn after5(&self, a: u64, b: u64, c: u64, d: u64, e: u64) -> Self {
        *self
    }

    fn call_mut5(&mut self, a: u64, b: u64, c: u64, d: u64, e: u64) -> (o: u64) {
        a + b + c + d + e
    }
}

impl Call5<u64, u64, u64, u64, u64> for Add5 {
    fn call5(&self, a: u64, b: u64, c: u64, d: u64, e: u64) -> (o: u64) {
        a + b + c + d + e
    }
}

/// Adds six numbers.
#[derive(PartialEq, Eq, Clone, Copy, Default, Debug)]
pub struct Add6;

impl Duplicable for Add6 {
    fn duplicate(&self) -> (r: Self) {
        Add6
    }
}

impl CallOnce6<u64, u64, u64, u64, u64, u64> for Add6 {
    type O = u64;

    open spec fn pre6(&self, a: u64, b: u64, c: u64, d: u64, e: u64, f: u64) -> bool {
        a + b + c + d + e + f <= u64::MAX
    }

    open spec fn out6(&self, a: u64, b: u64, c: u64, d: u64, e: u64, f: u64) -> u64 {
        (a + b + c + d + e + f) as u64
    }

    fn call_once6(self, a: u64, b: u64, c: u64, d: u64, e: u64, f: u64) -> (o: u64) {
        a + b + c + d + e + f
    }
}

impl CallMut6<u64, u64, u64, u64, u64, u64> for Add6 {
    open spec fn after6(&self, a: u64, b: u64, c: u64, d: u64, e: u64, f: u64) -> Self {
        *self
    }

    fn call_mut6(&mut self, a: u64, b: u64, c: u64, d: u64, e: u64, f: u64) -> (o: u64) {
        a + b + c + d + e + f
    }
}

impl Call6<u64, u64, u64, u64, u64, u64> for Add6 {
    fn call6(&self, a: u64, b: u64, c: u64, d: u64, e: u64, f: u64) -> (o: u64) {
        a + b + c + d + e + f
    }
}

/// The last link of a chain of nested single-argument adders: holds a
/// running total and returns it plus the final argument.
#[derive(PartialEq, Eq, Clone, Copy, Default, Debug)]
pub struct Acc1 {
    /// The sum of the arguments absorbed so far.
    pub total: u64,
}

impl Duplicable for Acc1 {
    fn duplicate(&self) -> (r: Self) {
        Acc1 { total: self.total }
    }
}

impl CallOnce1<u64> for Acc1 {
    type O = u64;

    open spec fn pre1(&self, a: u64) -> bool {
        self.total + a <= u64::MAX
    }

    open spec fn out1(&self, a: u64) -> u64 {
        (self.total + a) as u64
    }

    fn call_once1(self, a: u64) -> (o: u64) {
        self.total + a
    }
}

impl CallMut1<u64> for Acc1 {
    open spec fn after1(&self, a: u64) -> Self {
        *self
    }

    fn call_mut1(&mut self, a: u64) -> (o: u64) {
        let total = self.total;
        total + a
    }
}

impl Call1<u64> for Acc1 {
    fn call1(&self, a: u64) -> (o: u64) {
        self.total + a
    }
}

/// A chain of nested single-argument adders that awaits two further
/// arguments: holds a running total and, applied to one argument, yields
/// the next link with the argument added in.
#[derive(PartialEq, Eq, Clone, Copy, Default, Debug)]
pub struct Acc2 {
    /// The sum of the arguments absorbed so far.
    pub total: u64,
}

impl Duplicable for Acc2 {
    fn duplicate(&self) -> (r: Self) {
        Acc2 { total: self.total }
    }
}

impl CallOnce1<u64> for Acc2 {
    type O = Acc1;

    open spec fn pre1(&self, a: u64) -> bool {
        self.total + a <= u64::MAX
    }

    open spec fn out1(&self, a: u64) -> Acc1 {
        (Acc1 { total: (self.total + a) as u64 })
    }

    fn call_once1(self, a: u64) -> (o: Acc1) {
        Acc1 { total: self.total + a }
    }
}

impl CallMut1<u64> for Acc2 {
    open spec fn after1(&self, a: u64) -> Self {
        *self
    }

    fn call_mut1(&mut self, a: u64) -> (o: Acc1) {
        let total = self.total;
        Acc1 { total: total + a }
    }
}

impl Call1<u64> for Acc2 {
    fn call1(&self, a: u64) -> (o: Acc1) {
        Acc1 { total: self.total + a }
    }
}

/// A chain of nested single-argument adders that awaits three further
/// arguments: holds a running total and, applied to one argument, yields
/// the next link with the argument added in.
#[derive(PartialEq, Eq, Clone, Copy, Default, Debug)]
pub struct Acc3 {
    /// The sum of the arguments absorbed so far.
    pub total: u64,
}

impl Duplicable for Acc3 {
    fn duplicate(&self) -> (r: Self) {
        Acc3 { total: self.total }
    }
}

impl CallOnce1<u64> for Acc3 {
    type O = Acc2;

    open spec fn pre1(&self, a: u64) -> bool {
        self.total + a <= u64::MAX
    }

    open spec fn out1(&self, a: u64) -> Acc2 {
        (Acc2 { total: (self.total + a) as u64 })
    }

    fn call_once1(self, a: u64) -> (o: Acc2) {
        Acc2 { total: self.total + a }
    }
}

impl CallMut1<u64> for Acc3 {
    open spec fn after1(&self, a: u64) -> Self {
        *self
    }

    fn call_mut1(&mut self, a: u64) -> (o: Acc2) {
        let total = self.total;
        Acc2 { total: total + a }
    }
}

impl Call1<u64> for Acc3 {
    fn call1(&self, a: u64) -> (o: Acc2) {
        Acc2 { total: self.total + a }
    }
}

/// A chain of nested single-argument adders that awaits four further
/// arguments: holds a running total and, applied to one argument, yields
/// the next link with the argument added in.
#[derive(PartialEq, Eq, Clone, Copy, Default, Debug)]
pub struct Acc4 {
    /// The sum of the arguments absorbed so far.
    pub total: u64,
}

impl Duplicable for Acc4 {
    fn duplicate(&self) -> (r: Self) {
        Acc4 { total: self.total }
    }
}

impl CallOnce1<u64> for Acc4 {
    type O = Acc3;

    open spec fn pre1(&self, a: u64) -> bool {
        self.total + a <= u64::MAX
    }

    open spec fn out1(&self, a: u64) -> Acc3 {
        (Acc3 { total: (self.total + a) as u64 })
    }

    fn call_once1(self, a: u64) -> (o: Acc3) {
        Acc3 { total: self.total + a }
    }
}

impl CallMut1<u64> for Acc4 {
    open spec fn after1(&self, a: u64) -> Self {
        *self
    }

    fn call_mut1(&mut self, a: u64) -> (o: Acc3) {
        let total = self.total;
        Acc3 { total: total + a }
    }
}

impl Call1<u64> for Acc4 {
    fn call1(&self, a: u64) -> (o: Acc3) {
        Acc3 { total: self.total + a }
    }
}

/// A chain of nested single-argument adders that awaits five further
/// arguments: holds a running total and, applied to one argument, yields
/// the next link with the argument added in.
#[derive(PartialEq, Eq, Clone, Copy, Default, Debug)]
pub struct Acc5 {
    /// The sum of the arguments absorbed so far.
    pub total: u64,
}

impl Duplicable for Acc5 {
    fn duplicate(&self) -> (r: Self) {
        Acc5 { total: self.total }
    }
}

impl CallOnce1<u64> for Acc5 {
    type O = Acc4;

    open spec fn pre1(&self, a: u64) -> bool {
        self.total + a <= u64::MAX
    }

    open spec fn out1(&self, a: u64) -> Acc4 {
        (Acc4 { total: (self.total + a) as u64 })
    }

    fn call_once1(self, a: u64) -> (o: Acc4) {
        Acc4 { total: self.total + a }
    }
}

impl CallMut1<u64> for Acc5 {
    open spec fn after1(&self, a: u64) -> Self {
        *self
    }

    fn call_mut1(&mut self, a: u64) -> (o: Acc4) {
        let total = self.total;
        Acc4 { total: total + a }
    }
}

impl Call1<u64> for Acc5 {
    fn call1(&self, a: u64) -> (o: Acc4) {
        Acc4 { total: self.total + a }
    }
}

/// A chain of nested single-argument adders that awaits six further
/// arguments: holds a running total and, applied to one argument, yields
/// the next link with the argument added in.
#[derive(PartialEq, Eq, Clone, Copy, Default, Debug)]
pub struct Acc6 {
    /// The sum of the arguments absorbed so far.
    pub total: u64,
}

impl Duplicable for Acc6 {
    fn duplicate(&self) -> (r: Self) {
        Acc6 { total: self.total }
    }
}

impl CallOnce1<u64> for Acc6 {
    type O = Acc5;

    open spec fn pre1(&self, a: u64) -> bool {
        self.total + a <= u64::MAX
    }

    open spec fn out1(&self, a: u64) -> Acc5 {
        (Acc5 { total: (self.total + a) as u64 })
    }

    fn call_once1(self, a: u64) -> (o: Acc5) {
        Acc5 { total: self.total + a }
    }
}

impl CallMut1<u64> for Acc6 {
    open spec fn after1(&self, a: u64) -> Self {
        *self
    }

    fn call_mut1(&mut self, a: u64) -> (o: Acc5) {
        let total = self.total;
        Acc5 { total: total + a }
    }
}

impl Call1<u64> for Acc6 {
    fn call1(&self, a: u64) -> (o: Acc5) {
        Acc5 { total: self.total + a }
    }
}

/// Packs three decimal digits into one number, so the result tells in
/// which order the arguments arrived. Implements only the consuming
/// capability: a `Pack3` is invoked once and discarded.
#[derive(PartialEq, Eq, Clone, Copy, Default, Debug)]
pub struct Pack3;

impl CallOnce3<u64, u64, u64> for Pack3 {
    type O = u64;

    open spec fn pre3(&self, a: u64, b: u64, c: u64) -> bool {
        a < 10 && b < 10 && c < 10
    }

    open spec fn out3(&self, a: u64, b: u64, c: u64) -> u64 {
        (a * 100 + b * 10 + c) as u64
    }

    fn call_once3(self, a: u64, b: u64, c: u64) -> (o: u64) {
        a * 100 + b * 10 + c
    }
}

/// Checks its arguments; the declarations follow the hand-written callable
/// template at several signatures for one type.
#[derive(PartialEq, Eq, Clone, Copy, Default, Debug)]
pub struct AssertFn;

impl Duplicable for AssertFn {
    fn duplicate(&self) -> (r: Self) {
        AssertFn
    }
}

impl CallOnce1<()> for AssertFn {
    type O = ();

    open spec fn pre1(&self, a: ()) -> bool {
        true
    }

    open spec fn out1(&self, a: ()) -> () {
        ()
    }

    fn call_once1(self, a: ()) -> (o: ()) {
        ()
    }
}

impl CallMut1<()> for AssertFn {
    open spec fn after1(&self, a: ()) -> Self {
        *self
    }

    fn call_mut1(&mut self, a: ()) -> (o: ()) {
        ()
    }
}

impl Call1<()> for AssertFn {
    fn call1(&self, a: ()) -> (o: ()) {
        ()
    }
}

impl CallOnce2<bool, i32> for AssertFn {
    type O = bool;

    open spec fn pre2(&self, b: bool, i: i32) -> bool {
        true
    }

    open spec fn out2(&self, b: bool, i: i32) -> bool {
        b || i == 42
    }

    fn call_once2(self, b: bool, i: i32) -> (o: bool) {
        b || i == 42
    }
}

impl CallMut2<bool, i32> for AssertFn {
    open spec fn after2(&self, b: bool, i: i32) -> Self {
        *self
    }

    fn call_mut2(&mut self, b: bool, i: i32) -> (o: bool) {
        b || i == 42
    }
}

impl Call2<bool, i32> for AssertFn {
    fn call2(&self, b: bool, i: i32) -> (o: bool) {
        b || i == 42
    }
}

impl CallOnce3<bool, i32, char> for AssertFn {
    type O = char;

    open spec fn pre3(&self, a: bool, i: i32, c: char) -> bool {
        a
    }

    open spec fn out3(&self, a: bool, i: i32, c: char) -> char {
        c
    }

    fn call_once3(self, a: bool, i: i32, c: char) -> (o: char) {
        c
    }
}

impl CallMut3<bool, i32, char> for AssertFn {
    open spec fn after3(&self, a: bool, i: i32, c: char) -> Self {
        *self
    }

    fn call_mut3(&mut self, a: bool, i: i32, c: char) -> (o: char) {
        c
    }
}

impl Call3<bool, i32, char> for AssertFn {
    fn call3(&self, a: bool, i: i32, c: char) -> (o: char) {
        c
    }
}

} // verus!
