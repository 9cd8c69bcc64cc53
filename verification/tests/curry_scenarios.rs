use curry::Add2;
use curry::Add3;
use curry::Add4;
use curry::Add5;
use curry::Add6;
use curry::Call1;
use curry::Call2;
use curry::Call3;
use curry::Call4;
use curry::Call5;
use curry::Call6;
use curry::CallMut1;
use curry::CallMut2;
use curry::CallOnce1;
use curry::CallOnce2;
use curry::CallOnce3;
use curry::Closure2;
use curry::Closure6;
use curry::Curry2;
use curry::Curry3;
use curry::Curry4;
use curry::Curry5;
use curry::Curry6;
use curry::Pack3;

#[test]
fn curry2_full_and_split() {
    let f = Curry2::new(Add2);
    assert_eq!(f.call2(1, 2), 3);
    assert_eq!(f.call1(1).call_once1(2), 3);
    assert_eq!(f.call_once1(1).call_once1(2), 3);
}

#[test]
fn curry3_all_splits() {
    let f = Curry3::new(Add3);
    assert_eq!(f.call3(1, 2, 3), 6);
    assert_eq!(f.call2(1, 2).call_once1(3), 6);
    assert_eq!(f.call1(1).call_once1(2).call_once1(3), 6);
}

#[test]
fn curry6_all_splits() {
    let f = Curry6::new(Add6);
    assert_eq!(f.call6(1, 2, 3, 4, 5, 6), 21);
    assert_eq!(f.call5(1, 2, 3, 4, 5).call_once1(6), 21);
    assert_eq!(f.call4(1, 2, 3, 4).call_once1(5).call_once1(6), 21);
    assert_eq!(f.call3(1, 2, 3).call_once1(4).call_once1(5).call_once1(6), 21);
    assert_eq!(f.call2(1, 2).call_once1(3).call_once1(4).call_once1(5).call_once1(6), 21);
    assert_eq!(f.call1(1).call_once1(2).call_once1(3).call_once1(4).call_once1(5).call_once1(6), 21);
}

#[test]
fn curry4_all_splits() {
    let f = Curry4::new(Add4);
    assert_eq!(f.call4(1, 2, 3, 4), 10);
    assert_eq!(f.call3(1, 2, 3).call_once1(4), 10);
    assert_eq!(f.call2(1, 2).call_once1(3).call_once1(4), 10);
    assert_eq!(f.call1(1).call_once1(2).call_once1(3).call_once1(4), 10);
}

#[test]
fn curry5_all_splits() {
    let f = Curry5::new(Add5);
    assert_eq!(f.call5(1, 2, 3, 4, 5), 15);
    assert_eq!(f.call4(1, 2, 3, 4).call_once1(5), 15);
    assert_eq!(f.call3(1, 2, 3).call_once1(4).call_once1(5), 15);
    assert_eq!(f.call2(1, 2).call_once1(3).call_once1(4).call_once1(5), 15);
    assert_eq!(f.call1(1).call_once1(2).call_once1(3).call_once1(4).call_once1(5), 15);
}

#[test]
fn binding_order_preserved() {
    assert_eq!(Curry3::new(Pack3).call_once3(1, 2, 3), 123);
    assert_eq!(Curry3::new(Pack3).call_once2(1, 2).call_once1(3), 123);
    assert_eq!(Curry3::new(Pack3).call_once1(1).call_once1(2).call_once1(3), 123);
    assert_eq!(Curry3::new(Pack3).call_once1(3).call_once1(2).call_once1(1), 321);
}

#[test]
fn largest_sums() {
    assert_eq!(Curry2::new(Add2).call2(u64::MAX - 1, 1), u64::MAX);
    assert_eq!(Curry2::new(Add2).call_once1(0).call_once1(u64::MAX), u64::MAX);
    assert_eq!(Curry6::new(Add6).call5(u64::MAX - 5, 1, 1, 1, 1).call_once1(1), u64::MAX);
}

#[test]
fn shared_access_is_repeatable() {
    let f = Curry2::new(Add2);
    assert_eq!(f.call2(1, 2), 3);
    assert_eq!(f.call2(1, 2), 3);
    let g = f.call1(1);
    assert_eq!(g.call1(2), 3);
    assert_eq!(g.call1(2), 3);
    assert_eq!(f, Curry2::new(Add2));
    assert_eq!(g, Closure2::new(1, Add2));
}

#[test]
fn mutable_access_forms() {
    let mut f = Curry2::new(Add2);
    assert_eq!(f.call_mut2(1, 2), 3);
    let mut g = f.call_mut1(1);
    assert_eq!(g.call_mut1(2), 3);
    assert_eq!(g.call_mut1(40), 41);
}

#[test]
fn accessors_reference_and_copy() {
    let f = Curry2::new(Add2);
    let r = f.as_ref();
    assert_eq!(r.call2(1, 2), 3);
    assert_eq!(r.cloned().call2(1, 2), 3);
    assert_eq!(r.copied().call2(1, 2), 3);
    let mut f2 = Curry2::new(Add2);
    let m = f2.as_mut();
    assert_eq!(m.cloned().call2(1, 2), 3);
    assert_eq!(m.copied().call2(1, 2), 3);

    let g = Curry3::new(Add3);
    assert_eq!(g.as_ref().cloned().call3(1, 2, 3), 6);
    assert_eq!(g.as_ref().copied().call3(1, 2, 3), 6);
    let mut g2 = Curry3::new(Add3);
    assert_eq!(g2.as_mut().cloned().call3(1, 2, 3), 6);

    let h = Curry4::new(Add2);
    assert_eq!(h.as_ref().copied().0, Add2);
    let mut h2 = Curry4::new(Add2);
    assert_eq!(h2.as_mut().cloned().0, Add2);

    let i = Curry5::new(Add2);
    assert_eq!(i.as_ref().cloned().0, Add2);
    let mut i2 = Curry5::new(Add2);
    assert_eq!(i2.as_mut().copied().0, Add2);

    let j = Curry6::new(Add6);
    assert_eq!(j.as_ref().cloned().call6(1, 2, 3, 4, 5, 6), 21);
    assert_eq!(j.as_ref().copied().call6(1, 2, 3, 4, 5, 6), 21);
    let mut j2 = Curry6::new(Add6);
    assert_eq!(j2.as_mut().cloned().call6(1, 2, 3, 4, 5, 6), 21);
    assert_eq!(j2.as_mut().copied().call6(1, 2, 3, 4, 5, 6), 21);
}

#[test]
fn closure_new_direct() {
    assert_eq!(Closure2::new(1, Add2).call_once1(2), 3);
    assert_eq!(curry::Closure3::new(1, 2, Add3).call_once1(3), 6);
    assert_eq!(Closure6::new(1, 2, 3, 4, 5, Add6).call_once1(6), 21);
}
