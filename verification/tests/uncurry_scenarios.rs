use curry::Acc1;
use curry::Acc2;
use curry::Acc6;
use curry::Add2;
use curry::Add3;
use curry::Add6;
use curry::Call6;
use curry::CallOnce1;
use curry::CallOnce2;
use curry::CallOnce3;
use curry::CallOnce5;
use curry::CallOnce6;
use curry::Curry2;
use curry::Curry3;
use curry::Curry6;
use curry::Pack3;
use curry::Uncurry;

#[test]
fn uncurry_nested_adders() {
    let u = Uncurry(Acc6 { total: 0 });
    assert_eq!(u.call_once6(1, 2, 3, 4, 5, 6), 21);
    let u = Uncurry(Acc6 { total: 0 });
    assert_eq!(u.call_once5(1, 2, 3, 4, 5).call_once1(6), 21);
}

#[test]
fn uncurry_single_step() {
    assert_eq!(Uncurry(Acc1 { total: 40 }).call_once1(2), 42);
    assert_eq!(Uncurry(Acc2 { total: 0 }).call_once2(20, 22), 42);
}

#[test]
fn uncurry_shared_access_is_repeatable() {
    let u = Uncurry(Acc6 { total: 0 });
    assert_eq!(u.call6(1, 2, 3, 4, 5, 6), 21);
    assert_eq!(u.call6(1, 2, 3, 4, 5, 6), 21);
    assert_eq!(u, Uncurry(Acc6 { total: 0 }));
}

#[test]
fn uncurry_left_to_right() {
    let u = Uncurry(Curry3::new(Pack3));
    assert_eq!(u.call_once3(1, 2, 3), 123);
    let u = Uncurry(Curry3::new(Pack3));
    assert_eq!(u.call_once3(3, 2, 1), 321);
}

#[test]
fn uncurry_curry_round_trip() {
    assert_eq!(Uncurry(Curry2::new(Add2)).call_once2(1, 2), 3);
    assert_eq!(Uncurry(Curry3::new(Add3)).call_once3(1, 2, 3), 6);
    assert_eq!(Uncurry(Curry6::new(Add6)).call_once6(1, 2, 3, 4, 5, 6), 21);
}
