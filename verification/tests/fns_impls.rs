use curry::AssertFn;
use curry::Call1;
use curry::Call2;
use curry::Call3;

#[test]
fn test_impls() {
    assert_eq!(AssertFn.call1(()), ());
    assert_eq!(AssertFn.call2(false, 42), true);
    assert_eq!(AssertFn.call3(true, 0, 'c'), 'c');
}
