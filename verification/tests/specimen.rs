use cargo_kcov::specimen::{
    foo, should_never_test_this, test_this_in_eighth, test_this_in_fifth, test_this_in_first,
    test_this_in_fourth, test_this_in_korean, test_this_in_second, test_this_in_seventh,
    test_this_in_sixth, test_this_in_third,
};

#[test]
fn it_works() {
    for i in 0..10 {
        if i % 2 == 0 {
            assert!(i % 4 != 1);
        } else if i < 11 {
            assert!(test_this_in_second());
        } else {
            assert!(false);
        }
    }
}

#[test]
fn every_sample_function_answers_true() {
    assert!(test_this_in_first());
    assert!(test_this_in_second());
    assert!(test_this_in_third());
    assert!(test_this_in_fourth());
    assert!(test_this_in_fifth());
    assert!(test_this_in_sixth());
    assert!(test_this_in_seventh());
    assert!(test_this_in_eighth());
    assert!(test_this_in_korean());
    assert!(should_never_test_this());
    assert!(foo());
}
