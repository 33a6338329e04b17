use typewriter::macros::ScriptAction;
use typewriter::typewriter::{sleep, type_string, Step};

#[test]
fn string_slice_types_with_default_delay() {
    assert_eq!("ab".run(), type_string("ab".to_string(), 50));
}

#[test]
fn owned_string_types_with_default_delay() {
    assert_eq!("ab".to_string().run(), type_string("ab".to_string(), 50));
}

#[test]
fn pair_types_with_its_delay() {
    assert_eq!(("ab", 100u64).run(), type_string("ab".to_string(), 100));
    assert_eq!(("ab".to_string(), 0u64).run(), type_string("ab".to_string(), 0));
}

#[test]
fn unsigned_numbers_sleep() {
    assert_eq!(300u64.run(), sleep(300));
    assert_eq!(300u32.run(), vec![Step::Wait(300)]);
    assert_eq!(300usize.run(), vec![Step::Wait(300)]);
    assert_eq!(u32::MAX.run(), vec![Step::Wait(4294967295)]);
}

#[test]
fn signed_numbers_sleep() {
    assert_eq!(300i32.run(), vec![Step::Wait(300)]);
    assert_eq!(300i64.run(), vec![Step::Wait(300)]);
    assert_eq!(0i32.run(), vec![Step::Wait(0)]);
}

#[test]
fn negative_numbers_count_from_the_top() {
    assert_eq!((-1i32).run(), vec![Step::Wait(u64::MAX)]);
    assert_eq!((-1i64).run(), vec![Step::Wait(u64::MAX)]);
    assert_eq!(i64::MIN.run(), vec![Step::Wait(9223372036854775808)]);
    assert_eq!(i32::MIN.run(), vec![Step::Wait(18446744071562067968)]);
}
