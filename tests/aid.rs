use physim::aid::{ternary, BoolTo, Ternary};

#[test]
fn ternary_picks_first_when_true() {
    assert_eq!(ternary(true, "left", "right"), "left");
    assert_eq!(ternary(false, "left", "right"), "right");
}

#[test]
fn ternary_method_on_bool() {
    assert_eq!(true.ternary(3, 7), 3);
    assert_eq!(false.ternary(3, 7), 7);
    let doubled = false.ternary(-4.5f32 * 2.0, -4.5f32);
    assert_eq!(doubled, -4.5);
}

#[test]
fn bool_to_signed_integers() {
    assert_eq!(true.i8(), 1);
    assert_eq!(false.i8(), 0);
    assert_eq!(true.i16(), 1);
    assert_eq!(false.i32(), 0);
    assert_eq!(true.i64(), 1);
    assert_eq!(true.i128(), 1);
    assert_eq!(false.isize(), 0);
}

#[test]
fn bool_to_unsigned_integers() {
    assert_eq!(true.u8(), 1);
    assert_eq!(false.u16(), 0);
    assert_eq!(true.u32(), 1);
    assert_eq!(false.u64(), 0);
    assert_eq!(true.u128(), 1);
    assert_eq!(true.usize(), 1);
}

#[test]
fn held_keys_cancel_to_a_direction() {
    // right held, left not: +1; both held: 0; only left: -1
    assert_eq!(true.i32() - false.i32(), 1);
    assert_eq!(true.i32() - true.i32(), 0);
    assert_eq!(false.i32() - true.i32(), -1);
}
