use luau::fvalue::{FValue, OptionalFValue};
use luau::text::{decimal_string, hex_string};

#[test]
fn a_flag_is_found_where_the_host_has_one() {
    let found: Option<FValue<bool>> = FValue::find("LuauTypes", |name| {
        assert_eq!(name, "LuauTypes");
        OptionalFValue { present: true, value: 0x40 }
    });
    assert_eq!(found.unwrap().inner(), 0x40);
    let missing: Option<FValue<i32>> =
        FValue::find("Nothing", |_| OptionalFValue { present: false, value: 0x40 });
    assert!(missing.is_none());
    let null: Option<FValue<i32>> =
        FValue::find("Null", |_| OptionalFValue { present: true, value: 0 });
    assert_eq!(null.unwrap().inner(), 0);
}

#[test]
fn the_list_of_flags_ends_at_the_first_null() {
    let flags: Vec<FValue<bool>> = FValue::list(&[0x10, 0x20, 0x30, 0, 0x40, 0]);
    let places: Vec<usize> = flags.iter().map(|flag| flag.inner()).collect();
    assert_eq!(places, vec![0x10, 0x20, 0x30]);
    assert!(FValue::<bool>::list(&[]).is_empty());
    assert!(FValue::<i32>::list(&[0, 0x10]).is_empty());
    let unended: Vec<FValue<i32>> = FValue::list(&[0x10, 0x20]);
    assert_eq!(unended.len(), 2);
    assert_eq!(unended[1].inner(), 0x20);
}

#[test]
fn a_flag_is_read_and_written_through_the_host() {
    let mut flag: FValue<i32> =
        FValue::find("Limit", |_| OptionalFValue { present: true, value: 0x80 }).unwrap();
    assert_eq!(flag.name(|at| format!("flag at {}", at)), "flag at 128");
    assert_eq!(flag.value(|at| at as i32 + 1), 129);
    let mut written = None;
    flag.set(7, |at, value| written = Some((at, value)));
    assert_eq!(written, Some((0x80, 7)));
    assert_eq!(flag.inner(), 0x80);
}

#[test]
fn numbers_are_written_without_leading_zeros() {
    assert_eq!(decimal_string(0), "0");
    assert_eq!(decimal_string(9), "9");
    assert_eq!(decimal_string(10), "10");
    assert_eq!(decimal_string(1000), "1000");
    assert_eq!(decimal_string(u32::MAX), "4294967295");
    assert_eq!(hex_string(0), "0");
    assert_eq!(hex_string(15), "f");
    assert_eq!(hex_string(16), "10");
    assert_eq!(hex_string(0xdead_beef), "deadbeef");
    assert_eq!(hex_string(usize::MAX), format!("{:x}", usize::MAX));
    for n in [1u32, 99, 100, 12345, 999_999_999] {
        assert_eq!(decimal_string(n), n.to_string());
        assert_eq!(hex_string(n as usize), format!("{:x}", n));
    }
}
