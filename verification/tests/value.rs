use sc_executor_wasmtime::value::{returned_location, word_argument, RuntimeValue};

#[test]
fn the_low_half_is_the_address_and_the_high_half_the_length() {
    assert_eq!(returned_location(0x7f00_0000_0000_1337), (0x1337, 0x7f00_0000));
    assert_eq!(returned_location(0), (0, 0));
    assert_eq!(returned_location(0x0000_0001_0000_0000), (0, 1));
    assert_eq!(returned_location(0xffff_ffff), (u32::MAX, 0));
}

#[test]
fn a_negative_value_is_taken_by_its_bits() {
    assert_eq!(returned_location(-1), (u32::MAX, u32::MAX));
    assert_eq!(returned_location(i64::MIN), (0, 0x8000_0000));
    assert_eq!(returned_location(-0x1_0000_0000), (0, u32::MAX));
}

#[test]
fn every_location_is_returned_by_one_value() {
    let locations = [(0, 0), (1, 2), (u32::MAX, 1), (5, u32::MAX), (0x8000_0000, 0x8000_0000)];
    for (address, length) in locations.iter() {
        let value = ((*length as u64) << 32 | *address as u64) as i64;
        assert_eq!(returned_location(value), (*address, *length));
        assert_ne!(returned_location(value ^ 1), (*address, *length));
    }
}

#[test]
fn words_are_handed_over_by_their_bits() {
    assert_eq!(word_argument(0), RuntimeValue::I32(0));
    assert_eq!(word_argument(0x7fff_ffff), RuntimeValue::I32(i32::MAX));
    assert_eq!(word_argument(0x8000_0000), RuntimeValue::I32(i32::MIN));
    assert_eq!(word_argument(0x8000_0008), RuntimeValue::I32(-0x7fff_fff8));
    assert_eq!(word_argument(u32::MAX), RuntimeValue::I32(-1));
}
