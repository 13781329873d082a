use osc::config::{bool_from_int, bool_to_int, InvalidFlag};

#[test]
fn flags_read_zero_and_one() {
    assert_eq!(bool_from_int(0), Ok(false));
    assert_eq!(bool_from_int(1), Ok(true));
}

#[test]
fn flags_refuse_other_integers() {
    assert_eq!(bool_from_int(2), Err(InvalidFlag { value: 2 }));
    assert_eq!(bool_from_int(255), Err(InvalidFlag { value: 255 }));
}

#[test]
fn flags_round_trip() {
    for b in [false, true] {
        assert_eq!(bool_from_int(bool_to_int(b)), Ok(b));
    }
    assert_eq!(bool_to_int(true), 1);
    assert_eq!(bool_to_int(false), 0);
}
