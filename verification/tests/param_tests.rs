use microgroove_sequencer::param::{wrapping_add, Param, ParamError, ParamList, ParamValue};
use microgroove_sequencer::params::{self, EnumParam, NumberParam};
use microgroove_sequencer::sequencer::Swing;
use microgroove_sequencer::TimeDivision;

fn assert_param_time_division(expected: TimeDivision, param: &Param) {
    match param.value() {
        ParamValue::TimeDivision(time_div) => assert_eq!(expected, time_div),
        other => panic!("unexpected param value {:?}", other),
    }
}

#[test]
fn param_number_should_increment() {
    let mut param_number = Param::new_number_param("NUM", 0, 10, 0);
    param_number.increment(1).unwrap();
    match param_number.value() {
        ParamValue::Number(i) => assert_eq!(1, i),
        _ => panic!("unexpected param value"),
    }
}

#[test]
fn param_number_starting_at_1_should_increment() {
    let mut param_number = Param::new_number_param("NUM", 1, 10, 1);
    param_number.increment(1).unwrap();
    match param_number.value() {
        ParamValue::Number(i) => assert_eq!(2, i),
        _ => panic!("unexpected param value"),
    }
    param_number.increment(10).unwrap();
    match param_number.value() {
        ParamValue::Number(i) => assert_eq!(2, i),
        _ => panic!("unexpected param value"),
    }
    param_number.increment(-5).unwrap();
    match param_number.value() {
        ParamValue::Number(i) => assert_eq!(7, i),
        _ => panic!("unexpected param value"),
    }
}

#[test]
fn param_time_division_should_increment() {
    let mut param_time_div = Param::new_time_division_param("SPD");
    param_time_div.increment(1).unwrap();
    assert_param_time_division(TimeDivision::Eigth, &param_time_div);
    param_time_div.increment(9).unwrap();
    assert_param_time_division(TimeDivision::Sixteenth, &param_time_div);
    param_time_div.increment(-1).unwrap();
    assert_param_time_division(TimeDivision::ThirtySecond, &param_time_div);
    param_time_div.increment(-11).unwrap();
    assert_param_time_division(TimeDivision::Whole, &param_time_div);
}

#[test]
fn param_enum_value_should_have_to_string() {
    let param_time_div = Param::new_time_division_param("SPD");
    match param_time_div.value() {
        ParamValue::TimeDivision(time_division) => {
            assert_eq!("1/16", time_division.to_string())
        }
        _ => panic!("unexpected param value"),
    }
}

#[test]
fn param_list_can_store_different_param_types() {
    let param_number = Param::new_number_param("NUM", 0, 10, 0);
    let param_time_div = Param::new_time_division_param("SPD");
    let _param_list = ParamList::from_slice(&[Box::new(param_number), Box::new(param_time_div)]);
}

#[test]
fn param_value_can_be_set() {
    let mut param_number = Param::new_number_param("NUM", 0, 10, 0);
    param_number.set(ParamValue::Number(1));
    match param_number.value() {
        ParamValue::Number(i) => assert_eq!(1, i),
        _ => panic!("unexpected param value"),
    }
}

#[test]
fn number_param_should_calculate_increments_correctly() {
    let mut param = NumberParam::new("TEST", 1, 16, 1);
    assert_eq!(1, params::Param::value_i8(&param).unwrap());
    params::Param::increment(&mut param, 1);
    assert_eq!(2, params::Param::value_i8(&param).unwrap());
    params::Param::increment(&mut param, 15);
    assert_eq!(16, params::Param::value_i8(&param).unwrap());
    params::Param::increment(&mut param, 1);
    assert_eq!(16, params::Param::value_i8(&param).unwrap());
    params::Param::increment(&mut param, -16);
    assert_eq!(1, params::Param::value_i8(&param).unwrap());
    params::Param::increment(&mut param, -1);
    assert_eq!(1, params::Param::value_i8(&param).unwrap());
}

#[test]
fn enum_param_should_calculate_small_increments_correctly() {
    let mut param = EnumParam::new("TEST", "1 1/4 1/8 1/16 1/32", None);
    assert_eq!("1", params::Param::value_str(&param));
    params::Param::increment(&mut param, 1);
    assert_eq!("1/4", params::Param::value_str(&param));
    params::Param::increment(&mut param, -1);
    assert_eq!("1", params::Param::value_str(&param));
    params::Param::increment(&mut param, -1);
    assert_eq!("1/32", params::Param::value_str(&param));
    params::Param::increment(&mut param, 1);
    assert_eq!("1", params::Param::value_str(&param));
}

#[test]
fn enum_param_should_calculate_large_increments_correctly() {
    let mut param = EnumParam::new("TEST", "1 1/4 1/8 1/16 1/32", None);
    assert_eq!("1", params::Param::value_str(&param));
    params::Param::increment(&mut param, 21);
    assert_eq!("1/4", params::Param::value_str(&param));
    params::Param::increment(&mut param, -21);
    assert_eq!("1", params::Param::value_str(&param));
}

#[test]
fn enum_param_should_have_initial_value() {
    let param = EnumParam::new("TEST", "1 1/4 1/8 1/16 1/32", Some("1/16"));
    assert_eq!("1/16", params::Param::value_str(&param));
}

#[test]
fn enum_param_should_ignore_invalid_initial_value() {
    let param = EnumParam::new("TEST", "1 1/4 1/8 1/16 1/32", Some("XYZ"));
    assert_eq!("1", params::Param::value_str(&param));
}

#[test]
fn enum_param_splits_on_any_ascii_whitespace() {
    let mut param = EnumParam::new("TEST", "  A\tBB\n CCC  ", None);
    assert_eq!("A", params::Param::value_str(&param));
    params::Param::increment(&mut param, 2);
    assert_eq!("CCC", params::Param::value_str(&param));
    params::Param::increment(&mut param, 1);
    assert_eq!("A", params::Param::value_str(&param));
}

#[test]
fn number_param_shows_value_in_decimal() {
    let param = NumberParam::new("TEST", -20, 20, -7);
    assert_eq!("-7", params::Param::value_str(&param));
    assert_eq!("TEST", params::Param::name(&param));
}

#[test]
fn wrapping_add_wraps_both_ways() {
    assert_eq!(0, wrapping_add(15, 1, 15));
    assert_eq!(15, wrapping_add(0, -1, 15));
    assert_eq!(3, wrapping_add(2, 17, 15));
    assert_eq!(params::wrapping_add(4, -21, 4), wrapping_add(4, -21, 4));
}

#[test]
fn param_increment_undone_by_opposite_increment() {
    let mut param = Param::new_number_param("NUM", 3, 9, 5);
    param.increment(11).unwrap();
    param.increment(-11).unwrap();
    assert_eq!(ParamValue::Number(5), param.value());
}

#[test]
fn param_set_from_u8_rejects_values_outside_the_kind() {
    let mut param = Param::new_swing_param("SWING");
    assert_eq!(Ok(()), param.set_from_u8(3));
    assert_eq!(ParamValue::Swing(Swing::Mpc62), param.value());
    assert_eq!(Err(ParamError::ValueError), param.set_from_u8(7));
    assert_eq!(ParamValue::Swing(Swing::Mpc62), param.value());
}

#[test]
fn param_value_labels() {
    assert_eq!("12", ParamValue::Number(12).label());
    assert_eq!("1/8", ParamValue::TimeDivision(TimeDivision::Eigth).label());
    assert_eq!("58", ParamValue::Swing(Swing::Mpc58).label());
    assert_eq!(12, i32::from(ParamValue::Number(12)));
    assert_eq!(Ok(12u8), u8::try_from(ParamValue::Number(12)));
    assert_eq!(Err(ParamError::ValueError), u8::try_from(ParamValue::Swing(Swing::Mpc54)));
}

#[test]
fn param_clone_keeps_name_value_and_range() {
    let mut param = Param::new_number_param("NUM", 2, 9, 4);
    let copy = param.clone();
    param.increment(1).unwrap();
    assert_eq!("NUM", copy.name());
    assert_eq!(ParamValue::Number(4), copy.value());
    assert_eq!(ParamValue::Number(5), param.value());
}

#[test]
fn numbers_are_written_in_decimal() {
    assert_eq!("0", ParamValue::Number(0).label());
    assert_eq!("7", ParamValue::Number(7).label());
    assert_eq!("100", ParamValue::Number(100).label());
    assert_eq!("255", ParamValue::Number(255).label());
    assert_eq!("-128", params::Param::value_str(&NumberParam::new("LOW", -128, 127, -128)));
    assert_eq!("-7", params::Param::value_str(&NumberParam::new("NEG", -128, 127, -7)));
    assert_eq!("127", params::Param::value_str(&NumberParam::new("HIGH", -128, 127, 127)));
    assert_eq!("0", params::Param::value_str(&NumberParam::new("ZERO", -128, 127, 0)));
}

#[test]
fn enum_param_options_may_hold_characters_beyond_ascii() {
    let mut param = EnumParam::new("FRAC", "1 ½ ¼ 1/8", Some("½"));
    assert_eq!("½", params::Param::value_str(&param));
    params::Param::increment(&mut param, 1);
    assert_eq!("¼", params::Param::value_str(&param));
    params::Param::increment(&mut param, 2);
    assert_eq!("1", params::Param::value_str(&param));
}
