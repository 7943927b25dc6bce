use subclass_bridge::value::{bool_from_glib, bool_into_glib, Type, Value, GFALSE, GTRUE};

fn samples() -> Vec<(Value, Type)> {
    vec![
        (Value::Bool(true), Type::Bool),
        (Value::I32(-7), Type::I32),
        (Value::U32(7), Type::U32),
        (Value::I64(-1 << 40), Type::I64),
        (Value::U64(1 << 40), Type::U64),
        (Value::String(String::from("row")), Type::String),
    ]
}

#[test]
fn every_value_reports_its_tag() {
    for (value, tag) in samples() {
        assert_eq!(value.type_(), tag);
    }
}

#[test]
fn a_copy_has_the_same_tag_and_payload() {
    for (value, tag) in samples() {
        let copy = value.copy();
        assert_eq!(copy.type_(), tag);
        assert!(copy.same(&value));
    }
}

#[test]
fn values_of_different_tags_or_payloads_differ() {
    let all = samples();
    for (i, (a, _)) in all.iter().enumerate() {
        for (j, (b, _)) in all.iter().enumerate() {
            assert_eq!(a.same(b), i == j);
        }
    }
    assert!(!Value::I32(1).same(&Value::I32(2)));
    assert!(!Value::String(String::from("a")).same(&Value::String(String::from("b"))));
    assert!(!Value::I32(1).same(&Value::U32(1)));
}

#[test]
fn a_fresh_slot_holds_the_zero_of_its_type() {
    assert!(Value::for_value_type(Type::Bool).same(&Value::Bool(false)));
    assert!(Value::for_value_type(Type::I32).same(&Value::I32(0)));
    assert!(Value::for_value_type(Type::U32).same(&Value::U32(0)));
    assert!(Value::for_value_type(Type::I64).same(&Value::I64(0)));
    assert!(Value::for_value_type(Type::U64).same(&Value::U64(0)));
    assert!(Value::for_value_type(Type::String).same(&Value::String(String::new())));
}

#[test]
fn booleans_cross_as_one_and_zero() {
    assert_eq!(GTRUE, 1);
    assert_eq!(GFALSE, 0);
    assert_eq!(bool_into_glib(true), 1);
    assert_eq!(bool_into_glib(false), 0);
}

#[test]
fn every_non_zero_integer_is_true() {
    assert!(!bool_from_glib(0));
    assert!(bool_from_glib(1));
    assert!(bool_from_glib(-1));
    assert!(bool_from_glib(42));
    assert!(bool_from_glib(i32::MIN));
    assert!(bool_from_glib(i32::MAX));
}

#[test]
fn a_boolean_survives_the_round_trip() {
    for b in [true, false] {
        assert_eq!(bool_from_glib(bool_into_glib(b)), b);
    }
}
