use subclass_bridge::content_deserializer::{ContentDeserializer, TypeMismatch};
use subclass_bridge::error::Error;
use subclass_bridge::priority::{Priority, PriorityLevel};
use subclass_bridge::value::{Type, Value};

fn tags() -> [Type; 6] {
    [Type::Bool, Type::I32, Type::U32, Type::I64, Type::U64, Type::String]
}

fn sample(tag: Type) -> Value {
    match tag {
        Type::Bool => Value::Bool(true),
        Type::I32 => Value::I32(-7),
        Type::U32 => Value::U32(7),
        Type::I64 => Value::I64(-70),
        Type::U64 => Value::U64(70),
        Type::String => Value::String(String::from("seventy")),
    }
}

#[test]
fn a_fresh_context_holds_the_zero_of_its_type_and_no_error() {
    for tag in tags() {
        let d = ContentDeserializer::new(tag, Priority::default());
        assert_eq!(d.type_(), tag);
        assert!(d.value().same(&Value::for_value_type(tag)));
        assert!(d.error().is_none());
    }
}

#[test]
fn set_value_copies_the_value_into_the_slot() {
    for tag in tags() {
        let mut d = ContentDeserializer::new(tag, Priority::default());
        d.set_value(sample(tag));
        assert!(d.value().same(&sample(tag)));
        assert_eq!(d.type_(), tag);
        assert!(d.error().is_none());
    }
}

#[test]
fn set_value_replaces_an_earlier_value() {
    let mut d = ContentDeserializer::new(Type::String, Priority::default());
    d.set_value(Value::String(String::from("first")));
    d.set_value(Value::String(String::from("second")));
    assert!(d.value().same(&Value::String(String::from("second"))));
}

#[test]
fn a_value_of_the_declared_type_is_accepted() {
    for tag in tags() {
        let mut d = ContentDeserializer::new(tag, Priority::default());
        assert_eq!(d.try_set_value(sample(tag)), Ok(()));
        assert!(d.value().same(&sample(tag)));
    }
}

#[test]
fn a_value_of_another_type_is_refused_for_every_pair_of_tags() {
    for declared in tags() {
        for offered in tags() {
            if declared == offered {
                continue;
            }
            let mut d = ContentDeserializer::new(declared, Priority::default());
            assert_eq!(
                d.try_set_value(sample(offered)),
                Err(TypeMismatch { expected: declared, found: offered })
            );
            assert_eq!(d.type_(), declared);
            assert!(d.value().same(&Value::for_value_type(declared)));
            assert!(d.error().is_none());
        }
    }
}

#[test]
fn priority_reads_what_the_context_was_given() {
    let d = ContentDeserializer::new(Type::I32, Priority::from_level(PriorityLevel::HighIdle));
    assert_eq!(d.priority().into_glib(), 100);
    assert_eq!(d.priority().level(), Some(PriorityLevel::HighIdle));
    let d = ContentDeserializer::new(Type::I32, Priority::from_glib(-3));
    assert_eq!(d.priority(), Priority::from_glib(-3));
}

#[test]
fn priority_is_not_changed_by_the_other_operations() {
    let mut d = ContentDeserializer::new(Type::U32, Priority::from_glib(250));
    d.set_value(Value::U32(9));
    d.return_error(Error::new(1, 2, "three"));
    assert_eq!(d.priority().into_glib(), 250);
}

#[test]
fn return_error_fills_the_pending_slot_with_the_error() {
    let mut d = ContentDeserializer::new(Type::String, Priority::default());
    d.return_error(Error::new(17, -4, "no such format"));
    let pending = d.error().unwrap();
    assert_eq!(pending.domain(), 17);
    assert_eq!(pending.code(), -4);
    assert_eq!(pending.message(), "no such format");
    assert!(d.value().same(&Value::String(String::new())));
}

#[test]
fn only_the_first_error_is_kept() {
    let mut d = ContentDeserializer::new(Type::Bool, Priority::default());
    d.return_error(Error::new(1, 10, "first"));
    d.return_error(Error::new(2, 20, "second"));
    let pending = d.error().unwrap();
    assert_eq!(pending.domain(), 1);
    assert_eq!(pending.code(), 10);
    assert_eq!(pending.message(), "first");
}

#[test]
fn an_error_after_a_value_keeps_the_value() {
    let mut d = ContentDeserializer::new(Type::I64, Priority::default());
    d.set_value(Value::I64(5));
    d.return_error(Error::new(3, 30, "late"));
    assert!(d.value().same(&Value::I64(5)));
    assert_eq!(d.error().unwrap().code(), 30);
}

#[test]
fn a_value_after_an_error_keeps_the_error() {
    let mut d = ContentDeserializer::new(Type::I64, Priority::default());
    d.return_error(Error::new(3, 30, "early"));
    d.set_value(Value::I64(5));
    assert!(d.value().same(&Value::I64(5)));
    assert_eq!(d.error().unwrap().message(), "early");
}
