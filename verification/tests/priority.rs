use subclass_bridge::priority::{
    Priority, PriorityLevel, PRIORITY_DEFAULT, PRIORITY_DEFAULT_IDLE, PRIORITY_HIGH,
    PRIORITY_HIGH_IDLE, PRIORITY_LOW,
};

#[test]
fn the_named_levels_have_their_integers() {
    assert_eq!(PRIORITY_HIGH, -100);
    assert_eq!(PRIORITY_DEFAULT, 0);
    assert_eq!(PRIORITY_HIGH_IDLE, 100);
    assert_eq!(PRIORITY_DEFAULT_IDLE, 200);
    assert_eq!(PRIORITY_LOW, 300);
    assert_eq!(Priority::from_level(PriorityLevel::High).into_glib(), -100);
    assert_eq!(Priority::from_level(PriorityLevel::Default).into_glib(), 0);
    assert_eq!(Priority::from_level(PriorityLevel::HighIdle).into_glib(), 100);
    assert_eq!(Priority::from_level(PriorityLevel::DefaultIdle).into_glib(), 200);
    assert_eq!(Priority::from_level(PriorityLevel::Low).into_glib(), 300);
}

#[test]
fn an_integer_finds_its_level() {
    assert_eq!(Priority::from_glib(-100).level(), Some(PriorityLevel::High));
    assert_eq!(Priority::from_glib(0).level(), Some(PriorityLevel::Default));
    assert_eq!(Priority::from_glib(100).level(), Some(PriorityLevel::HighIdle));
    assert_eq!(Priority::from_glib(200).level(), Some(PriorityLevel::DefaultIdle));
    assert_eq!(Priority::from_glib(300).level(), Some(PriorityLevel::Low));
}

#[test]
fn an_integer_between_the_levels_has_none() {
    assert_eq!(Priority::from_glib(-10).level(), None);
    assert_eq!(Priority::from_glib(1).level(), None);
    assert_eq!(Priority::from_glib(i32::MAX).level(), None);
}

#[test]
fn every_integer_is_kept_as_it_is() {
    for raw in [i32::MIN, -100, -1, 0, 1, 150, 300, i32::MAX] {
        assert_eq!(Priority::from_glib(raw).into_glib(), raw);
    }
}

#[test]
fn levels_survive_the_round_trip() {
    let levels = [
        PriorityLevel::High,
        PriorityLevel::Default,
        PriorityLevel::HighIdle,
        PriorityLevel::DefaultIdle,
        PriorityLevel::Low,
    ];
    for level in levels {
        assert_eq!(Priority::from_level(level).level(), Some(level));
    }
}

#[test]
fn the_default_priority_is_the_default_level() {
    assert_eq!(Priority::default(), Priority::from_glib(0));
    assert_eq!(Priority::default().level(), Some(PriorityLevel::Default));
}
