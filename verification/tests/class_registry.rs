use subclass_bridge::class::{ClassRegistry, Trampoline, TreeModelFilterClass, TREE_MODEL_FILTER};

fn initialized() -> ClassRegistry {
    let mut registry = ClassRegistry::new();
    registry.init();
    registry
}

#[test]
fn a_new_registry_holds_the_base_class_only() {
    let registry = ClassRegistry::new();
    assert!(!registry.is_initialized());
    assert_eq!(registry.len(), 1);
    assert_eq!(registry.type_from_name("GtkTreeModelFilter"), Some(TREE_MODEL_FILTER));
    assert_eq!(
        registry.class(TREE_MODEL_FILTER),
        Some(TreeModelFilterClass {
            parent: None,
            instance_size: 0,
            object: None,
            visible: None,
            modify: None,
        })
    );
    assert_eq!(registry.class(1), None);
    assert_eq!(registry.parent_class(TREE_MODEL_FILTER), None);
}

#[test]
fn init_marks_the_runtime_and_keeps_the_classes() {
    let mut registry = ClassRegistry::new();
    registry.init();
    assert!(registry.is_initialized());
    assert_eq!(registry.len(), 1);
    registry.init();
    assert!(registry.is_initialized());
}

#[test]
fn a_registered_type_takes_over_every_slot() {
    let mut registry = initialized();
    let id = registry.register("EvenRows", TREE_MODEL_FILTER);
    assert_eq!(id, 1);
    assert_eq!(registry.len(), 2);
    let own = Some(Trampoline { implementation: 1 });
    assert_eq!(
        registry.class(id),
        Some(TreeModelFilterClass {
            parent: Some(TREE_MODEL_FILTER),
            instance_size: 1,
            object: own,
            visible: own,
            modify: own,
        })
    );
}

#[test]
fn registration_leaves_the_other_classes_untouched() {
    let mut registry = initialized();
    let base_before = registry.class(TREE_MODEL_FILTER);
    let first = registry.register("EvenRows", TREE_MODEL_FILTER);
    let first_before = registry.class(first);
    let second = registry.register("FirstTen", first);
    assert_eq!(registry.class(TREE_MODEL_FILTER), base_before);
    assert_eq!(registry.class(first), first_before);
    assert_eq!(registry.class(second).unwrap().instance_size, 2);
    assert_eq!(registry.class(second).unwrap().parent, Some(first));
}

#[test]
fn the_parent_class_is_the_table_one_link_up() {
    let mut registry = initialized();
    let first = registry.register("EvenRows", TREE_MODEL_FILTER);
    let second = registry.register("FirstTen", first);
    assert_eq!(registry.parent_class(first), registry.class(TREE_MODEL_FILTER));
    assert_eq!(registry.parent_class(second), registry.class(first));
    assert_eq!(registry.parent_class(first).unwrap().visible, None);
    assert_eq!(
        registry.parent_class(second).unwrap().visible,
        Some(Trampoline { implementation: first })
    );
    assert_eq!(registry.parent_class(7), None);
}

#[test]
fn registering_a_type_twice_changes_nothing() {
    let mut registry = initialized();
    let first = registry.register("EvenRows", TREE_MODEL_FILTER);
    let second = registry.register("FirstTen", first);
    let classes: Vec<_> = (0..registry.len()).map(|i| registry.class(i)).collect();

    assert_eq!(registry.register("EvenRows", TREE_MODEL_FILTER), first);
    assert_eq!(registry.register("FirstTen", first), second);
    assert_eq!(registry.register("EvenRows", second), first);
    assert_eq!(registry.register("GtkTreeModelFilter", first), TREE_MODEL_FILTER);

    assert_eq!(registry.len(), 3);
    let after: Vec<_> = (0..registry.len()).map(|i| registry.class(i)).collect();
    assert_eq!(after, classes);
    assert_eq!(registry.parent_class(first), registry.class(TREE_MODEL_FILTER));
    assert_eq!(registry.parent_class(second), registry.class(first));
}

#[test]
fn a_type_is_found_by_its_name() {
    let mut registry = initialized();
    let first = registry.register("EvenRows", TREE_MODEL_FILTER);
    let second = registry.register("FirstTen", first);
    assert_eq!(registry.type_from_name("EvenRows"), Some(first));
    assert_eq!(registry.type_from_name("FirstTen"), Some(second));
    assert_eq!(registry.type_from_name("evenrows"), None);
    assert_eq!(registry.type_from_name(""), None);
}

#[test]
fn a_class_derives_from_itself_and_from_every_ancestor() {
    let mut registry = initialized();
    let first = registry.register("EvenRows", TREE_MODEL_FILTER);
    let second = registry.register("FirstTen", first);
    let sibling = registry.register("Other", TREE_MODEL_FILTER);
    for class in [TREE_MODEL_FILTER, first, second, sibling] {
        assert!(registry.is_a(class, class));
        assert!(registry.is_a(class, TREE_MODEL_FILTER));
    }
    assert!(registry.is_a(second, first));
    assert!(!registry.is_a(first, second));
    assert!(!registry.is_a(sibling, first));
    assert!(!registry.is_a(second, sibling));
    assert!(!registry.is_a(TREE_MODEL_FILTER, first));
    assert!(!registry.is_a(first, 9));
    assert!(registry.is_a(9, 9));
}
