use vm::sourcemap::SourceMap;

#[test]
fn register_slot_defaults_to_let_until_mutated() {
    let mut map = SourceMap::default();
    map.register_slot(7, "x".to_string()).unwrap();
    assert!(map.slot_is_let(7));
    assert!(!map.slot_is_var(7));
    map.mark_slot_mutated(7);
    assert!(map.slot_is_var(7));
    assert!(!map.slot_is_let(7));
}

#[test]
fn slot_is_never_both_let_and_var() {
    let mut map = SourceMap::new();
    map.register_slot(1, "a".to_string()).unwrap();
    map.mark_slot_mutated(1);
    map.register_slot(1, "a2".to_string()).unwrap();
    assert!(map.slot_is_let(1) && !map.slot_is_var(1));
    map.register_func([1, 2, 3, 4], "f".to_string()).unwrap();
    map.register_const("K".to_string(), "7".to_string()).unwrap();
    assert!(map.slot_is_let(1) && !map.slot_is_var(1));
    map.mark_slot_mutated(1);
    map.mark_slot_mutated(1);
    assert!(map.slot_is_var(1) && !map.slot_is_let(1));
    assert_eq!(map.slot(1).unwrap(), "a2");
}

#[test]
fn registered_names_read_back() {
    let mut map = SourceMap::new();
    map.register_lib(2, "Swap".to_string(), None).unwrap();
    assert!(map.register_lib(2, "Other".to_string(), None).is_err());
    assert_eq!(map.lib(2).unwrap().name, "Swap");
    assert!(map.lib(3).is_none());
    map.register_func([9, 9, 9, 9], "deposit".to_string()).unwrap();
    assert_eq!(map.func(&[9, 9, 9, 9]).unwrap(), "deposit");
    map.register_const("FEE".to_string(), "30".to_string()).unwrap();
    assert_eq!(map.get_const_value("FEE").unwrap(), "30");
    assert_eq!(map.get_const_name("30").unwrap(), "FEE");
    assert!(map.get_const_name("31").is_none());
    map.register_param_prelude_count(2).unwrap();
    assert_eq!(map.param_prelude_count(), Some(2));
}

#[test]
fn slot_class_follows_the_last_call_naming_it() {
    let mut map = SourceMap::default();
    map.register_slot(1, "a".to_string()).unwrap();
    map.register_slot(2, "b".to_string()).unwrap();
    map.mark_slot_mutated(1);
    map.mark_slot_mutated(1);
    map.mark_slot_mutated(3);
    assert!(map.slot_is_var(1) && !map.slot_is_let(1));
    assert!(map.slot_is_let(2) && !map.slot_is_var(2));
    assert!(map.slot_is_var(3) && !map.slot_is_let(3));
    map.register_slot(1, "a2".to_string()).unwrap();
    assert!(map.slot_is_let(1) && !map.slot_is_var(1));
    assert!(!map.slot_is_let(4) && !map.slot_is_var(4));
}
