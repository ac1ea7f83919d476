use zenoh_shell_core::registry::Registry;

#[test]
fn empty_registry_finds_nothing() {
    let r: Registry<u32> = Registry::new();
    assert_eq!(r.len(), 0);
    assert_eq!(r.lookup("default"), None);
}

#[test]
fn open_then_lookup_returns_the_handle() {
    let mut r: Registry<u32> = Registry::new();
    assert_eq!(r.open("default".to_string(), 7), None);
    assert_eq!(r.len(), 1);
    assert_eq!(r.lookup("default"), Some(&7));
    assert_eq!(r.lookup("other"), None);
}

#[test]
fn reopening_a_name_displaces_the_previous_handle() {
    let mut r: Registry<u32> = Registry::new();
    assert_eq!(r.open("s".to_string(), 1), None);
    assert_eq!(r.open("s".to_string(), 2), Some(1));
    assert_eq!(r.len(), 1);
    assert_eq!(r.lookup("s"), Some(&2));
}

#[test]
fn closing_hands_the_handle_back_once() {
    let mut r: Registry<u32> = Registry::new();
    r.open("a".to_string(), 1);
    r.open("b".to_string(), 2);
    assert_eq!(r.close("a"), Some(1));
    assert_eq!(r.close("a"), None);
    assert_eq!(r.len(), 1);
    assert_eq!(r.lookup("b"), Some(&2));
}

#[test]
fn names_come_back_in_insertion_order() {
    let mut r: Registry<u32> = Registry::new();
    r.open("default".to_string(), 0);
    r.open("alpha".to_string(), 1);
    r.open("beta".to_string(), 2);
    r.close("alpha");
    assert_eq!(
        r.names(),
        vec!["default".to_string(), "beta".to_string()]
    );
}
