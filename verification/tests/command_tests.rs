use wayshell::command::{Command, Selector, SingleUse, Target, WidgetId, WindowId};

#[test]
fn get_object() {
    let sel = Selector::new("my-selector");
    let objs = vec![0, 1, 2];
    let command = Command::new(sel, objs);
    assert_eq!(command.get(sel), Some(&vec![0, 1, 2]));
}

#[test]
fn get_mismatched_selector_is_none() {
    let sel = Selector::new("alpha");
    let other: Selector<Vec<i32>> = Selector::new("beta");
    let command = Command::new(sel, vec![4, 5]);
    assert!(!command.is(other));
    assert_eq!(command.get(other), None);
}

#[test]
fn is_compares_symbols_only() {
    let sel: Selector<u32> = Selector::new("same-key");
    let other: Selector<String> = Selector::new("same-key");
    let command = Command::new(sel, 7u32);
    assert!(command.is(other));
    assert!(command.is(sel));
}

#[test]
fn carry_builds_the_same_command() {
    let sel: Selector<u8> = Selector::new("carried");
    let command = sel.carry(42u8);
    assert_eq!(command.get(sel), Some(&42u8));
    assert_eq!(*command.get_unchecked(sel), 42u8);
}

#[test]
fn from_ext_keeps_symbol_and_payload() {
    let command = Command::from_ext("external", 11i64);
    let sel: Selector<i64> = Selector::new("external");
    assert!(command.is(sel));
    assert_eq!(command.get(sel), Some(&11i64));
}

#[test]
fn single_use_yields_exactly_once() {
    let mut once = SingleUse::new(String::from("payload"));
    assert_eq!(once.take(), Some(String::from("payload")));
    assert_eq!(once.take(), None);
    assert_eq!(once.take(), None);
}

#[test]
fn selector_without_payload_becomes_command() {
    let sel: Selector<()> = Selector::new("plain");
    let command = Command::from(sel);
    assert!(command.is(sel));
    assert_eq!(command.get(sel), Some(&()));
}

#[test]
fn target_from_ids() {
    assert_eq!(Target::from(WindowId(3)), Target::Window(WindowId(3)));
    assert_eq!(Target::from(WidgetId(9)), Target::Widget(WidgetId(9)));
    assert_ne!(Target::Global, Target::Window(WindowId(0)));
}
