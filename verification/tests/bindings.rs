use leptos_controls::{Field, FieldMeta, RwSignalField, SignalField};
use std::borrow::Cow;

struct Account;

impl FieldMeta for Account {
    type Type = String;

    fn label() -> &'static str {
        "Account"
    }

    fn required() -> bool {
        true
    }

    fn validate(value: &String) -> Option<Cow<'static, str>> {
        if value.is_empty() {
            Some(Cow::from("account must not be empty"))
        } else {
            None
        }
    }
}

struct Age;

impl FieldMeta for Age {
    type Type = u8;

    fn label() -> &'static str {
        "Age"
    }

    fn required() -> bool {
        false
    }

    fn validate(_value: &u8) -> Option<Cow<'static, str>> {
        None
    }
}

#[test]
fn rw_signal_field_holds_its_value() {
    let field = RwSignalField::<Account, String>::new("admin".to_string());
    assert_eq!(field.get_untracked(), "admin");
    assert_eq!(field.get(), "admin");
}

#[test]
fn rw_signal_field_can_be_written() {
    let mut field = RwSignalField::<Account, String>::new(String::new());
    field.set("admin".to_string());
    assert_eq!(field.get_untracked(), "admin");
    field.set_untracked("123456".to_string());
    assert_eq!(field.get(), "123456");
}

#[test]
fn rw_signal_field_metadata() {
    let field = RwSignalField::<Account, String>::new(String::new());
    assert_eq!(field.label(), "Account");
    assert!(field.required());
    assert_eq!(field.validate(), Some(Cow::from("account must not be empty")));
    let field = RwSignalField::<Account, String>::new("admin".to_string());
    assert_eq!(field.validate(), None);
}

#[test]
fn rw_signal_field_set_default() {
    let mut field = RwSignalField::<Account, String>::new("admin".to_string());
    field.set_default();
    assert_eq!(field.get_untracked(), "");
    let mut age = RwSignalField::<Age, u8>::new(42);
    age.set_default();
    assert_eq!(age.get_untracked(), 0);
}

#[test]
fn signal_field_holds_its_value() {
    let field = SignalField::<Age, u8>::new(42);
    assert_eq!(field.get_untracked(), 42);
    assert_eq!(field.get(), 42);
    assert_eq!(field.label(), "Age");
    assert!(!field.required());
    assert_eq!(field.validate(), None);
}

#[test]
fn signal_field_set_default_changes_nothing() {
    let mut field = SignalField::<Account, String>::new("admin".to_string());
    field.set_default();
    assert_eq!(field.get_untracked(), "admin");
    assert_eq!(field.validate(), None);
}

#[test]
fn rw_signal_field_default_holds_a_default() {
    let field = RwSignalField::<Account, String>::default();
    assert_eq!(field.get_untracked(), "");
    assert_eq!(RwSignalField::<Age, u8>::default().get_untracked(), 0);
}

#[test]
fn a_written_value_is_the_value_read() {
    let mut field = RwSignalField::<Account, String>::new("admin".to_string());
    field.set("other".to_string());
    assert_eq!(field.get_untracked(), "other");
    assert_eq!(field.get(), "other");
    assert_eq!(field.validate(), None);
}

#[test]
fn a_read_only_field_clones_with_its_value() {
    let field = SignalField::<Age, u8>::new(7);
    let copy = field.clone();
    assert_eq!(copy.get_untracked(), 7);
    assert_eq!(field.get_untracked(), copy.get_untracked());
}
