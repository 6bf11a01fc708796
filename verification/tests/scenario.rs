use leptos_controls::controls::{BindingKind, Controls};
use leptos_controls::options::{Data, FormFieldOptions, FormOptions, Visibility};

fn is_not_empty(text: &String) -> bool {
    !text.is_empty()
}

fn predicate(path: &String, value: &String) -> bool {
    match path.as_str() {
        "is_not_empty" => is_not_empty(value),
        _ => true,
    }
}

fn no_validator(_path: &String, _controls: &Controls<String>) -> Vec<String> {
    Vec::new()
}

fn login_args() -> FormOptions {
    let account = FormFieldOptions::new(
        Some("account".to_string()),
        "String".to_string(),
        Visibility::Inherited,
    )
    .with_label("Account".to_string())
    .with_validate("is_not_empty".to_string())
    .with_message("account must not be empty".to_string());
    let password = FormFieldOptions::new(
        Some("password".to_string()),
        "String".to_string(),
        Visibility::Inherited,
    )
    .with_label("Password".to_string())
    .with_readonly(true);
    FormOptions::new(
        Visibility::Public,
        "LoginArgs".to_string(),
        Data::Struct(vec![account, password]),
    )
}

#[test]
fn login_scenario() {
    let options = login_args().validate().unwrap();
    let mut controls = Controls::new(&options, vec![String::new(), String::new()]);
    assert_eq!(
        controls.validate(predicate, no_validator),
        vec!["account must not be empty".to_string()]
    );
    assert!(controls.set(0, "123456".to_string()));
    assert_eq!(controls.validate(predicate, no_validator), Vec::<String>::new());
    assert_eq!(controls.field(0).label(), "Account");
    assert!(controls.field(0).required());
    assert_eq!(controls.field(1).label(), "Password");
    assert!(!controls.field(1).required());
    assert_eq!(controls.field(0).kind(), BindingKind::Mutable);
    assert_eq!(controls.field(1).kind(), BindingKind::ReadOnly);
    assert_eq!(controls.snapshot(), vec!["123456".to_string(), String::new()]);
}
