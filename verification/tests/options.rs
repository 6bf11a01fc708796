use leptos_controls::{ConfigurationError, Data, FormFieldOptions, FormOptions, Visibility};

fn named(ident: &str) -> FormFieldOptions {
    FormFieldOptions::new(Some(ident.to_string()), "String".to_string(), Visibility::Inherited)
}

fn unnamed() -> FormFieldOptions {
    FormFieldOptions::new(None, "String".to_string(), Visibility::Inherited)
}

fn record(fields: Vec<FormFieldOptions>) -> FormOptions {
    FormOptions::new(Visibility::Public, "Args".to_string(), Data::Struct(fields))
}

#[test]
fn validate_accepts_named_fields() {
    let checked = record(vec![named("a"), named("b")]).validate();
    assert!(checked.is_ok());
    let options = checked.ok().unwrap();
    assert_eq!(options.fields().len(), 2);
    assert_eq!(options.ident(), "Args");
}

#[test]
fn validate_accepts_a_record_without_fields() {
    assert!(record(Vec::new()).validate().is_ok());
}

#[test]
fn validate_rejects_an_enum() {
    let options = FormOptions::new(Visibility::Public, "Kind".to_string(), Data::Enum);
    assert_eq!(options.validate().err(), Some(ConfigurationError::UnexpectedType));
}

#[test]
fn validate_rejects_a_field_without_identifier() {
    let checked = record(vec![named("a"), unnamed()]).validate();
    assert_eq!(checked.err(), Some(ConfigurationError::EmptyIdent));
}

#[test]
fn validate_rejects_a_tuple() {
    let checked = record(vec![unnamed(), unnamed()]).validate();
    assert_eq!(checked.err(), Some(ConfigurationError::EmptyIdent));
}

#[test]
fn error_messages() {
    assert_eq!(ConfigurationError::UnexpectedType.message(), "Unexpected type `Enum`");
    assert_eq!(ConfigurationError::EmptyIdent.message(), "Exists empty ident!");
}

#[test]
fn field_tokens_are_the_identifiers_in_order() {
    let options = record(vec![named("account"), named("password"), named("age")]);
    assert_eq!(
        options.field_tokens(),
        vec!["account".to_string(), "password".to_string(), "age".to_string()]
    );
}

#[test]
fn label_defaults_to_the_identifier() {
    assert_eq!(named("account").label(), "account");
}

#[test]
fn label_asked_for_wins() {
    assert_eq!(named("account").with_label("Account".to_string()).label(), "Account");
}

#[test]
fn field_getters() {
    let field = named("account")
        .with_validate("is_not_empty".to_string())
        .with_message("must not be empty".to_string())
        .with_readonly(true);
    assert_eq!(field.ident(), "account");
    assert!(field.has_ident());
    assert_eq!(field.ty(), "String");
    assert_eq!(field.validate().map(|s| s.as_str()), Some("is_not_empty"));
    assert_eq!(field.message().map(|s| s.as_str()), Some("must not be empty"));
    assert!(field.readonly());
    assert!(!named("x").readonly());
    assert_eq!(named("x").validate(), None);
    assert_eq!(named("x").message(), None);
    assert!(!unnamed().has_ident());
}

#[test]
fn visibility_tokens() {
    assert_eq!(Visibility::Inherited.tokens(), "");
    assert_eq!(Visibility::Public.tokens(), "pub ");
    assert_eq!(Visibility::Restricted("crate".to_string()).tokens(), "pub(crate) ");
    assert_eq!(
        Visibility::Restricted("in crate::forms".to_string()).clone().tokens(),
        "pub(in crate::forms) "
    );
}

#[test]
fn record_validator() {
    let options = record(vec![named("a")]);
    assert_eq!(options.validator(), None);
    let options = options.with_validator("check_all".to_string());
    assert_eq!(options.validator().map(|s| s.as_str()), Some("check_all"));
    assert!(options.is_struct());
}
