use leptos_controls::control::Part;
use leptos_controls::expand::{expand_with, first_unknown};
use leptos_controls::field_struct::Item;
use leptos_controls::{
    ConfigurationError, ControlStruct, Data, ExpandError, FieldStruct, FormFieldOptions,
    FormOptions, Visibility,
};

fn login_args() -> FormOptions {
    let account = FormFieldOptions::new(
        Some("account".to_string()),
        "String".to_string(),
        Visibility::Inherited,
    )
    .with_label("Account".to_string())
    .with_validate("is_not_empty".to_string())
    .with_message("account must not be empty".to_string());
    let password = FormFieldOptions::new(
        Some("password".to_string()),
        "String".to_string(),
        Visibility::Public,
    )
    .with_label("Password".to_string())
    .with_readonly(true);
    FormOptions::new(
        Visibility::Public,
        "LoginArgs".to_string(),
        Data::Struct(vec![account, password]),
    )
}

const FIELD_TEXT: &str = "#[doc(hidden)]
#[derive(Clone, Copy)]
pub struct __LoginArgsAccount;
#[doc(hidden)]
#[derive(Clone, Copy)]
pub struct __LoginArgsPassword;
impl leptos_controls::FieldMeta for __LoginArgsAccount {
    type Type = String;
    fn label() -> &'static str {
        \"Account\"
    }
    fn required() -> bool {
        true
    }
    #[allow(unused_variables)]
    fn validate(v: &Self::Type) -> Option<std::borrow::Cow<'static, str>> {
        if is_not_empty(v) {
            None
        } else {
            Some(std::borrow::Cow::from(\"account must not be empty\"))
        }
    }
}
impl leptos_controls::FieldMeta for __LoginArgsPassword {
    type Type = String;
    fn label() -> &'static str {
        \"Password\"
    }
    fn required() -> bool {
        false
    }
    #[allow(unused_variables)]
    fn validate(v: &Self::Type) -> Option<std::borrow::Cow<'static, str>> {
        None
    }
}
";

const CONTROL_TEXT: &str = "#[derive(Clone, Copy)]
pub struct LoginArgsControls {
    account: leptos_controls::RwSignalField<__LoginArgsAccount, String>,
    pub password: leptos_controls::SignalField<__LoginArgsPassword, String>,
}
impl LoginArgsControls {
    #[doc = \"Construct a new instance from arguments\"]
    pub fn new(value: LoginArgs) -> Self {
        let LoginArgs { account, password, .. } = value;
        let account = leptos_controls::RwSignalField::new(account);
        let password = leptos_controls::SignalField::new(password);
        LoginArgsControls { account, password, }
    }
    #[doc = \"Set controls all values use default value\"]
    pub fn set_default(&mut self) {
        <leptos_controls::RwSignalField<__LoginArgsAccount, String> as leptos_controls::Field>::set_default(&mut self.account);
        <leptos_controls::SignalField<__LoginArgsPassword, String> as leptos_controls::Field>::set_default(&mut self.password);
    }
    #[doc = \"Get controls all values use untracked\"]
    pub fn snapshot(&self) -> LoginArgs {
        let LoginArgsControls { account, password, .. } = *self;
        let account = <leptos_controls::RwSignalField<__LoginArgsAccount, String> as leptos::SignalGetUntracked>::get_untracked(&account);
        let password = <leptos_controls::SignalField<__LoginArgsPassword, String> as leptos::SignalGetUntracked>::get_untracked(&password);
        LoginArgs { account, password, }
    }
    #[doc = \"Validate controls all field and return error messages\"]
    pub fn validate(&self) -> Vec<std::borrow::Cow<'static, str>> {
        #[allow(unused_variables)]
        let LoginArgsControls { account, password, .. } = *self;
        vec![
            <leptos_controls::RwSignalField<__LoginArgsAccount, String> as leptos_controls::Field>::validate(&account),
            <leptos_controls::SignalField<__LoginArgsPassword, String> as leptos_controls::Field>::validate(&password),
        ].into_iter().flatten().collect()
    }
}
";

#[test]
fn field_struct_tokens_of_login_args() {
    let options = login_args();
    let paths = vec![Some("is_not_empty".to_string()), None];
    assert_eq!(FieldStruct::new(&options).tokens(&paths), FIELD_TEXT);
}

#[test]
fn control_struct_tokens_of_login_args() {
    let options = login_args();
    assert_eq!(ControlStruct::new(&options).tokens(), CONTROL_TEXT);
}

#[test]
fn derive_writes_marker_types_then_controls() {
    let text = leptos_controls::expand::derive(login_args()).unwrap();
    assert_eq!(text, format!("{}{}", FIELD_TEXT, CONTROL_TEXT));
}

#[test]
fn derive_is_the_same_each_time() {
    assert_eq!(
        leptos_controls::expand::derive(login_args()),
        leptos_controls::expand::derive(login_args())
    );
}

#[test]
fn derive_rejects_an_enum() {
    let options = FormOptions::new(Visibility::Public, "Kind".to_string(), Data::Enum);
    assert_eq!(
        leptos_controls::expand::derive(options),
        Err(ExpandError::Configuration(ConfigurationError::UnexpectedType))
    );
}

#[test]
fn derive_rejects_a_field_without_identifier() {
    let options = FormOptions::new(
        Visibility::Public,
        "Pair".to_string(),
        Data::Struct(vec![FormFieldOptions::new(
            None,
            "u8".to_string(),
            Visibility::Inherited,
        )]),
    );
    assert_eq!(
        leptos_controls::expand::derive(options),
        Err(ExpandError::Configuration(ConfigurationError::EmptyIdent))
    );
}

fn with_validators(paths: &[Option<&str>]) -> FormOptions {
    let mut fields = Vec::new();
    for (i, path) in paths.iter().enumerate() {
        let field = FormFieldOptions::new(
            Some(format!("f{}", i)),
            "String".to_string(),
            Visibility::Inherited,
        );
        fields.push(match path {
            Some(path) => field.with_validate(path.to_string()),
            None => field,
        });
    }
    FormOptions::new(Visibility::Inherited, "Args".to_string(), Data::Struct(fields))
}

#[test]
fn derive_accepts_paths() {
    let options = with_validators(&[Some("check"), None, Some("crate::rules::check::<u8>")]);
    assert!(leptos_controls::expand::derive(options).is_ok());
}

#[test]
fn derive_reports_the_first_validator_that_is_no_path() {
    let options = with_validators(&[Some("check"), Some("not a path"), Some("1 + 1")]);
    assert_eq!(
        leptos_controls::expand::derive(options),
        Err(ExpandError::UnknownValue(1))
    );
    let options = with_validators(&[None, None, Some("")]);
    assert_eq!(
        leptos_controls::expand::derive(options),
        Err(ExpandError::UnknownValue(2))
    );
}

#[test]
fn configuration_comes_before_validators() {
    let fields = vec![
        FormFieldOptions::new(Some("a".to_string()), "u8".to_string(), Visibility::Inherited)
            .with_validate("not a path".to_string()),
        FormFieldOptions::new(None, "u8".to_string(), Visibility::Inherited),
    ];
    let options = FormOptions::new(Visibility::Inherited, "Args".to_string(), Data::Struct(fields));
    assert_eq!(
        leptos_controls::expand::derive(options),
        Err(ExpandError::Configuration(ConfigurationError::EmptyIdent))
    );
}

#[test]
fn record_validator_replaces_the_fields() {
    let options = login_args().with_validator("check_login".to_string());
    let text = ControlStruct::new(&options).validate_tokens();
    assert_eq!(
        text,
        "    #[doc = \"Validate controls all field and return error messages\"]
    pub fn validate(&self) -> Vec<std::borrow::Cow<'static, str>> {
        check_login(&self)
    }
"
    );
}

#[test]
fn record_without_fields_validates_to_nothing() {
    let options = FormOptions::new(
        Visibility::Restricted("crate".to_string()),
        "Empty".to_string(),
        Data::Struct(Vec::new()),
    );
    let control = ControlStruct::new(&options);
    assert_eq!(
        control.validate_tokens(),
        "    #[doc = \"Validate controls all field and return error messages\"]
    pub fn validate(&self) -> Vec<std::borrow::Cow<'static, str>> {
        vec![]
    }
"
    );
    assert_eq!(
        control.type_tokens(),
        "#[derive(Clone, Copy)]\npub(crate) struct EmptyControls {\n}\n"
    );
    assert_eq!(FieldStruct::new(&options).tokens(&Vec::new()), "");
}

#[test]
fn parts_follow_the_declaration() {
    let options = login_args();
    let control = ControlStruct::new(&options);
    assert_eq!(control.parts(Part::Name), "account, password, ");
    assert_eq!(
        control.parts(Part::Bind),
        "        let account = leptos_controls::RwSignalField::new(account);
        let password = leptos_controls::SignalField::new(password);
"
    );
    let fields = options.fields();
    assert_eq!(control.part(Part::Name, &fields[1]), "password, ");
    assert_eq!(ControlStruct::binding(&fields[0]), "RwSignalField");
    assert_eq!(ControlStruct::binding(&fields[1]), "SignalField");
    let markers = FieldStruct::new(&options).items(Item::Marker, &vec![None, None]);
    assert!(markers.ends_with("pub struct __LoginArgsPassword;\n"));
    assert_eq!(
        FieldStruct::new(&options).item(Item::Marker, &fields[0], None),
        "#[doc(hidden)]\n#[derive(Clone, Copy)]\npub struct __LoginArgsAccount;\n"
    );
}

#[test]
fn synthesized_message_follows_the_label() {
    let field = FormFieldOptions::new(
        Some("age".to_string()),
        "u8".to_string(),
        Visibility::Inherited,
    )
    .with_validate("is_adult".to_string());
    let options = FormOptions::new(
        Visibility::Inherited,
        "Person".to_string(),
        Data::Struct(vec![field]),
    );
    let text = FieldStruct::new(&options).tokens(&vec![Some("is_adult".to_string())]);
    assert!(text.contains("Some(std::borrow::Cow::from(\"age validation failed!\"))"));
    assert!(text.contains("fn label() -> &'static str {\n        \"age\"\n    }"));
    assert!(text.starts_with("#[doc(hidden)]\n#[derive(Clone, Copy)]\nstruct __PersonAge;\n"));
}

#[test]
fn labels_are_written_as_literals() {
    let field = FormFieldOptions::new(
        Some("note".to_string()),
        "String".to_string(),
        Visibility::Inherited,
    )
    .with_label("say \"hi\"\\\n".to_string());
    let options = FormOptions::new(
        Visibility::Inherited,
        "Memo".to_string(),
        Data::Struct(vec![field]),
    );
    let text = FieldStruct::new(&options).tokens(&vec![None]);
    assert!(text.contains("        \"say \\\"hi\\\"\\\\\\n\"\n"));
}

#[test]
fn validators_are_written_by_their_tokens() {
    let options = with_validators(&[Some(" rules :: check // the rule"), None]);
    let text = leptos_controls::expand::derive(options).unwrap();
    assert!(text.contains("        if rules :: check(v) {\n"));
    assert!(!text.contains("the rule"));
}

#[test]
fn first_unknown_is_the_first_validator_without_a_path() {
    let options = with_validators(&[Some("a"), None, Some("b"), Some("c")]);
    let fields = options.fields();
    let all = vec![Some("a".to_string()), None, Some("b".to_string()), Some("c".to_string())];
    assert_eq!(first_unknown(fields, &all), None);
    let two = vec![Some("a".to_string()), None, None, None];
    assert_eq!(first_unknown(fields, &two), Some(2));
    let none = vec![None, None, None, None];
    assert_eq!(first_unknown(fields, &none), Some(0));
    let extra = vec![Some("a".to_string()), Some("x".to_string()), Some("b".to_string()), None];
    assert_eq!(first_unknown(fields, &extra), Some(3));
}

#[test]
fn first_unknown_of_fields_without_validators() {
    let options = with_validators(&[None, None]);
    assert_eq!(first_unknown(options.fields(), &vec![None, None]), None);
    assert_eq!(first_unknown(&Vec::new(), &Vec::new()), None);
}

#[test]
fn expand_with_writes_from_the_paths_it_is_given() {
    let options = login_args();
    let paths = vec![Some("rules::filled".to_string()), None];
    let text = expand_with(&options, &paths).unwrap();
    assert!(text.contains("        if rules::filled(v) {\n"));
    assert!(!text.contains("is_not_empty"));
    assert!(text.ends_with(CONTROL_TEXT));
}

#[test]
fn expand_with_reports_the_first_field_without_a_path() {
    let options = login_args();
    assert_eq!(
        expand_with(&options, &vec![None, None]),
        Err(ExpandError::UnknownValue(0))
    );
    let options = with_validators(&[Some("a"), Some("b"), Some("c")]);
    assert_eq!(
        expand_with(&options, &vec![Some("a".to_string()), None, None]),
        Err(ExpandError::UnknownValue(1))
    );
}

#[test]
fn a_path_for_a_field_without_validator_is_not_written() {
    let options = login_args();
    let paths = vec![Some("is_not_empty".to_string()), Some("stray".to_string())];
    assert_eq!(FieldStruct::new(&options).tokens(&paths), FIELD_TEXT);
}
