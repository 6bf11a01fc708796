use leptos_controls::naming::{capitalize, to_upper};
use leptos_controls::{Data, FormFieldOptions, FormOptions, Visibility};

fn field(ident: &str) -> FormFieldOptions {
    FormFieldOptions::new(Some(ident.to_string()), "String".to_string(), Visibility::Inherited)
}

#[test]
fn capitalize_single_word() {
    assert_eq!(capitalize("account"), "Account");
}

#[test]
fn capitalize_single_letter() {
    assert_eq!(capitalize("a"), "A");
}

#[test]
fn capitalize_segments() {
    assert_eq!(capitalize("first_name"), "FirstName");
    assert_eq!(capitalize("a_b_c"), "ABC");
}

#[test]
fn capitalize_keeps_the_rest_of_a_segment() {
    assert_eq!(capitalize("userID_x2"), "UserIDX2");
}

#[test]
fn capitalize_empty_segments_give_nothing() {
    assert_eq!(capitalize(""), "");
    assert_eq!(capitalize("_"), "");
    assert_eq!(capitalize("_private"), "Private");
    assert_eq!(capitalize("a__b_"), "AB");
}

#[test]
fn capitalize_leaves_other_characters() {
    assert_eq!(capitalize("1st_2nd"), "1st2nd");
    assert_eq!(capitalize("\u{e9}t\u{e9}_x"), "\u{e9}t\u{e9}X");
}

#[test]
fn to_upper_is_ascii_only() {
    assert_eq!(to_upper('a'), 'A');
    assert_eq!(to_upper('z'), 'Z');
    assert_eq!(to_upper('A'), 'A');
    assert_eq!(to_upper('_'), '_');
    assert_eq!(to_upper('\u{e9}'), '\u{e9}');
}

#[test]
fn struct_ident_is_scoped_to_the_record() {
    let record = "LoginArgs".to_string();
    assert_eq!(field("account").struct_ident(&record), "__LoginArgsAccount");
    assert_eq!(field("first_name").struct_ident(&record), "__LoginArgsFirstName");
}

#[test]
fn struct_ident_differs_between_records() {
    let one = field("account").struct_ident(&"LoginArgs".to_string());
    let other = field("account").struct_ident(&"SignupArgs".to_string());
    assert_ne!(one, other);
    assert_eq!(other, "__SignupArgsAccount");
}

#[test]
fn struct_ident_is_the_same_each_time() {
    let record = "LoginArgs".to_string();
    assert_eq!(
        field("account").struct_ident(&record),
        field("account").struct_ident(&record)
    );
}

#[test]
fn control_struct_ident_follows_the_record() {
    let options = FormOptions::new(
        Visibility::Inherited,
        "LoginArgs".to_string(),
        Data::Struct(Vec::new()),
    );
    assert_eq!(options.control_struct_ident(), "LoginArgsControls");
}
