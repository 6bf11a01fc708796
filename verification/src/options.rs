//! The schema model: a record's identity, its fields in declaration order and
//! what each field asks of its form control.

use crate::naming::{capitalize, control_struct_ident, struct_ident};
use vstd::prelude::*;
use vstd::string::*;

verus! {

/// Who may name an item or a member.
#[derive(Debug)]
pub enum Visibility {
    /// No modifier.
    Inherited,
    /// `pub`.
    Public,
    /// `pub(..)`, holding what stands between the brackets.
    Restricted(String),
}

/// What a [`Visibility`] is, as a mathematical value.
pub enum VisibilitySpec {
    Inherited,
    Public,
    Restricted(Seq<char>),
}

impl View for Visibility {
    type V = VisibilitySpec;

    open spec fn view(&self) -> VisibilitySpec {
        match self {
            Visibility::Inherited => VisibilitySpec::Inherited,
            Visibility::Public => VisibilitySpec::Public,
            Visibility::Restricted(scope) => VisibilitySpec::Restricted(scope@),
        }
    }
}

impl VisibilitySpec {
    /// The modifier as it stands before an item, with the blank that parts it
    /// from what follows.
    pub open spec fn text(self) -> Seq<char> {
        match self {
            VisibilitySpec::Inherited => Seq::empty(),
            VisibilitySpec::Public => "pub "@,
            VisibilitySpec::Restricted(scope) => "pub("@ + scope + ") "@,
        }
    }
}

impl Visibility {
    /// The modifier as it stands before an item, with the blank that parts it
    /// from what follows.
    pub fn tokens(&self) -> (out: String)
        ensures
            out@ == self@.text(),
    {
        match self {
            Visibility::Inherited => String::new(),
            Visibility::Public => String::from_str("pub "),
            Visibility::Restricted(scope) => {
                let mut out = String::from_str("pub(");
                out.append(scope.as_str());
                out.append(") ");
                out
            },
        }
    }
}

impl Clone for Visibility {
    fn clone(&self) -> (out: Visibility)
        ensures
            out@ == self@,
    {
        match self {
            Visibility::Inherited => Visibility::Inherited,
            Visibility::Public => Visibility::Public,
            Visibility::Restricted(scope) => Visibility::Restricted(scope.clone()),
        }
    }
}

/// One field of a record, as a mathematical value.
pub struct FieldSpec {
    /// The field's identifier; `None` for a field of a tuple.
    pub ident: Option<Seq<char>>,
    /// The type of the field's value, as written.
    pub ty: Seq<char>,
    /// The field's visibility.
    pub vis: VisibilitySpec,
    /// The label asked for, if any.
    pub label: Option<Seq<char>>,
    /// The path of a predicate over the field's value, if any.
    pub validate: Option<Seq<char>>,
    /// What to report when the predicate rejects the value, if stated.
    pub message: Option<Seq<char>>,
    /// Whether the control only shows the value.
    pub readonly: bool,
}

impl FieldSpec {
    /// The label shown for the field: the one asked for, else the identifier.
    pub open spec fn label_text(self) -> Seq<char>
        recommends
            self.label is Some || self.ident is Some,
    {
        match self.label {
            Some(label) => label,
            None => self.ident->0,
        }
    }

    /// A field is required exactly when it has a validator.
    pub open spec fn required(self) -> bool {
        self.validate is Some
    }

    /// What the field reports when its validator rejects the value.
    pub open spec fn failure_text(self) -> Seq<char>
        recommends
            self.label is Some || self.ident is Some,
    {
        match self.message {
            Some(message) => message,
            None => self.label_text() + " validation failed!"@,
        }
    }
}

/// The shape of the definition a schema was read from.
#[derive(Clone, Copy, Debug, PartialEq, Eq, Structural)]
pub enum Shape {
    /// A struct; its fields may still be those of a tuple.
    Struct,
    /// An enum.
    Enum,
}

/// A record's schema, as a mathematical value.
pub struct Schema {
    /// The record's visibility.
    pub vis: VisibilitySpec,
    /// The record's identifier.
    pub ident: Seq<char>,
    /// The shape of the definition.
    pub shape: Shape,
    /// The fields in declaration order; empty for an enum.
    pub fields: Seq<FieldSpec>,
    /// The path of a function that validates the whole record in place of
    /// the fields' validators, if any.
    pub validator: Option<Seq<char>>,
}

impl Schema {
    /// The schema describes a struct whose fields all have identifiers.
    pub open spec fn well_formed(self) -> bool {
        &&& self.shape == Shape::Struct
        &&& forall|i: int| 0 <= i < self.fields.len() ==> (#[trigger] self.fields[i]).ident is Some
    }

    /// The identifiers of the fields, in declaration order.
    pub open spec fn field_idents(self) -> Seq<Seq<char>> {
        self.fields.map_values(|f: FieldSpec| f.ident->0)
    }
}

/// Why a definition cannot be given form controls.
#[derive(Clone, Copy, Debug, PartialEq, Eq, Structural)]
pub enum ConfigurationError {
    /// The definition is not a struct.
    UnexpectedType,
    /// A field has no identifier.
    EmptyIdent,
}

impl ConfigurationError {
    /// The diagnostic shown for the error.
    pub fn message(&self) -> (text: &'static str)
        ensures
            text@ == match *self {
                ConfigurationError::UnexpectedType => "Unexpected type `Enum`"@,
                ConfigurationError::EmptyIdent => "Exists empty ident!"@,
            },
    {
        match self {
            ConfigurationError::UnexpectedType => "Unexpected type `Enum`",
            ConfigurationError::EmptyIdent => "Exists empty ident!",
        }
    }
}

/// What a field asks of its form control.
pub struct FormFieldOptions {
    ident: Option<String>,
    ty: String,
    vis: Visibility,
    label: Option<String>,
    validate: Option<String>,
    message: Option<String>,
    readonly: bool,
}

impl View for FormFieldOptions {
    type V = FieldSpec;

    closed spec fn view(&self) -> FieldSpec {
        FieldSpec {
            ident: self.ident.deep_view(),
            ty: self.ty@,
            vis: self.vis@,
            label: self.label.deep_view(),
            validate: self.validate.deep_view(),
            message: self.message.deep_view(),
            readonly: self.readonly,
        }
    }
}

impl FormFieldOptions {
    /// A field with the given identifier, type and visibility and no further
    /// configuration: no label, no validator, writable.
    pub fn new(ident: Option<String>, ty: String, vis: Visibility) -> (field: Self)
        ensures
            field@ == (FieldSpec {
                ident: ident.deep_view(),
                ty: ty@,
                vis: vis@,
                label: None,
                validate: None,
                message: None,
                readonly: false,
            }),
    {
        FormFieldOptions {
            ident,
            ty,
            vis,
            label: None,
            validate: None,
            message: None,
            readonly: false,
        }
    }

    /// The same field, shown under `label`.
    pub fn with_label(self, label: String) -> (field: Self)
        ensures
            field@ == (FieldSpec { label: Some(label@), ..self@ }),
    {
        let mut field = self;
        field.label = Some(label);
        field
    }

    /// The same field, validated by the predicate at `path`.
    pub fn with_validate(self, path: String) -> (field: Self)
        ensures
            field@ == (FieldSpec { validate: Some(path@), ..self@ }),
    {
        let mut field = self;
        field.validate = Some(path);
        field
    }

    /// The same field, reporting `message` when its validator rejects the
    /// value.
    pub fn with_message(self, message: String) -> (field: Self)
        ensures
            field@ == (FieldSpec { message: Some(message@), ..self@ }),
    {
        let mut field = self;
        field.message = Some(message);
        field
    }

    /// The same field, writable or not.
    pub fn with_readonly(self, readonly: bool) -> (field: Self)
        ensures
            field@ == (FieldSpec { readonly, ..self@ }),
    {
        let mut field = self;
        field.readonly = readonly;
        field
    }

    /// The field's identifier.
    pub fn ident(&self) -> (ident: &String)
        requires
            self@.ident is Some,
        ensures
            ident@ == self@.ident->0,
    {
        self.ident.as_ref().unwrap()
    }

    /// Whether the field has an identifier.
    pub fn has_ident(&self) -> (named: bool)
        ensures
            named == self@.ident is Some,
    {
        self.ident.is_some()
    }

    /// The name of the field's marker type among those of `record`.
    pub fn struct_ident(&self, record: &String) -> (name: String)
        requires
            self@.ident is Some,
        ensures
            name@ == struct_ident(record@, self@.ident->0),
    {
        let mut name = String::from_str("__");
        name.append(record.as_str());
        name.append(capitalize(self.ident().as_str()).as_str());
        name
    }

    /// The type of the field's value, as written.
    pub fn ty(&self) -> (ty: &String)
        ensures
            ty@ == self@.ty,
    {
        &self.ty
    }

    /// The field's visibility.
    pub fn vis(&self) -> (vis: &Visibility)
        ensures
            vis@ == self@.vis,
    {
        &self.vis
    }

    /// The label shown for the field: the one asked for, else the identifier.
    pub fn label(&self) -> (label: String)
        requires
            self@.label is Some || self@.ident is Some,
        ensures
            label@ == self@.label_text(),
    {
        match &self.label {
            Some(label) => label.clone(),
            None => self.ident().clone(),
        }
    }

    /// The path of the field's validator, if it has one.
    pub fn validate(&self) -> (path: Option<&String>)
        ensures
            path.deep_view() == self@.validate,
    {
        self.validate.as_ref()
    }

    /// What to report when the validator rejects the value, if stated.
    pub fn message(&self) -> (message: Option<&String>)
        ensures
            message.deep_view() == self@.message,
    {
        self.message.as_ref()
    }

    /// Whether the control only shows the value.
    pub fn readonly(&self) -> (readonly: bool)
        ensures
            readonly == self@.readonly,
    {
        self.readonly
    }
}

/// The fields of a sequence of field options, as mathematical values.
pub open spec fn specs(fields: Seq<FormFieldOptions>) -> Seq<FieldSpec> {
    fields.map_values(|f: FormFieldOptions| f@)
}

/// What a definition holds: the fields of a struct, or an enum's variants,
/// which are not looked at.
pub enum Data {
    /// An enum.
    Enum,
    /// A struct with its fields in declaration order.
    Struct(Vec<FormFieldOptions>),
}

/// What a record asks of its form controls: the schema.
pub struct FormOptions {
    vis: Visibility,
    ident: String,
    data: Data,
    validator: Option<String>,
}

impl View for FormOptions {
    type V = Schema;

    closed spec fn view(&self) -> Schema {
        Schema {
            vis: self.vis@,
            ident: self.ident@,
            shape: match self.data {
                Data::Enum => Shape::Enum,
                Data::Struct(_) => Shape::Struct,
            },
            fields: match self.data {
                Data::Enum => Seq::empty(),
                Data::Struct(fields) => specs(fields@),
            },
            validator: self.validator.deep_view(),
        }
    }
}

impl FormOptions {
    /// The schema of a definition with the given visibility, identifier and
    /// contents, validated field by field.
    pub fn new(vis: Visibility, ident: String, data: Data) -> (options: Self)
        ensures
            options@ == (Schema {
                vis: vis@,
                ident: ident@,
                shape: match data {
                    Data::Enum => Shape::Enum,
                    Data::Struct(_) => Shape::Struct,
                },
                fields: match data {
                    Data::Enum => Seq::empty(),
                    Data::Struct(fields) => specs(fields@),
                },
                validator: None,
            }),
    {
        FormOptions { vis, ident, data, validator: None }
    }

    /// The same schema, with the whole record validated by the function at
    /// `path` in place of the fields' validators.
    pub fn with_validator(self, path: String) -> (options: Self)
        ensures
            options@ == (Schema { validator: Some(path@), ..self@ }),
    {
        let mut options = self;
        options.validator = Some(path);
        options
    }

    /// The record's visibility.
    pub fn vis(&self) -> (vis: &Visibility)
        ensures
            vis@ == self@.vis,
    {
        &self.vis
    }

    /// The record's identifier.
    pub fn ident(&self) -> (ident: &String)
        ensures
            ident@ == self@.ident,
    {
        &self.ident
    }

    /// Whether the definition is a struct.
    pub fn is_struct(&self) -> (yes: bool)
        ensures
            yes == (self@.shape == Shape::Struct),
    {
        match &self.data {
            Data::Enum => false,
            Data::Struct(_) => true,
        }
    }

    /// The fields of the record, in declaration order.
    pub fn fields(&self) -> (fields: &Vec<FormFieldOptions>)
        requires
            self@.shape == Shape::Struct,
        ensures
            specs(fields@) == self@.fields,
    {
        match &self.data {
            Data::Struct(fields) => fields,
            Data::Enum => vstd::pervasive::unreached(),
        }
    }

    /// The path of the function that validates the whole record, if any.
    pub fn validator(&self) -> (path: Option<&String>)
        ensures
            path.deep_view() == self@.validator,
    {
        self.validator.as_ref()
    }

    /// The name of the type that holds the record's controls.
    pub fn control_struct_ident(&self) -> (name: String)
        ensures
            name@ == control_struct_ident(self@.ident),
    {
        let mut name = self.ident.clone();
        name.append("Controls");
        name
    }

    /// The identifiers of the fields, in declaration order.
    pub fn field_tokens(&self) -> (idents: Vec<String>)
        requires
            self@.well_formed(),
        ensures
            idents.deep_view() == self@.field_idents(),
    {
        let fields = self.fields();
        let mut idents: Vec<String> = Vec::new();
        let mut i: usize = 0;
        while i < fields.len()
            invariant
                i <= fields.len(),
                specs(fields@) == self@.fields,
                self@.well_formed(),
                idents.len() == i,
                forall|j: int| 0 <= j < i ==> (#[trigger] idents[j])@ == self@.fields[j].ident->0,
            decreases fields.len() - i,
        {
            assert(fields[i as int]@ == self@.fields[i as int]);
            idents.push(fields[i].ident().clone());
            i = i + 1;
        }
        assert(idents.deep_view() =~= self@.field_idents());
        idents
    }

    /// Checks that the definition can be given form controls: it is a struct
    /// and each of its fields has an identifier.
    pub fn validate(self) -> (checked: Result<Self, ConfigurationError>)
        ensures
            checked is Ok <==> self@.well_formed(),
            match checked {
                Ok(options) => options == self,
                Err(ConfigurationError::UnexpectedType) => self@.shape != Shape::Struct,
                Err(ConfigurationError::EmptyIdent) => self@.shape == Shape::Struct && exists|
                    i: int,
                | 0 <= i < self@.fields.len() && (#[trigger] self@.fields[i]).ident is None,
            },
    {
        if !self.is_struct() {
            return Err(ConfigurationError::UnexpectedType);
        }
        let fields = self.fields();
        let mut i: usize = 0;
        while i < fields.len()
            invariant
                i <= fields.len(),
                specs(fields@) == self@.fields,
                forall|j: int| 0 <= j < i ==> (#[trigger] self@.fields[j]).ident is Some,
            decreases fields.len() - i,
        {
            assert(fields[i as int]@ == self@.fields[i as int]);
            if !fields[i].has_ident() {
                assert(self@.fields[i as int].ident is None);
                return Err(ConfigurationError::EmptyIdent);
            }
            i = i + 1;
        }
        Ok(self)
    }
}

} // verus!
