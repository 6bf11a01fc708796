//! The type that holds a record's controls: one member per field, each bound
//! to a writable or a read-only cell, and the four operations on the whole
//! record.

use crate::naming::{control_struct_ident, struct_ident};
use crate::options::{FieldSpec, FormFieldOptions, FormOptions, Schema, specs};
use vstd::prelude::*;
use vstd::string::*;

verus! {

/// The name of the binding that backs a field: a read-only field is bound to
/// a cell that is never written, any other to a cell that can be.
pub open spec fn binding_name(readonly: bool) -> Seq<char> {
    if readonly {
        "SignalField"@
    } else {
        "RwSignalField"@
    }
}

/// The type of the member that backs `field` in the controls of `record`.
pub open spec fn binding_type(record: Seq<char>, field: FieldSpec) -> Seq<char> {
    "leptos_controls::"@ + binding_name(field.readonly) + "<"@ + struct_ident(
        record,
        field.ident->0,
    ) + ", "@ + field.ty + ">"@
}

/// What a field gives to one place of the controls type.
#[derive(Clone, Copy, Debug, PartialEq, Eq, Structural)]
pub enum Part {
    /// Its identifier, in a list of all the fields.
    Name,
    /// Its member in the type.
    Member,
    /// The statement that binds its starting value to a cell.
    Bind,
    /// The statement that sets it to its default.
    Reset,
    /// The statement that reads its value without tracking.
    Read,
    /// The expression that validates its value.
    Check,
}

/// The text that `field` gives to the place `part`.
pub open spec fn part_text(part: Part, record: Seq<char>, field: FieldSpec) -> Seq<char> {
    let ident = field.ident->0;
    match part {
        Part::Name => ident + ", "@,
        Part::Member => "    "@ + field.vis.text() + ident + ": "@ + binding_type(record, field)
            + ",\n"@,
        Part::Bind => "        let "@ + ident + " = leptos_controls::"@ + binding_name(
            field.readonly,
        ) + "::new("@ + ident + ");\n"@,
        Part::Reset => "        <"@ + binding_type(record, field)
            + " as leptos_controls::Field>::set_default(&mut self."@ + ident + ");\n"@,
        Part::Read => "        let "@ + ident + " = <"@ + binding_type(record, field)
            + " as leptos::SignalGetUntracked>::get_untracked(&"@ + ident + ");\n"@,
        Part::Check => "            <"@ + binding_type(record, field)
            + " as leptos_controls::Field>::validate(&"@ + ident + "),\n"@,
    }
}

/// The text that the fields give to the place `part`, in declaration order.
pub open spec fn parts_text(part: Part, record: Seq<char>, fields: Seq<FieldSpec>) -> Seq<char> {
    fields.flat_map(|field: FieldSpec| part_text(part, record, field))
}

/// The pattern that takes a value of type `name` apart into its fields.
pub open spec fn pattern_text(name: Seq<char>, schema: Schema) -> Seq<char> {
    name + " { "@ + parts_text(Part::Name, schema.ident, schema.fields) + ".. }"@
}

/// The expression that puts a value of type `name` together from its fields.
pub open spec fn literal_text(name: Seq<char>, schema: Schema) -> Seq<char> {
    "        "@ + name + " { "@ + parts_text(Part::Name, schema.ident, schema.fields) + "}\n"@
}

/// The definition of the controls type: one member per field, in declaration
/// order.
pub open spec fn type_text(schema: Schema) -> Seq<char> {
    "#[derive(Clone, Copy)]\n"@ + schema.vis.text() + "struct "@ + control_struct_ident(
        schema.ident,
    ) + " {\n"@ + parts_text(Part::Member, schema.ident, schema.fields) + "}\n"@
}

/// The constructor: it takes the record apart, binds each field's value to
/// its cell, and puts the controls together.
pub open spec fn new_text(schema: Schema) -> Seq<char> {
    "    #[doc = \"Construct a new instance from arguments\"]\n    pub fn new(value: "@
        + schema.ident + ") -> Self {\n        let "@ + pattern_text(schema.ident, schema)
        + " = value;\n"@ + parts_text(Part::Bind, schema.ident, schema.fields) + literal_text(
        control_struct_ident(schema.ident),
        schema,
    ) + "    }\n"@
}

/// The reset: every field is set to its default, in declaration order.
pub open spec fn set_default_text(schema: Schema) -> Seq<char> {
    "    #[doc = \"Set controls all values use default value\"]\n    pub fn set_default(&mut self) {\n"@
        + parts_text(Part::Reset, schema.ident, schema.fields) + "    }\n"@
}

/// The snapshot: every field is read without tracking, in declaration order,
/// and a record is put together from the values.
pub open spec fn snapshot_text(schema: Schema) -> Seq<char> {
    "    #[doc = \"Get controls all values use untracked\"]\n    pub fn snapshot(&self) -> "@
        + schema.ident + " {\n        let "@ + pattern_text(
        control_struct_ident(schema.ident),
        schema,
    ) + " = *self;\n"@ + parts_text(Part::Read, schema.ident, schema.fields) + literal_text(
        schema.ident,
        schema,
    ) + "    }\n"@
}

/// What the validation does. Where the record has a validator of its own,
/// the controls are handed to it and nothing else is asked. Else every field
/// is validated in declaration order and the messages that are there are
/// kept in that order; a record without fields has none.
pub open spec fn validate_body_text(schema: Schema) -> Seq<char> {
    match schema.validator {
        Some(path) => "        "@ + path + "(&self)\n"@,
        None => if schema.fields.len() == 0 {
            "        vec![]\n"@
        } else {
            "        #[allow(unused_variables)]\n        let "@ + pattern_text(
                control_struct_ident(schema.ident),
                schema,
            ) + " = *self;\n        vec![\n"@ + parts_text(
                Part::Check,
                schema.ident,
                schema.fields,
            ) + "        ].into_iter().flatten().collect()\n"@
        },
    }
}

/// The validation of the whole record.
pub open spec fn validate_text(schema: Schema) -> Seq<char> {
    "    #[doc = \"Validate controls all field and return error messages\"]\n    pub fn validate(&self) -> Vec<std::borrow::Cow<'static, str>> {\n"@
        + validate_body_text(schema) + "    }\n"@
}

/// The controls type of a record and its operations.
pub open spec fn control_text(schema: Schema) -> Seq<char> {
    type_text(schema) + "impl "@ + control_struct_ident(schema.ident) + " {\n"@ + new_text(schema)
        + set_default_text(schema) + snapshot_text(schema) + validate_text(schema) + "}\n"@
}

/// The controls type of a record, to be written out.
pub struct ControlStruct<'a> {
    options: &'a FormOptions,
}

impl<'a> ControlStruct<'a> {
    /// The schema that the controls type is written for.
    pub closed spec fn schema(&self) -> Schema {
        self.options@
    }

    /// The controls type of the record that `options` describes.
    pub fn new(options: &'a FormOptions) -> (out: Self)
        ensures
            out.schema() == options@,
    {
        Self { options }
    }

    /// The name of the binding that backs `field`.
    pub fn binding(field: &FormFieldOptions) -> (name: &'static str)
        ensures
            name@ == binding_name(field@.readonly),
    {
        if field.readonly() {
            "SignalField"
        } else {
            "RwSignalField"
        }
    }

    /// The type of the member that backs `field`.
    fn binding_type(&self, field: &FormFieldOptions) -> (out: String)
        requires
            field@.ident is Some,
        ensures
            out@ == binding_type(self.schema().ident, field@),
    {
        let mut out = String::from_str("leptos_controls::");
        out.append(Self::binding(field));
        out.append("<");
        out.append(field.struct_ident(self.options.ident()).as_str());
        out.append(", ");
        out.append(field.ty().as_str());
        out.append(">");
        out
    }

    /// The text that `field` gives to the place `part`.
    pub fn part(&self, part: Part, field: &FormFieldOptions) -> (out: String)
        requires
            field@.ident is Some,
        ensures
            out@ == part_text(part, self.schema().ident, field@),
    {
        let ident = field.ident();
        match part {
            Part::Name => {
                let mut out = ident.clone();
                out.append(", ");
                out
            },
            Part::Member => {
                let mut out = String::from_str("    ");
                out.append(field.vis().tokens().as_str());
                out.append(ident.as_str());
                out.append(": ");
                out.append(self.binding_type(field).as_str());
                out.append(",\n");
                out
            },
            Part::Bind => {
                let mut out = String::from_str("        let ");
                out.append(ident.as_str());
                out.append(" = leptos_controls::");
                out.append(Self::binding(field));
                out.append("::new(");
                out.append(ident.as_str());
                out.append(");\n");
                out
            },
            Part::Reset => {
                let mut out = String::from_str("        <");
                out.append(self.binding_type(field).as_str());
                out.append(" as leptos_controls::Field>::set_default(&mut self.");
                out.append(ident.as_str());
                out.append(");\n");
                out
            },
            Part::Read => {
                let mut out = String::from_str("        let ");
                out.append(ident.as_str());
                out.append(" = <");
                out.append(self.binding_type(field).as_str());
                out.append(" as leptos::SignalGetUntracked>::get_untracked(&");
                out.append(ident.as_str());
                out.append(");\n");
                out
            },
            Part::Check => {
                let mut out = String::from_str("            <");
                out.append(self.binding_type(field).as_str());
                out.append(" as leptos_controls::Field>::validate(&");
                out.append(ident.as_str());
                out.append("),\n");
                out
            },
        }
    }

    /// The text that the fields give to the place `part`, in declaration
    /// order.
    pub fn parts(&self, part: Part) -> (out: String)
        requires
            self.schema().well_formed(),
        ensures
            out@ == parts_text(part, self.schema().ident, self.schema().fields),
    {
        let fields = self.options.fields();
        let ghost record = self.schema().ident;
        let ghost piece = |field: FieldSpec| part_text(part, record, field);
        let mut out = String::new();
        let mut i: usize = 0;
        assert(specs(fields@).take(0) =~= Seq::<FieldSpec>::empty());
        assert(parts_text(part, record, specs(fields@).take(0)) =~= Seq::<char>::empty());
        while i < fields.len()
            invariant
                i <= fields.len(),
                specs(fields@) == self.schema().fields,
                self.schema().well_formed(),
                record == self.schema().ident,
                piece == |field: FieldSpec| part_text(part, record, field),
                out@ == parts_text(part, record, specs(fields@).take(i as int)),
            decreases fields.len() - i,
        {
            assert(fields[i as int]@ == self.schema().fields[i as int]);
            proof {
                specs(fields@).lemma_flat_map_take_append(piece, i as int);
            }
            out.append(self.part(part, &fields[i]).as_str());
            i = i + 1;
        }
        assert(specs(fields@).take(fields.len() as int) =~= specs(fields@));
        out
    }

    /// The pattern that takes a value of type `name` apart into its fields.
    fn pattern(&self, name: &String) -> (out: String)
        requires
            self.schema().well_formed(),
        ensures
            out@ == pattern_text(name@, self.schema()),
    {
        let mut out = name.clone();
        out.append(" { ");
        out.append(self.parts(Part::Name).as_str());
        out.append(".. }");
        out
    }

    /// The expression that puts a value of type `name` together from its
    /// fields.
    fn literal(&self, name: &String) -> (out: String)
        requires
            self.schema().well_formed(),
        ensures
            out@ == literal_text(name@, self.schema()),
    {
        let mut out = String::from_str("        ");
        out.append(name.as_str());
        out.append(" { ");
        out.append(self.parts(Part::Name).as_str());
        out.append("}\n");
        out
    }

    /// The definition of the controls type.
    pub fn type_tokens(&self) -> (out: String)
        requires
            self.schema().well_formed(),
        ensures
            out@ == type_text(self.schema()),
    {
        let mut out = String::from_str("#[derive(Clone, Copy)]\n");
        out.append(self.options.vis().tokens().as_str());
        out.append("struct ");
        out.append(self.options.control_struct_ident().as_str());
        out.append(" {\n");
        out.append(self.parts(Part::Member).as_str());
        out.append("}\n");
        out
    }

    /// The constructor of the controls type.
    pub fn new_tokens(&self) -> (out: String)
        requires
            self.schema().well_formed(),
        ensures
            out@ == new_text(self.schema()),
    {
        let mut out = String::from_str(
            "    #[doc = \"Construct a new instance from arguments\"]\n    pub fn new(value: ",
        );
        out.append(self.options.ident().as_str());
        out.append(") -> Self {\n        let ");
        out.append(self.pattern(self.options.ident()).as_str());
        out.append(" = value;\n");
        out.append(self.parts(Part::Bind).as_str());
        out.append(self.literal(&self.options.control_struct_ident()).as_str());
        out.append("    }\n");
        out
    }

    /// The reset of the controls type.
    pub fn set_default_tokens(&self) -> (out: String)
        requires
            self.schema().well_formed(),
        ensures
            out@ == set_default_text(self.schema()),
    {
        let mut out = String::from_str(
            "    #[doc = \"Set controls all values use default value\"]\n    pub fn set_default(&mut self) {\n",
        );
        out.append(self.parts(Part::Reset).as_str());
        out.append("    }\n");
        out
    }

    /// The snapshot of the controls type.
    pub fn snapshot_tokens(&self) -> (out: String)
        requires
            self.schema().well_formed(),
        ensures
            out@ == snapshot_text(self.schema()),
    {
        let mut out = String::from_str(
            "    #[doc = \"Get controls all values use untracked\"]\n    pub fn snapshot(&self) -> ",
        );
        out.append(self.options.ident().as_str());
        out.append(" {\n        let ");
        out.append(self.pattern(&self.options.control_struct_ident()).as_str());
        out.append(" = *self;\n");
        out.append(self.parts(Part::Read).as_str());
        out.append(self.literal(self.options.ident()).as_str());
        out.append("    }\n");
        out
    }

    /// What the validation of the controls type does.
    fn validate_body(&self) -> (out: String)
        requires
            self.schema().well_formed(),
        ensures
            out@ == validate_body_text(self.schema()),
    {
        match self.options.validator() {
            Some(path) => {
                let mut out = String::from_str("        ");
                out.append(path.as_str());
                out.append("(&self)\n");
                out
            },
            None => {
                if self.options.fields().len() == 0 {
                    String::from_str("        vec![]\n")
                } else {
                    let mut out = String::from_str(
                        "        #[allow(unused_variables)]\n        let ",
                    );
                    out.append(self.pattern(&self.options.control_struct_ident()).as_str());
                    out.append(" = *self;\n        vec![\n");
                    out.append(self.parts(Part::Check).as_str());
                    out.append("        ].into_iter().flatten().collect()\n");
                    out
                }
            },
        }
    }

    /// The validation of the controls type.
    pub fn validate_tokens(&self) -> (out: String)
        requires
            self.schema().well_formed(),
        ensures
            out@ == validate_text(self.schema()),
    {
        let mut out = String::from_str(
            "    #[doc = \"Validate controls all field and return error messages\"]\n    pub fn validate(&self) -> Vec<std::borrow::Cow<'static, str>> {\n",
        );
        out.append(self.validate_body().as_str());
        out.append("    }\n");
        out
    }

    /// The controls type and its operations.
    pub fn tokens(&self) -> (out: String)
        requires
            self.schema().well_formed(),
        ensures
            out@ == control_text(self.schema()),
    {
        let mut out = self.type_tokens();
        out.append("impl ");
        out.append(self.options.control_struct_ident().as_str());
        out.append(" {\n");
        out.append(self.new_tokens().as_str());
        out.append(self.set_default_tokens().as_str());
        out.append(self.snapshot_tokens().as_str());
        out.append(self.validate_tokens().as_str());
        out.append("}\n");
        out
    }
}

} // verus!
