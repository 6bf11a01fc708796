//! The marker types of a record's fields: one type per field, which carries
//! the field's metadata.

use crate::descriptor::{CheckSpec, DescriptorSpec, FieldMetadataDescriptor};
use crate::naming::struct_ident;
use crate::options::{FieldSpec, FormFieldOptions, FormOptions, Schema, specs};
use crate::text::{literal, quote};
use vstd::prelude::*;
use vstd::string::*;

verus! {

/// The metadata of the fields of a schema, in declaration order.
pub open spec fn descriptors(schema: Schema) -> Seq<DescriptorSpec> {
    schema.fields.map_values(|field: FieldSpec| field.descriptor())
}

/// The validator of a field as it is written: the tokens of its path, as
/// they were read, and what the field reports when the predicate rejects
/// the value. A field without a validator has none.
pub open spec fn written_check(field: FieldSpec, path: Option<Seq<char>>) -> Option<CheckSpec> {
    match field.validate {
        Some(_) => match path {
            Some(tokens) => Some(CheckSpec { path: tokens, error: field.failure_text() }),
            None => None,
        },
        None => None,
    }
}

/// What the function that validates a field's value does. Without a
/// validator it reports nothing. With one it asks the predicate, and reports
/// nothing where the value passes and the validator's error where it does
/// not.
pub open spec fn validate_body_text(check: Option<CheckSpec>) -> Seq<char> {
    match check {
        Some(check) => "        if "@ + check.path
            + "(v) {\n            None\n        } else {\n            Some(std::borrow::Cow::from("@
            + literal(check.error) + "))\n        }\n"@,
        None => "        None\n"@,
    }
}

/// What a field gives to one place of the marker types.
#[derive(Clone, Copy, Debug, PartialEq, Eq, Structural)]
pub enum Item {
    /// The definition of its marker type.
    Marker,
    /// The metadata that its marker type carries.
    Meta,
}

/// The text that `field` gives to the place `item`, where `path` holds the
/// tokens of the path of its validator.
pub open spec fn item_text(
    item: Item,
    schema: Schema,
    field: FieldSpec,
    path: Option<Seq<char>>,
) -> Seq<char> {
    let name = struct_ident(schema.ident, field.ident->0);
    match item {
        Item::Marker => "#[doc(hidden)]\n#[derive(Clone, Copy)]\n"@ + schema.vis.text() + "struct "@
            + name + ";\n"@,
        Item::Meta => "impl leptos_controls::FieldMeta for "@ + name + " {\n    type Type = "@
            + field.ty + ";\n    fn label() -> &'static str {\n        "@ + literal(
            field.label_text(),
        ) + "\n    }\n    fn required() -> bool {\n        "@ + (if field.required() {
            "true"@
        } else {
            "false"@
        })
            + "\n    }\n    #[allow(unused_variables)]\n    fn validate(v: &Self::Type) -> Option<std::borrow::Cow<'static, str>> {\n"@
            + validate_body_text(written_check(field, path)) + "    }\n}\n"@,
    }
}

/// The text that the fields give to the place `item`, in declaration order,
/// where `paths` holds, field by field, the tokens of the validator's path.
pub open spec fn items_text(item: Item, schema: Schema, paths: Seq<Option<Seq<char>>>) -> Seq<
    char,
> {
    Seq::new(schema.fields.len(), |i: int| i).flat_map(
        |i: int| item_text(item, schema, schema.fields[i], paths[i]),
    )
}

/// The marker types of a record's fields, then the metadata of each.
pub open spec fn field_text(schema: Schema, paths: Seq<Option<Seq<char>>>) -> Seq<char> {
    items_text(Item::Marker, schema, paths) + items_text(Item::Meta, schema, paths)
}

/// The marker types of a record's fields, to be written out.
pub struct FieldStruct<'a> {
    options: &'a FormOptions,
}

impl<'a> FieldStruct<'a> {
    /// The schema that the marker types are written for.
    pub closed spec fn schema(&self) -> Schema {
        self.options@
    }

    /// The marker types of the fields of the record that `options`
    /// describes.
    pub fn new(options: &'a FormOptions) -> (out: Self)
        ensures
            out.schema() == options@,
    {
        Self { options }
    }

    /// The metadata of the fields, in declaration order.
    pub fn descriptors(&self) -> (out: Vec<FieldMetadataDescriptor>)
        requires
            self.schema().well_formed(),
        ensures
            out@.map_values(|d: FieldMetadataDescriptor| d@) == descriptors(self.schema()),
    {
        let fields = self.options.fields();
        let mut out: Vec<FieldMetadataDescriptor> = Vec::new();
        let mut i: usize = 0;
        while i < fields.len()
            invariant
                i <= fields.len(),
                specs(fields@) == self.schema().fields,
                self.schema().well_formed(),
                out.len() == i,
                forall|j: int| 0 <= j < i ==> (#[trigger] out[j])@ == self.schema().fields[j].descriptor(),
            decreases fields.len() - i,
        {
            assert(fields[i as int]@ == self.schema().fields[i as int]);
            out.push(fields[i].descriptor());
            i = i + 1;
        }
        assert(out@.map_values(|d: FieldMetadataDescriptor| d@) =~= descriptors(self.schema()));
        out
    }

    /// What the function that validates the value of `field` does, where
    /// `path` holds the tokens of the path of its validator.
    fn validate_body(field: &FormFieldOptions, path: Option<&String>) -> (out: String)
        requires
            field@.ident is Some,
        ensures
            out@ == validate_body_text(written_check(field@, path.deep_view())),
    {
        match (field.validate(), path) {
            (Some(_), Some(tokens)) => {
                let mut out = String::from_str("        if ");
                out.append(tokens.as_str());
                out.append(
                    "(v) {\n            None\n        } else {\n            Some(std::borrow::Cow::from(",
                );
                out.append(quote(field.failure().as_str()).as_str());
                out.append("))\n        }\n");
                out
            },
            _ => String::from_str("        None\n"),
        }
    }

    /// The text that `field` gives to the place `item`, where `path` holds
    /// the tokens of the path of its validator.
    pub fn item(&self, item: Item, field: &FormFieldOptions, path: Option<&String>) -> (out:
        String)
        requires
            field@.ident is Some,
        ensures
            out@ == item_text(item, self.schema(), field@, path.deep_view()),
    {
        let name = field.struct_ident(self.options.ident());
        match item {
            Item::Marker => {
                let mut out = String::from_str("#[doc(hidden)]\n#[derive(Clone, Copy)]\n");
                out.append(self.options.vis().tokens().as_str());
                out.append("struct ");
                out.append(name.as_str());
                out.append(";\n");
                out
            },
            Item::Meta => {
                let mut out = String::from_str("impl leptos_controls::FieldMeta for ");
                out.append(name.as_str());
                out.append(" {\n    type Type = ");
                out.append(field.ty().as_str());
                out.append(";\n    fn label() -> &'static str {\n        ");
                out.append(quote(field.label().as_str()).as_str());
                out.append("\n    }\n    fn required() -> bool {\n        ");
                out.append(
                    if field.validate().is_some() {
                        "true"
                    } else {
                        "false"
                    },
                );
                out.append(
                    "\n    }\n    #[allow(unused_variables)]\n    fn validate(v: &Self::Type) -> Option<std::borrow::Cow<'static, str>> {\n",
                );
                out.append(Self::validate_body(field, path).as_str());
                out.append("    }\n}\n");
                out
            },
        }
    }

    /// The text that the fields give to the place `item`, in declaration
    /// order, where `paths` holds, field by field, the tokens of the
    /// validator's path.
    pub fn items(&self, item: Item, paths: &Vec<Option<String>>) -> (out: String)
        requires
            self.schema().well_formed(),
            paths.len() == self.schema().fields.len(),
        ensures
            out@ == items_text(item, self.schema(), paths.deep_view()),
    {
        let fields = self.options.fields();
        let ghost schema = self.schema();
        let ghost read = paths.deep_view();
        let ghost places = Seq::new(schema.fields.len(), |i: int| i);
        let ghost piece = |i: int| item_text(item, schema, schema.fields[i], read[i]);
        let mut out = String::new();
        let mut i: usize = 0;
        assert(places.take(0) =~= Seq::<int>::empty());
        assert(places.take(0).flat_map(piece) =~= Seq::<char>::empty());
        while i < fields.len()
            invariant
                i <= fields.len(),
                specs(fields@) == schema.fields,
                schema.well_formed(),
                schema == self.schema(),
                read == paths.deep_view(),
                paths.len() == fields.len(),
                places == Seq::new(schema.fields.len(), |i: int| i),
                piece == |i: int| item_text(item, schema, schema.fields[i], read[i]),
                out@ == places.take(i as int).flat_map(piece),
            decreases fields.len() - i,
        {
            assert(fields[i as int]@ == schema.fields[i as int]);
            proof {
                places.lemma_flat_map_take_append(piece, i as int);
            }
            let path = paths[i].as_ref();
            assert(path.deep_view() == read[i as int]);
            out.append(self.item(item, &fields[i], path).as_str());
            i = i + 1;
        }
        assert(places.take(fields.len() as int) =~= places);
        out
    }

    /// The marker types of the fields, then the metadata of each, where
    /// `paths` holds, field by field, the tokens of the validator's path.
    pub fn tokens(&self, paths: &Vec<Option<String>>) -> (out: String)
        requires
            self.schema().well_formed(),
            paths.len() == self.schema().fields.len(),
        ensures
            out@ == field_text(self.schema(), paths.deep_view()),
    {
        let mut out = self.items(Item::Marker, paths);
        out.append(self.items(Item::Meta, paths).as_str());
        out
    }
}

} // verus!
