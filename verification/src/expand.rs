//! From a schema to the items that stand for the record's controls.

use crate::control::{ControlStruct, control_text};
use crate::field_struct::{FieldStruct, field_text};
use crate::options::{
    ConfigurationError, FieldSpec, FormFieldOptions, FormOptions, Schema, Shape, specs,
};
use darling::FromMeta;
use quote::ToTokens;
use vstd::prelude::*;
use vstd::string::*;

verus! {

/// The error of darling: `darling::Error`, carried through and never looked
/// into.
#[verifier::external_type_specification]
#[verifier::external_body]
pub struct ExError(darling::Error);

/// Reads a path from a text with darling's `FromMeta::from_string` for
/// `syn::Path`, which hands the whole text to `syn::parse_str`, and gives
/// the tokens of the path that was read as text, or darling's error. Nothing
/// is claimed of the outcome: the lexer that reads the text is not the same
/// in every process.
#[verifier::external_body]
fn path_from_string(text: &str) -> Result<String, darling::Error> {
    match syn::Path::from_string(text) {
        Ok(path) => Ok(path.to_token_stream().to_string()),
        Err(error) => Err(error),
    }
}

/// Why no items were written for a definition.
#[derive(Clone, Copy, Debug, PartialEq, Eq, Structural)]
pub enum ExpandError {
    /// The definition cannot be given form controls.
    Configuration(ConfigurationError),
    /// The validator of the field at this place in the declaration did not
    /// read as a path.
    UnknownValue(usize),
}

/// The field at `i` names a validator of which `paths` holds no path.
pub open spec fn unknown(fields: Seq<FieldSpec>, paths: Seq<Option<Seq<char>>>, i: int) -> bool {
    fields[i].validate is Some && paths[i] is None
}

/// `paths` holds the tokens of a path for exactly the fields with a
/// validator.
pub open spec fn read_for(schema: Schema, paths: Seq<Option<Seq<char>>>) -> bool {
    &&& paths.len() == schema.fields.len()
    &&& forall|i: int|
        0 <= i < paths.len() ==> ((#[trigger] paths[i]) is Some <==> schema.fields[i].validate
            is Some)
}

/// The items that stand for the controls of a record: the marker types of
/// its fields, then the controls type.
pub open spec fn expansion(schema: Schema, paths: Seq<Option<Seq<char>>>) -> Seq<char> {
    field_text(schema, paths) + control_text(schema)
}

/// The first field that names a validator of which `paths` holds no path,
/// if there is one.
pub fn first_unknown(fields: &Vec<FormFieldOptions>, paths: &Vec<Option<String>>) -> (at: Option<
    usize,
>)
    requires
        paths.len() == fields.len(),
    ensures
        match at {
            Some(k) => {
                &&& k < fields.len()
                &&& unknown(specs(fields@), paths.deep_view(), k as int)
                &&& forall|j: int| 0 <= j < k ==> !unknown(specs(fields@), paths.deep_view(), j)
            },
            None => forall|j: int| 0 <= j < fields.len() ==> !unknown(specs(fields@), paths.deep_view(), j),
        },
{
    let mut k: usize = 0;
    while k < fields.len()
        invariant
            k <= fields.len(),
            paths.len() == fields.len(),
            forall|j: int| 0 <= j < k ==> !unknown(specs(fields@), paths.deep_view(), j),
        decreases fields.len() - k,
    {
        assert(paths.deep_view()[k as int] == paths[k as int].deep_view());
        assert(specs(fields@)[k as int] == fields[k as int]@);
        if fields[k].validate().is_some() && paths[k].is_none() {
            return Some(k);
        }
        k = k + 1;
    }
    None
}

/// Writes the items that stand for the controls of the record that
/// `options` describes, where `paths` holds, field by field, the tokens of
/// the path that the validator was read as, or nothing where it did not read
/// as one. The first field whose validator did not read as a path is
/// reported; where there is none the items are written.
pub fn expand_with(options: &FormOptions, paths: &Vec<Option<String>>) -> (out: Result<
    String,
    ExpandError,
>)
    requires
        options@.well_formed(),
        paths.len() == options@.fields.len(),
    ensures
        match out {
            Ok(text) => {
                &&& forall|i: int|
                    0 <= i < paths.len() ==> !unknown(options@.fields, paths.deep_view(), i)
                &&& text@ == expansion(options@, paths.deep_view())
            },
            Err(ExpandError::UnknownValue(at)) => {
                &&& at < paths.len()
                &&& unknown(options@.fields, paths.deep_view(), at as int)
                &&& forall|i: int| 0 <= i < at ==> !unknown(options@.fields, paths.deep_view(), i)
            },
            Err(ExpandError::Configuration(_)) => false,
        },
{
    let fields = options.fields();
    match first_unknown(fields, paths) {
        Some(at) => Err(ExpandError::UnknownValue(at)),
        None => {
            let mut text = FieldStruct::new(options).tokens(paths);
            text.append(ControlStruct::new(options).tokens().as_str());
            Ok(text)
        },
    }
}

/// Reads the validator of each field as a path, in declaration order, and
/// writes the items from what was read.
///
/// Whether a validator reads as a path is for the outside reader to say, so
/// of an error only its place is stated, and of the items that they are
/// written from some paths that were read for exactly the fields with a
/// validator. A record whose fields have no validators always gets its
/// items.
fn try_expand(options: &FormOptions) -> (out: Result<String, ExpandError>)
    requires
        options@.well_formed(),
    ensures
        match out {
            Ok(text) => exists|paths: Seq<Option<Seq<char>>>|
                read_for(options@, paths) && text@ == expansion(options@, paths),
            Err(ExpandError::UnknownValue(at)) => at < options@.fields.len()
                && options@.fields[at as int].validate is Some,
            Err(ExpandError::Configuration(_)) => false,
        },
        (forall|i: int| 0 <= i < options@.fields.len() ==> (#[trigger] options@.fields[i]).validate
            is None) ==> out is Ok,
{
    let fields = options.fields();
    let mut paths: Vec<Option<String>> = Vec::new();
    let mut i: usize = 0;
    while i < fields.len()
        invariant
            i <= fields.len(),
            specs(fields@) == options@.fields,
            paths.len() == i,
            forall|j: int|
                0 <= j < i ==> ((#[trigger] paths[j]) is Some ==> options@.fields[j].validate
                    is Some),
        decreases fields.len() - i,
    {
        assert(fields[i as int]@ == options@.fields[i as int]);
        let read = match fields[i].validate() {
            Some(path) => match path_from_string(path.as_str()) {
                Ok(tokens) => Some(tokens),
                Err(_) => None,
            },
            None => None,
        };
        paths.push(read);
        i = i + 1;
    }
    let out = expand_with(options, &paths);
    proof {
        let read = paths.deep_view();
        assert forall|j: int| 0 <= j < read.len() implies read[j] == paths[j].deep_view() by {}
        if out is Ok {
            assert forall|j: int| 0 <= j < read.len() implies ((#[trigger] read[j]) is Some
                <==> options@.fields[j].validate is Some) by {
                assert(paths[j] is Some ==> options@.fields[j].validate is Some);
                assert(!unknown(options@.fields, read, j));
            }
            assert(read_for(options@, read));
        }
        if forall|i: int|
            0 <= i < options@.fields.len() ==> (#[trigger] options@.fields[i]).validate is None {
            match out {
                Err(ExpandError::UnknownValue(at)) => {
                    assert(unknown(options@.fields, read, at as int));
                },
                _ => {},
            }
        }
    }
    out
}

/// Writes the items that stand for the controls of the record that `input`
/// describes, or says why there are none.
///
/// The definition must be a struct whose fields all have identifiers; else
/// that is reported and nothing is written. Then the validator of each
/// field is read as a path, and a field whose validator did not read as one
/// is reported. Else the items are written, each validator by the tokens of
/// the path it was read as.
pub fn derive(input: FormOptions) -> (out: Result<String, ExpandError>)
    ensures
        match out {
            Ok(text) => {
                &&& input@.well_formed()
                &&& exists|paths: Seq<Option<Seq<char>>>|
                    read_for(input@, paths) && text@ == expansion(input@, paths)
            },
            Err(ExpandError::Configuration(ConfigurationError::UnexpectedType)) => input@.shape
                != Shape::Struct,
            Err(ExpandError::Configuration(ConfigurationError::EmptyIdent)) => {
                &&& input@.shape == Shape::Struct
                &&& exists|i: int|
                    0 <= i < input@.fields.len() && (#[trigger] input@.fields[i]).ident is None
            },
            Err(ExpandError::UnknownValue(at)) => {
                &&& input@.well_formed()
                &&& at < input@.fields.len()
                &&& input@.fields[at as int].validate is Some
            },
        },
        input@.well_formed() && (forall|i: int|
            0 <= i < input@.fields.len() ==> (#[trigger] input@.fields[i]).validate is None)
            ==> out is Ok,
{
    match input.validate() {
        Ok(options) => try_expand(&options),
        Err(error) => Err(ExpandError::Configuration(error)),
    }
}

} // verus!
