//! The metadata of a field: its label, whether it is required, and what it
//! reports when its value is rejected.

use crate::options::{FieldSpec, FormFieldOptions};
use vstd::prelude::*;
use vstd::string::*;

verus! {

/// A field's validator, as a mathematical value.
pub struct CheckSpec {
    /// The path of the predicate over the field's value.
    pub path: Seq<char>,
    /// What is reported when the predicate rejects the value.
    pub error: Seq<char>,
}

/// A field's metadata, as a mathematical value.
pub struct DescriptorSpec {
    /// The label shown for the field.
    pub label: Seq<char>,
    /// The field's validator, if it has one.
    pub check: Option<CheckSpec>,
}

impl DescriptorSpec {
    /// A field is required exactly when it has a validator.
    pub open spec fn required(self) -> bool {
        self.check is Some
    }

    /// What the field reports once its validator has been asked: nothing
    /// where it has none or the value passed, else the validator's error.
    pub open spec fn verdict(self, passed: bool) -> Option<Seq<char>> {
        match self.check {
            Some(check) => if passed {
                None
            } else {
                Some(check.error)
            },
            None => None,
        }
    }
}

impl FieldSpec {
    /// The metadata of the field: the label asked for, else its identifier;
    /// and with a validator the message asked for, else the label followed
    /// by a fixed phrase.
    pub open spec fn descriptor(self) -> DescriptorSpec
        recommends
            self.label is Some || self.ident is Some,
    {
        DescriptorSpec {
            label: self.label_text(),
            check: match self.validate {
                Some(path) => Some(CheckSpec { path, error: self.failure_text() }),
                None => None,
            },
        }
    }
}

/// A field's validator: a predicate and what to report when it rejects the
/// field's value.
pub struct Check {
    path: String,
    error: String,
}

impl View for Check {
    type V = CheckSpec;

    closed spec fn view(&self) -> CheckSpec {
        CheckSpec { path: self.path@, error: self.error@ }
    }
}

impl Check {
    /// The path of the predicate.
    pub fn path(&self) -> (path: &String)
        ensures
            path@ == self@.path,
    {
        &self.path
    }

    /// What is reported when the predicate rejects the value.
    pub fn error(&self) -> (error: &String)
        ensures
            error@ == self@.error,
    {
        &self.error
    }
}

/// A field's metadata, fixed when the schema is read.
pub struct FieldMetadataDescriptor {
    label: String,
    check: Option<Check>,
}

impl View for FieldMetadataDescriptor {
    type V = DescriptorSpec;

    closed spec fn view(&self) -> DescriptorSpec {
        DescriptorSpec {
            label: self.label@,
            check: match self.check {
                Some(check) => Some(check@),
                None => None,
            },
        }
    }
}

impl FieldMetadataDescriptor {
    /// The label shown for the field.
    pub fn label(&self) -> (label: &String)
        ensures
            label@ == self@.label,
    {
        &self.label
    }

    /// Whether a value must be given for the field.
    pub fn required(&self) -> (required: bool)
        ensures
            required == self@.required(),
    {
        self.check.is_some()
    }

    /// The path of the field's predicate as it is held, if the field has a
    /// validator.
    pub closed spec fn predicate(&self) -> Option<String> {
        match self.check {
            Some(check) => Some(check.path),
            None => None,
        }
    }

    /// The path that is held is the path of the field's validator.
    pub proof fn lemma_predicate(&self)
        ensures
            self.predicate().deep_view() == match self@.check {
                Some(check) => Some(check.path),
                None => None,
            },
    {
    }

    /// The path of the field's predicate, if the field has a validator.
    pub fn predicate_path(&self) -> (path: Option<&String>)
        ensures
            match path {
                Some(path) => self.predicate() == Some(*path),
                None => self.predicate() is None,
            },
    {
        match &self.check {
            Some(check) => Some(&check.path),
            None => None,
        }
    }

    /// The field's validator, if it has one.
    pub fn check(&self) -> (check: Option<&Check>)
        ensures
            match check {
                Some(check) => self@.check == Some(check@),
                None => self@.check is None,
            },
    {
        self.check.as_ref()
    }

    /// What the field reports once its validator, if it has one, has given
    /// `passed` for the field's value.
    pub fn verdict(&self, passed: bool) -> (error: Option<String>)
        ensures
            error.deep_view() == self@.verdict(passed),
    {
        match &self.check {
            Some(check) => if passed {
                None
            } else {
                Some(check.error.clone())
            },
            None => None,
        }
    }
}

impl FormFieldOptions {
    /// What the field reports when its validator rejects the value: the
    /// message asked for, else the label followed by a fixed phrase.
    pub fn failure(&self) -> (error: String)
        requires
            self@.label is Some || self@.ident is Some,
        ensures
            error@ == self@.failure_text(),
    {
        match self.message() {
            Some(message) => message.clone(),
            None => {
                let mut error = self.label();
                error.append(" validation failed!");
                error
            },
        }
    }

    /// The metadata of the field.
    pub fn descriptor(&self) -> (descriptor: FieldMetadataDescriptor)
        requires
            self@.label is Some || self@.ident is Some,
        ensures
            descriptor@ == self@.descriptor(),
    {
        let check = match self.validate() {
            Some(path) => Some(Check { path: path.clone(), error: self.failure() }),
            None => None,
        };
        FieldMetadataDescriptor { label: self.label(), check }
    }
}

} // verus!
