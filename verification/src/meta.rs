//! The metadata that a field's marker type carries.

use std::borrow::Cow;
use vstd::prelude::*;

verus! {

/// The metadata of one field: the type of its value, its label, whether it
/// is required, and how its value is validated.
///
/// The marker types of a record's fields implement it.
pub trait FieldMeta {
    /// The type of the field's value.
    type Type;

    /// The label shown for the field.
    fn label() -> &'static str;

    /// Whether a value must be given for the field.
    fn required() -> bool;

    /// Validates a value: nothing where it is accepted, else a message.
    fn validate(value: &Self::Type) -> Option<Cow<'static, str>>;
}

} // verus!
