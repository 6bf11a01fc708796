//! What every field binding offers, whichever cell backs it.

use std::borrow::Cow;
use vstd::prelude::*;

verus! {

/// A field of a form: its metadata and its value.
pub trait Field {
    /// The label shown for the field.
    fn label(&self) -> &'static str;

    /// Whether a value must be given for the field.
    fn required(&self) -> bool;

    /// Validates the field's value as it is now: nothing where it is
    /// accepted, else a message.
    fn validate(&self) -> Option<Cow<'static, str>>;

    /// Sets the field to its default, where it can be written.
    fn set_default(&mut self);
}

} // verus!
