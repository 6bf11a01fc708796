//! The binding of a field that can be written.

use crate::field::Field;
use crate::meta::FieldMeta;
use std::borrow::Cow;
use std::marker::PhantomData;
use vstd::pervasive::cloned;
use vstd::prelude::*;

verus! {

/// A value is one that the type's `Default` gives.
pub open spec fn is_default<T: Default>(value: T) -> bool {
    call_ensures(T::default, (), value)
}

/// A field whose value can be read and written, with the metadata `M`.
///
/// The field owns its cell: what is written to it is what is read from it,
/// and there is no second field on the same cell. It is therefore not
/// `Clone`; a handle that can be duplicated and shares its cell belongs to
/// the reactive runtime that backs the field.
#[verifier::reject_recursive_types(M)]
#[verifier::reject_recursive_types(T)]
pub struct RwSignalField<M, T> where T: Clone + Default + 'static, M: FieldMeta<Type = T> {
    value: T,
    _mark: PhantomData<M>,
}

impl<M, T> RwSignalField<M, T> where T: Clone + Default + 'static, M: FieldMeta<Type = T> {
    /// The value that the field holds.
    pub closed spec fn value(&self) -> T {
        self.value
    }

    /// A field that holds `value`.
    pub fn new(value: T) -> (field: Self)
        ensures
            field.value() == value,
    {
        Self { value, _mark: PhantomData }
    }

    /// A copy of the value, read without tracking.
    pub fn get_untracked(&self) -> (value: T)
        ensures
            cloned(self.value(), value),
    {
        self.value.clone()
    }

    /// A copy of the value.
    pub fn get(&self) -> (value: T)
        ensures
            cloned(self.value(), value),
    {
        self.value.clone()
    }

    /// Writes `value` to the field.
    pub fn set(&mut self, value: T)
        ensures
            final(self).value() == value,
    {
        self.value = value;
    }

    /// Writes `value` to the field without telling who depends on it.
    pub fn set_untracked(&mut self, value: T)
        ensures
            final(self).value() == value,
    {
        self.value = value;
    }
}

impl<M, T> Default for RwSignalField<M, T> where
    T: Clone + Default + 'static,
    M: FieldMeta<Type = T>,
 {
    /// A field that holds a default value.
    fn default() -> (field: Self)
        ensures
            is_default(field.value()),
    {
        Self::new(T::default())
    }
}

impl<M, T> Field for RwSignalField<M, T> where T: Clone + Default + 'static, M: FieldMeta<Type = T> {
    /// The label that the metadata gives.
    fn label(&self) -> (label: &'static str)
        ensures
            call_ensures(M::label, (), label),
    {
        M::label()
    }

    /// Whether the metadata says that a value must be given.
    fn required(&self) -> (required: bool)
        ensures
            call_ensures(M::required, (), required),
    {
        M::required()
    }

    /// What the metadata's validation gives for the value that the field
    /// holds now.
    fn validate(&self) -> (message: Option<Cow<'static, str>>)
        ensures
            call_ensures(M::validate, (&self.value(),), message),
    {
        M::validate(&self.value)
    }

    /// Writes a default value to the field.
    fn set_default(&mut self)
        ensures
            is_default(final(self).value()),
    {
        self.value = T::default();
    }
}

} // verus!
