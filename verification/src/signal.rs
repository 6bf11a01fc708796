//! The binding of a field that is only read.

use crate::field::Field;
use crate::meta::FieldMeta;
use std::borrow::Cow;
use std::marker::PhantomData;
use vstd::pervasive::cloned;
use vstd::prelude::*;

verus! {

/// A field whose value is fixed when it is made, with the metadata `M`.
#[verifier::reject_recursive_types(M)]
#[verifier::reject_recursive_types(T)]
pub struct SignalField<M, T> where M: FieldMeta<Type = T>, T: Clone + 'static {
    value: T,
    _mark: PhantomData<M>,
}

impl<M, T> SignalField<M, T> where M: FieldMeta<Type = T>, T: Clone + 'static {
    /// The value that the field holds.
    pub closed spec fn value(&self) -> T {
        self.value
    }

    /// A field that holds `value` for good.
    pub fn new(value: T) -> (field: Self)
        ensures
            field.value() == value,
    {
        Self { value, _mark: PhantomData }
    }

    /// A copy of the value, read without tracking.
    pub fn get_untracked(&self) -> (value: T)
        ensures
            cloned(self.value(), value),
    {
        self.value.clone()
    }

    /// A copy of the value.
    pub fn get(&self) -> (value: T)
        ensures
            cloned(self.value(), value),
    {
        self.value.clone()
    }
}

impl<M, T> Clone for SignalField<M, T> where M: FieldMeta<Type = T>, T: Clone + 'static {
    /// A field that holds a copy of the value.
    fn clone(&self) -> (field: Self)
        ensures
            cloned(self.value(), field.value()),
    {
        Self::new(self.value.clone())
    }
}

impl<M, T> Field for SignalField<M, T> where M: FieldMeta<Type = T>, T: Clone + 'static {
    /// The label that the metadata gives.
    fn label(&self) -> (label: &'static str)
        ensures
            call_ensures(M::label, (), label),
    {
        M::label()
    }

    /// Whether the metadata says that a value must be given.
    fn required(&self) -> (required: bool)
        ensures
            call_ensures(M::required, (), required),
    {
        M::required()
    }

    /// What the metadata's validation gives for the value that the field
    /// holds now.
    fn validate(&self) -> (message: Option<Cow<'static, str>>)
        ensures
            call_ensures(M::validate, (&self.value(),), message),
    {
        M::validate(&self.value)
    }

    /// Does nothing: the field keeps the value it was made with.
    fn set_default(&mut self)
        ensures
            *final(self) == *old(self),
    {
    }
}

} // verus!
