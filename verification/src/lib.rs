//! Form controls derived from a record's field schema.
//!
//! A schema names a record and its fields and says, field by field, how the
//! field is labelled, whether and how its value is validated, and whether it
//! can be written. From a schema come the names and the text of the items
//! that stand for the record's controls, the metadata of each field, and the
//! controls themselves: one binding per field, with the operations on the
//! whole record.

pub mod control;
pub mod controls;
pub mod descriptor;
pub mod expand;
pub mod field;
pub mod field_struct;
pub mod meta;
pub mod naming;
pub mod options;
pub mod rw_signal;
pub mod signal;
pub mod text;

pub use control::ControlStruct;
pub use controls::{BindingKind, Controls, FieldBinding};
pub use descriptor::{Check, FieldMetadataDescriptor};
pub use expand::ExpandError;
pub use field::Field;
pub use field_struct::FieldStruct;
pub use meta::FieldMeta;
pub use options::{ConfigurationError, Data, FormFieldOptions, FormOptions, Visibility};
pub use rw_signal::RwSignalField;
pub use signal::SignalField;
