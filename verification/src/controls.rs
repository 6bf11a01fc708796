//! The controls of one record: a binding per field, in declaration order,
//! and the operations on the whole record.

use crate::descriptor::{DescriptorSpec, FieldMetadataDescriptor};
use crate::options::{FieldSpec, FormFieldOptions, FormOptions, Schema, specs};
use crate::rw_signal::is_default;
use vstd::pervasive::cloned;
use vstd::prelude::*;

verus! {

/// Which cell backs a field.
#[derive(Clone, Copy, Debug, PartialEq, Eq, Structural)]
pub enum BindingKind {
    /// A cell that can be read and written.
    Mutable,
    /// A cell whose value is fixed when it is made.
    ReadOnly,
}

impl FieldSpec {
    /// The kind of cell that backs the field: read-only where the field
    /// says so, else mutable.
    pub open spec fn binding_kind(self) -> BindingKind {
        if self.readonly {
            BindingKind::ReadOnly
        } else {
            BindingKind::Mutable
        }
    }
}

impl FormFieldOptions {
    /// The kind of cell that backs the field.
    pub fn binding_kind(&self) -> (kind: BindingKind)
        ensures
            kind == self@.binding_kind(),
    {
        if self.readonly() {
            BindingKind::ReadOnly
        } else {
            BindingKind::Mutable
        }
    }
}

/// A field's binding, as a mathematical value.
pub struct BindingSpec<T> {
    /// The value in the cell.
    pub value: T,
    /// The kind of the cell.
    pub kind: BindingKind,
    /// The field's metadata.
    pub descriptor: DescriptorSpec,
}

/// The controls of a record, as a mathematical value.
pub struct ControlsSpec<T> {
    /// The bindings of the fields, in declaration order.
    pub bindings: Seq<BindingSpec<T>>,
    /// The path of the function that validates the whole record, if any.
    pub validator: Option<Seq<char>>,
}

/// The binding of `field` that starts with `value`.
pub open spec fn bind<T>(field: FieldSpec, value: T) -> BindingSpec<T> {
    BindingSpec { value, kind: field.binding_kind(), descriptor: field.descriptor() }
}

/// The controls of the record `record` of the schema `schema`.
pub open spec fn construct<T>(schema: Schema, record: Seq<T>) -> ControlsSpec<T>
    recommends
        record.len() == schema.fields.len(),
{
    ControlsSpec {
        bindings: Seq::new(schema.fields.len(), |i: int| bind(schema.fields[i], record[i])),
        validator: schema.validator,
    }
}

/// The messages that are there, in their order.
pub open spec fn present(verdicts: Seq<Option<Seq<char>>>) -> Seq<Seq<char>> {
    verdicts.filter_map(|verdict: Option<Seq<char>>| verdict)
}

impl<T> ControlsSpec<T> {
    /// The record that the controls hold now.
    pub open spec fn snapshot(self) -> Seq<T> {
        self.bindings.map_values(|binding: BindingSpec<T>| binding.value)
    }

    /// What each field reports once the validators have given `passed`,
    /// field by field.
    pub open spec fn verdicts(self, passed: Seq<bool>) -> Seq<Option<Seq<char>>> {
        Seq::new(self.bindings.len(), |i: int| self.bindings[i].descriptor.verdict(passed[i]))
    }

    /// The messages of the fields whose validators rejected their values,
    /// in declaration order.
    pub open spec fn errors(self, passed: Seq<bool>) -> Seq<Seq<char>> {
        present(self.verdicts(passed))
    }

    /// The controls with the value `value` written to the field at `at`,
    /// where that field can be written; else the controls as they are.
    pub open spec fn set(self, at: int, value: T) -> Self {
        if 0 <= at < self.bindings.len() && self.bindings[at].kind == BindingKind::Mutable {
            ControlsSpec {
                bindings: self.bindings.update(
                    at,
                    BindingSpec { value, ..self.bindings[at] },
                ),
                ..self
            }
        } else {
            self
        }
    }
}

impl<T: Default> ControlsSpec<T> {
    /// `after` is what a reset makes of the controls: the same fields, each
    /// mutable one with a default value, each read-only one as it was.
    pub open spec fn reset_to(self, after: Self) -> bool {
        &&& after.validator == self.validator
        &&& after.bindings.len() == self.bindings.len()
        &&& forall|i: int|
            0 <= i < self.bindings.len() ==> {
                let before = #[trigger] self.bindings[i];
                let now = after.bindings[i];
                &&& now.kind == before.kind
                &&& now.descriptor == before.descriptor
                &&& before.kind == BindingKind::ReadOnly ==> now.value == before.value
                &&& before.kind == BindingKind::Mutable ==> is_default(now.value)
            }
    }
}

impl Schema {
    /// The places of the fields whose validators rejected their values, in
    /// declaration order, where `passed` holds what each validator gave.
    pub open spec fn rejected(self, passed: Seq<bool>) -> Seq<int> {
        Seq::new(self.fields.len(), |i: int| i).filter(
            |i: int| self.fields[i].validate is Some && !passed[i],
        )
    }

    /// The messages of the fields whose validators rejected their values,
    /// in declaration order: the message asked for, else the label followed
    /// by a fixed phrase.
    pub open spec fn failures(self, passed: Seq<bool>) -> Seq<Seq<char>> {
        self.rejected(passed).map_values(|i: int| self.fields[i].failure_text())
    }
}

/// Controls that were just made hold the record they were made from.
pub proof fn lemma_snapshot_of_construct<T>(schema: Schema, record: Seq<T>)
    requires
        record.len() == schema.fields.len(),
    ensures
        construct(schema, record).snapshot() == record,
{
    assert(construct(schema, record).snapshot() =~= record);
}

/// Writing to a field that can be written changes that field's value in the
/// record and nothing else; writing to any other field changes nothing.
pub proof fn lemma_snapshot_of_set<T>(controls: ControlsSpec<T>, at: int, value: T)
    ensures
        controls.set(at, value).snapshot() == if 0 <= at < controls.bindings.len()
            && controls.bindings[at].kind == BindingKind::Mutable {
            controls.snapshot().update(at, value)
        } else {
            controls.snapshot()
        },
        controls.set(at, value).validator == controls.validator,
        forall|passed: Seq<bool>| #[trigger]
            controls.set(at, value).verdicts(passed) == controls.verdicts(passed),
{
    assert(controls.set(at, value).snapshot() =~= if 0 <= at < controls.bindings.len()
        && controls.bindings[at].kind == BindingKind::Mutable {
        controls.snapshot().update(at, value)
    } else {
        controls.snapshot()
    });
    assert forall|passed: Seq<bool>| #[trigger]
        controls.set(at, value).verdicts(passed) == controls.verdicts(passed) by {
        assert(controls.set(at, value).verdicts(passed) =~= controls.verdicts(passed));
    }
}

/// The messages of the first `k` fields of controls that were just made.
proof fn lemma_errors_prefix<T>(schema: Schema, record: Seq<T>, passed: Seq<bool>, k: int)
    requires
        record.len() == schema.fields.len(),
        0 <= k <= schema.fields.len(),
    ensures
        construct(schema, record).verdicts(passed).take(k).filter_map(
            |verdict: Option<Seq<char>>| verdict,
        ) == Seq::new(schema.fields.len(), |i: int| i).take(k).filter(
            |i: int| schema.fields[i].validate is Some && !passed[i],
        ).map_values(|i: int| schema.fields[i].failure_text()),
    decreases k,
{
    let verdicts = construct(schema, record).verdicts(passed);
    let keep = |verdict: Option<Seq<char>>| verdict;
    let places = Seq::new(schema.fields.len(), |i: int| i);
    let rejects = |i: int| schema.fields[i].validate is Some && !passed[i];
    let message = |i: int| schema.fields[i].failure_text();
    if k == 0 {
        assert(verdicts.take(0) =~= Seq::<Option<Seq<char>>>::empty());
        assert(places.take(0) =~= Seq::<int>::empty());
        assert(verdicts.take(0).filter_map(keep) =~= Seq::<Seq<char>>::empty());
        assert(places.take(0).filter(rejects) =~= Seq::<int>::empty());
        assert(places.take(0).filter(rejects).map_values(message) =~= Seq::<Seq<char>>::empty());
    } else {
        let j = k - 1;
        lemma_errors_prefix(schema, record, passed, j);
        verdicts.lemma_filter_map_take_succ(keep, j);
        places.lemma_take_succ_push(j);
        places.take(j).lemma_filter_push(j, rejects);
        let kept = places.take(j).filter(rejects);
        if rejects(j) {
            kept.lemma_push_map_commute(message, j);
            assert(verdicts[j] == Some(message(j)));
            assert(kept.map_values(message) + seq![message(j)] =~= kept.map_values(message).push(
                message(j),
            ));
        } else {
            assert(verdicts[j] is None);
            assert(kept.map_values(message) + Seq::<Seq<char>>::empty() =~= kept.map_values(
                message,
            ));
        }
    }
}

/// Validating controls that were just made gives exactly the messages of
/// the fields whose values their validators reject, in declaration order;
/// a field without a validator gives none.
pub proof fn lemma_errors_of_construct<T>(schema: Schema, record: Seq<T>, passed: Seq<bool>)
    requires
        record.len() == schema.fields.len(),
    ensures
        construct(schema, record).errors(passed) == schema.failures(passed),
        forall|i: int|
            0 <= i < schema.fields.len() ==> (#[trigger] construct(schema, record).verdicts(
                passed,
            )[i] is Some <==> schema.fields[i].validate is Some && !passed[i]),
{
    let n = schema.fields.len() as int;
    lemma_errors_prefix(schema, record, passed, n);
    let verdicts = construct(schema, record).verdicts(passed);
    let places = Seq::new(schema.fields.len(), |i: int| i);
    assert(verdicts.take(n) =~= verdicts);
    assert(places.take(n) =~= places);
}

/// After a reset of controls that were just made, every mutable field holds
/// a default value and every read-only field the value it was made with.
pub proof fn lemma_reset_of_construct<T: Default>(
    schema: Schema,
    record: Seq<T>,
    after: ControlsSpec<T>,
)
    requires
        record.len() == schema.fields.len(),
        construct(schema, record).reset_to(after),
    ensures
        after.snapshot().len() == record.len(),
        forall|i: int|
            0 <= i < record.len() ==> if (#[trigger] schema.fields[i]).readonly {
                after.snapshot()[i] == record[i]
            } else {
                is_default(after.snapshot()[i])
            },
{
    assert forall|i: int| 0 <= i < record.len() implies if (#[trigger] schema.fields[i]).readonly {
        after.snapshot()[i] == record[i]
    } else {
        is_default(after.snapshot()[i])
    } by {
        let before = construct(schema, record).bindings[i];
        assert(before.value == record[i]);
    }
}

/// A reset leaves the record as it is where every field is read-only.
pub proof fn lemma_reset_of_readonly<T: Default>(before: ControlsSpec<T>, after: ControlsSpec<T>)
    requires
        before.reset_to(after),
        forall|i: int|
            0 <= i < before.bindings.len() ==> (#[trigger] before.bindings[i]).kind
                == BindingKind::ReadOnly,
    ensures
        after.snapshot() == before.snapshot(),
{
    assert(after.snapshot() =~= before.snapshot());
}

/// The binding of one field: a cell with the field's value and the field's
/// metadata.
pub struct FieldBinding<T> {
    value: T,
    kind: BindingKind,
    descriptor: FieldMetadataDescriptor,
}

impl<T> View for FieldBinding<T> {
    type V = BindingSpec<T>;

    closed spec fn view(&self) -> BindingSpec<T> {
        BindingSpec { value: self.value, kind: self.kind, descriptor: self.descriptor@ }
    }
}

impl<T> FieldBinding<T> {
    /// The binding of `field` that starts with `value`.
    pub fn new(field: &FormFieldOptions, value: T) -> (binding: Self)
        requires
            field@.label is Some || field@.ident is Some,
        ensures
            binding@ == bind(field@, value),
    {
        FieldBinding { value, kind: field.binding_kind(), descriptor: field.descriptor() }
    }

    /// The kind of cell that backs the field.
    pub fn kind(&self) -> (kind: BindingKind)
        ensures
            kind == self@.kind,
    {
        self.kind
    }

    /// The label shown for the field.
    pub fn label(&self) -> (label: &String)
        ensures
            label@ == self@.descriptor.label,
    {
        self.descriptor.label()
    }

    /// Whether a value must be given for the field.
    pub fn required(&self) -> (required: bool)
        ensures
            required == self@.descriptor.required(),
    {
        self.descriptor.required()
    }

    /// The field's metadata.
    pub fn descriptor(&self) -> (descriptor: &FieldMetadataDescriptor)
        ensures
            descriptor@ == self@.descriptor,
    {
        &self.descriptor
    }

    /// The value in the cell, read without tracking.
    pub fn value(&self) -> (value: &T)
        ensures
            *value == self@.value,
    {
        &self.value
    }

    /// Writes `value` to the cell where it can be written, and says whether
    /// it was.
    pub fn set(&mut self, value: T) -> (written: bool)
        ensures
            written == (old(self)@.kind == BindingKind::Mutable),
            written ==> final(self)@ == (BindingSpec { value, ..old(self)@ }),
            !written ==> final(self)@ == old(self)@,
    {
        match self.kind {
            BindingKind::Mutable => {
                self.value = value;
                true
            },
            BindingKind::ReadOnly => false,
        }
    }
}

impl<T: Default> FieldBinding<T> {
    /// Sets the field to its default where it can be written; a read-only
    /// field stays as it is.
    pub fn set_default(&mut self)
        ensures
            final(self)@.kind == old(self)@.kind,
            final(self)@.descriptor == old(self)@.descriptor,
            old(self)@.kind == BindingKind::ReadOnly ==> final(self)@ == old(self)@,
            old(self)@.kind == BindingKind::Mutable ==> is_default(final(self)@.value),
    {
        match self.kind {
            BindingKind::Mutable => {
                self.value = T::default();
            },
            BindingKind::ReadOnly => {},
        }
    }
}

/// The bindings of a sequence of fields, as mathematical values.
pub open spec fn binding_specs<T>(bindings: Seq<FieldBinding<T>>) -> Seq<BindingSpec<T>> {
    bindings.map_values(|binding: FieldBinding<T>| binding@)
}

/// The controls of one record: the bindings of its fields in declaration
/// order.
///
/// The controls own the cells. A field is named by its place among the
/// fields; a place can be copied freely, and what is written at a place is
/// what every holder of that place reads there afterwards.
pub struct Controls<T> {
    bindings: Vec<FieldBinding<T>>,
    validator: Option<String>,
}

impl<T> View for Controls<T> {
    type V = ControlsSpec<T>;

    closed spec fn view(&self) -> ControlsSpec<T> {
        ControlsSpec {
            bindings: binding_specs(self.bindings@),
            validator: self.validator.deep_view(),
        }
    }
}

impl<T> Controls<T> {
    /// The controls of the record `record` of the schema `options`: each
    /// field's value is bound to a cell of the kind that the field asks for.
    pub fn new(options: &FormOptions, record: Vec<T>) -> (controls: Self)
        requires
            options@.well_formed(),
            record.len() == options@.fields.len(),
        ensures
            controls@ == construct(options@, record@),
    {
        let fields = options.fields();
        let ghost start = record@;
        let mut record = record;
        let mut bindings: Vec<FieldBinding<T>> = Vec::new();
        let mut k: usize = fields.len();
        while k > 0
            invariant
                k <= fields.len(),
                specs(fields@) == options@.fields,
                options@.well_formed(),
                start.len() == fields.len(),
                record@ == start.take(k as int),
                bindings.len() == fields.len() - k,
                forall|j: int|
                    0 <= j < bindings.len() ==> (#[trigger] bindings[j])@ == bind(
                        options@.fields[k + j],
                        start[k + j],
                    ),
            decreases k,
        {
            k = k - 1;
            assert(fields[k as int]@ == options@.fields[k as int]);
            let value = record.pop().unwrap();
            let ghost before = bindings@;
            bindings.insert(0, FieldBinding::new(&fields[k], value));
            assert forall|j: int| 0 <= j < bindings.len() implies (#[trigger] bindings[j])@
                == bind(options@.fields[k + j], start[k + j]) by {
                if j > 0 {
                    assert(bindings[j] == before[j - 1]);
                }
            }
            assert(record@ =~= start.take(k as int));
        }
        let validator = match options.validator() {
            Some(path) => Some(path.clone()),
            None => None,
        };
        let controls = Controls { bindings, validator };
        assert(controls@.bindings =~= construct(options@, start).bindings);
        controls
    }

    /// How many fields the record has.
    pub fn len(&self) -> (len: usize)
        ensures
            len == self@.bindings.len(),
    {
        self.bindings.len()
    }

    /// The binding of the field at `at`.
    pub fn field(&self, at: usize) -> (binding: &FieldBinding<T>)
        requires
            at < self@.bindings.len(),
        ensures
            binding@ == self@.bindings[at as int],
    {
        &self.bindings[at]
    }

    /// Writes `value` to the field at `at` where there is such a field and
    /// it can be written, and says whether it was.
    pub fn set(&mut self, at: usize, value: T) -> (written: bool)
        ensures
            written == (at < old(self)@.bindings.len() && old(self)@.bindings[at as int].kind
                == BindingKind::Mutable),
            final(self)@ == old(self)@.set(at as int, value),
    {
        if at >= self.bindings.len() {
            return false;
        }
        let ghost before = self.bindings@;
        let mut binding = self.bindings.remove(at);
        let written = binding.set(value);
        self.bindings.insert(at, binding);
        assert(final(self)@.bindings =~= old(self)@.set(at as int, value).bindings) by {
            assert forall|j: int| 0 <= j < before.len() implies binding_specs(self.bindings@)[j]
                == old(self)@.set(at as int, value).bindings[j] by {
                if j < at {
                    assert(self.bindings@[j] == before[j]);
                } else if j > at {
                    assert(self.bindings@[j] == before[j]);
                }
            }
        }
        written
    }

    /// The messages of the fields whose validators rejected their values,
    /// in declaration order, where `passed` holds what each field's
    /// validator gave.
    pub fn collect(&self, passed: &Vec<bool>) -> (errors: Vec<String>)
        requires
            passed.len() == self@.bindings.len(),
        ensures
            errors.deep_view() == self@.errors(passed@),
    {
        let ghost verdicts = self@.verdicts(passed@);
        let ghost keep = |verdict: Option<Seq<char>>| verdict;
        let mut errors: Vec<String> = Vec::new();
        let mut i: usize = 0;
        assert(verdicts.take(0).filter_map(keep) =~= Seq::<Seq<char>>::empty());
        assert(errors.deep_view() =~= Seq::<Seq<char>>::empty());
        while i < self.bindings.len()
            invariant
                i <= self.bindings.len(),
                passed.len() == self.bindings.len(),
                verdicts == self@.verdicts(passed@),
                verdicts.len() == self.bindings.len(),
                keep == |verdict: Option<Seq<char>>| verdict,
                errors.deep_view() == verdicts.take(i as int).filter_map(keep),
            decreases self.bindings.len() - i,
        {
            proof {
                verdicts.lemma_filter_map_take_succ(keep, i as int);
            }
            let ghost before = errors.deep_view();
            let verdict = self.bindings[i].descriptor.verdict(passed[i]);
            assert(verdict.deep_view() == verdicts[i as int]);
            match verdict {
                Some(message) => {
                    errors.push(message);
                    assert(errors.deep_view() =~= before + seq![message@]);
                },
                None => {
                    assert(errors.deep_view() =~= before + Seq::<Seq<char>>::empty());
                },
            }
            i = i + 1;
        }
        assert(verdicts.take(self.bindings.len() as int) =~= verdicts);
        errors
    }

    /// The path of the function that validates the whole record, if any.
    pub fn validator(&self) -> (path: Option<&String>)
        ensures
            path.deep_view() == self@.validator,
            match path {
                Some(path) => self.validator_path() == Some(*path),
                None => self.validator_path() is None,
            },
    {
        self.validator.as_ref()
    }

    /// The path of the record's validator as it is held, if there is one.
    pub closed spec fn validator_path(&self) -> Option<String> {
        self.validator
    }

    /// The path of the predicate of the field at `at` as it is held, if
    /// that field has a validator.
    pub closed spec fn predicate_at(&self, at: int) -> Option<String> {
        self.bindings[at].descriptor.predicate()
    }

    /// The paths that are held are those of the validators.
    pub proof fn lemma_paths(&self)
        ensures
            self.validator_path().deep_view() == self@.validator,
            forall|i: int|
                0 <= i < self@.bindings.len() ==> (#[trigger] self.predicate_at(i)).deep_view()
                    == match self@.bindings[i].descriptor.check {
                    Some(check) => Some(check.path),
                    None => None,
                },
    {
        assert forall|i: int| 0 <= i < self@.bindings.len() implies (#[trigger] self.predicate_at(
            i,
        )).deep_view() == match self@.bindings[i].descriptor.check {
            Some(check) => Some(check.path),
            None => None,
        } by {
            self.bindings[i].descriptor.lemma_predicate();
        }
    }

    /// `passed` holds, for each field with a validator, something that the
    /// field's predicate gives for the field's value when `predicate` is
    /// asked for it by its path.
    pub open spec fn answered<P: Fn(&String, &T) -> bool>(
        &self,
        predicate: P,
        passed: Seq<bool>,
    ) -> bool {
        &&& passed.len() == self@.bindings.len()
        &&& forall|i: int|
            0 <= i < passed.len() ==> match self.predicate_at(i) {
                Some(path) => call_ensures(
                    predicate,
                    (&path, &self@.bindings[i].value),
                    #[trigger] passed[i],
                ),
                None => true,
            }
    }

    /// Validates the record and gives the messages, in order.
    ///
    /// Where the record has a validator of its own, that validator is asked
    /// by its path, with the controls, and what it gives is handed on as it
    /// is: no field's predicate is asked. Else the predicate of each field
    /// with a validator is asked by its path, with the field's value read
    /// without tracking, in declaration order, and the messages of the
    /// fields whose values were rejected are given in that order.
    pub fn validate<P: Fn(&String, &T) -> bool, V: Fn(&String, &Controls<T>) -> Vec<String>>(
        &self,
        predicate: P,
        validator: V,
    ) -> (errors: Vec<String>)
        requires
            forall|path: &String, value: &T| call_requires(predicate, (path, value)),
            forall|path: &String, controls: &Controls<T>|
                call_requires(validator, (path, controls)),
        ensures
            match self.validator_path() {
                Some(path) => call_ensures(validator, (&path, self), errors),
                None => exists|passed: Seq<bool>|
                    self.answered(predicate, passed) && errors.deep_view() == self@.errors(passed),
            },
    {
        match self.validator() {
            Some(path) => validator(path, self),
            None => {
                let mut passed: Vec<bool> = Vec::new();
                let mut i: usize = 0;
                while i < self.bindings.len()
                    invariant
                        i <= self.bindings.len(),
                        passed.len() == i,
                        forall|path: &String, value: &T| call_requires(predicate, (path, value)),
                        forall|j: int|
                            0 <= j < i ==> match self.predicate_at(j) {
                                Some(path) => call_ensures(
                                    predicate,
                                    (&path, &self@.bindings[j].value),
                                    #[trigger] passed[j],
                                ),
                                None => true,
                            },
                    decreases self.bindings.len() - i,
                {
                    let binding = &self.bindings[i];
                    assert(self@.bindings[i as int].value == binding.value);
                    let pass = match binding.descriptor.predicate_path() {
                        Some(path) => predicate(path, &binding.value),
                        None => true,
                    };
                    passed.push(pass);
                    i = i + 1;
                }
                let errors = self.collect(&passed);
                assert(self.answered(predicate, passed@));
                errors
            },
        }
    }
}

impl<T: Default> Controls<T> {
    /// Sets the field at `at` to its default where there is such a field
    /// and it can be written; a read-only field stays as it is.
    pub fn set_default_at(&mut self, at: usize)
        ensures
            final(self)@.validator == old(self)@.validator,
            final(self)@.bindings.len() == old(self)@.bindings.len(),
            forall|j: int|
                0 <= j < old(self)@.bindings.len() && j != at ==> final(self)@.bindings[j] == (
                #[trigger] old(self)@.bindings[j]),
            at < old(self)@.bindings.len() ==> {
                let before = old(self)@.bindings[at as int];
                let now = final(self)@.bindings[at as int];
                &&& now.kind == before.kind
                &&& now.descriptor == before.descriptor
                &&& before.kind == BindingKind::ReadOnly ==> now == before
                &&& before.kind == BindingKind::Mutable ==> is_default(now.value)
            },
            at < old(self)@.bindings.len() && old(self)@.bindings[at as int].kind
                == BindingKind::ReadOnly ==> final(self)@ == old(self)@,
    {
        if at >= self.bindings.len() {
            return ;
        }
        let ghost before = self.bindings@;
        let mut binding = self.bindings.remove(at);
        binding.set_default();
        self.bindings.insert(at, binding);
        assert forall|j: int| 0 <= j < before.len() && j != at implies final(self)@.bindings[j]
            == (#[trigger] old(self)@.bindings[j]) by {
            assert(self.bindings@[j] == before[j]);
        }
        assert(final(self)@.bindings[at as int] == binding@);
        proof {
            if old(self)@.bindings[at as int].kind == BindingKind::ReadOnly {
                assert(final(self)@.bindings =~= old(self)@.bindings);
            }
        }
    }

    /// Sets every field to its default, in declaration order: each mutable
    /// field gets a default value, each read-only field stays as it is.
    pub fn set_default(&mut self)
        ensures
            old(self)@.reset_to(final(self)@),
    {
        let n = self.bindings.len();
        let mut i: usize = 0;
        while i < n
            invariant
                i <= n,
                n == old(self)@.bindings.len(),
                self@.validator == old(self)@.validator,
                self@.bindings.len() == n,
                forall|j: int|
                    i <= j < n ==> self@.bindings[j] == (#[trigger] old(self)@.bindings[j]),
                forall|j: int|
                    0 <= j < i ==> {
                        let before = #[trigger] old(self)@.bindings[j];
                        let now = self@.bindings[j];
                        &&& now.kind == before.kind
                        &&& now.descriptor == before.descriptor
                        &&& before.kind == BindingKind::ReadOnly ==> now.value == before.value
                        &&& before.kind == BindingKind::Mutable ==> is_default(now.value)
                    },
            decreases n - i,
        {
            self.set_default_at(i);
            i = i + 1;
        }
    }
}

impl<T: Clone> Controls<T> {
    /// The record that the controls hold now: a copy of every field's value,
    /// read without tracking, in declaration order.
    pub fn snapshot(&self) -> (record: Vec<T>)
        ensures
            record.len() == self@.bindings.len(),
            forall|i: int|
                0 <= i < record.len() ==> cloned(self@.snapshot()[i], #[trigger] record[i]),
    {
        let mut record: Vec<T> = Vec::new();
        let mut i: usize = 0;
        while i < self.bindings.len()
            invariant
                i <= self.bindings.len(),
                record.len() == i,
                forall|j: int| 0 <= j < i ==> cloned(self@.snapshot()[j], #[trigger] record[j]),
            decreases self.bindings.len() - i,
        {
            let value = self.bindings[i].value.clone();
            assert(self@.snapshot()[i as int] == self.bindings[i as int].value);
            record.push(value);
            i = i + 1;
        }
        record
    }
}

} // verus!
