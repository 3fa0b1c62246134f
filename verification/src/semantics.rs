//! The meaning of the generated accessors.
//!
//! A generated accessor is an exhaustive match over the variants of the
//! rewritten declaration. This module gives that match a semantics over
//! model values of the rewritten type: a value is a variant index together
//! with the data the variant carries, and evaluating an accessor selects the
//! arm of the value's variant and extracts the bound field. The borrowing
//! and consuming accessors share one evaluation; the mutable accessor is a
//! store at the same slot.

use vstd::prelude::*;

use crate::ast::{AccessorModel, AccessorSet, Arm, Binding, BindingModel};

verus! {

/// A payload held in one field of a constructed value: an integer or a
/// character, enough to distinguish slots from one another.
#[derive(PartialEq, Eq, Structural, Clone, Copy, Debug)]
pub enum Payload {
    Num(i64),
    Ch(char),
}

/// One named field of a constructed value.
#[derive(Debug, PartialEq, Eq)]
pub struct FieldValue {
    pub name: String,
    pub value: Payload,
}

/// Spec-level counterpart of [`FieldValue`].
#[verifier::ext_equal]
pub ghost struct FieldValueModel {
    pub name: Seq<char>,
    pub value: Payload,
}

impl View for FieldValue {
    type V = FieldValueModel;

    open spec fn view(&self) -> FieldValueModel {
        FieldValueModel { name: self.name@, value: self.value }
    }
}

/// The data a constructed value carries: none, positional, or named.
#[derive(Debug, PartialEq, Eq)]
pub enum DataValue {
    Unit,
    Positional(Vec<Payload>),
    Named(Vec<FieldValue>),
}

/// Spec-level counterpart of [`DataValue`].
#[verifier::ext_equal]
pub ghost enum DataModel {
    Unit,
    Positional(Seq<Payload>),
    Named(Seq<FieldValueModel>),
}

impl View for DataValue {
    type V = DataModel;

    open spec fn view(&self) -> DataModel {
        match self {
            DataValue::Unit => DataModel::Unit,
            DataValue::Positional(ps) => DataModel::Positional(ps@),
            DataValue::Named(vs) => DataModel::Named(field_values_view(vs@)),
        }
    }
}

/// A constructed value of the rewritten sum type: which variant it is, in
/// declaration order, and the data that variant carries.
#[derive(Debug, PartialEq, Eq)]
pub struct EnumValue {
    pub variant_index: usize,
    pub data: DataValue,
}

/// Spec-level counterpart of [`EnumValue`].
#[verifier::ext_equal]
pub ghost struct ValueModel {
    pub variant_index: int,
    pub data: DataModel,
}

impl View for EnumValue {
    type V = ValueModel;

    open spec fn view(&self) -> ValueModel {
        ValueModel { variant_index: self.variant_index as int, data: self.data@ }
    }
}

/// Element-wise view of a sequence of named field values.
pub open spec fn field_values_view(vs: Seq<FieldValue>) -> Seq<FieldValueModel> {
    vs.map_values(|v: FieldValue| v@)
}

/// What binding a named pattern yields: the value of the first field with
/// the given name, as a Rust struct pattern binds it.
pub open spec fn lookup_named(vs: Seq<FieldValueModel>, name: Seq<char>) -> Option<Payload>
    decreases vs.len(),
{
    if vs.len() == 0 {
        None
    } else if vs.first().name == name {
        Some(vs.first().value)
    } else {
        lookup_named(vs.drop_first(), name)
    }
}

/// The named data after a write through the binding: the first field with
/// the given name holds the new payload, everything else is unchanged.
pub open spec fn store_named(vs: Seq<FieldValueModel>, name: Seq<char>, p: Payload) -> Seq<
    FieldValueModel,
>
    decreases vs.len(),
{
    if vs.len() == 0 {
        vs
    } else if vs.first().name == name {
        seq![FieldValueModel { name: vs.first().name, value: p }] + vs.drop_first()
    } else {
        seq![vs.first()] + store_named(vs.drop_first(), name, p)
    }
}

/// Evaluates one match arm's binding against the data of a value: a named
/// binding extracts the field by name from named data, a positional binding
/// extracts the slot at its index from positional data, and nothing else
/// yields a result.
pub open spec fn eval_arm(b: BindingModel, field_name: Seq<char>, d: DataModel) -> Option<
    Payload,
> {
    match b {
        BindingModel::Named => match d {
            DataModel::Named(vs) => lookup_named(vs, field_name),
            _ => None,
        },
        BindingModel::Positional(idx) => match d {
            DataModel::Positional(ps) => if 0 <= idx < ps.len() {
                Some(ps[idx])
            } else {
                None
            },
            _ => None,
        },
        BindingModel::Bare => None,
    }
}

/// Evaluates a generated accessor on a value: the match selects the arm of
/// the value's variant, one arm per variant in declaration order. With no
/// arms at all — a declaration with no variants — there is no result: that
/// is the never-reachable fallback arm.
pub open spec fn eval_accessor(acc: AccessorModel, v: ValueModel) -> Option<Payload> {
    if 0 <= v.variant_index < acc.arms.len() {
        eval_arm(acc.arms[v.variant_index].binding, acc.field_name, v.data)
    } else {
        None
    }
}

/// The data of a value after a write through an arm's binding; data the
/// binding does not reach is unchanged.
pub open spec fn written_data(
    b: BindingModel,
    field_name: Seq<char>,
    d: DataModel,
    p: Payload,
) -> DataModel {
    match b {
        BindingModel::Named => match d {
            DataModel::Named(vs) => DataModel::Named(store_named(vs, field_name, p)),
            _ => d,
        },
        BindingModel::Positional(idx) => match d {
            DataModel::Positional(ps) => if 0 <= idx < ps.len() {
                DataModel::Positional(ps.update(idx, p))
            } else {
                d
            },
            _ => d,
        },
        BindingModel::Bare => d,
    }
}

/// A value after a write through the mutable accessor: the injected field's
/// slot holds the new payload, the variant and everything else is unchanged.
pub open spec fn written_value(acc: AccessorModel, v: ValueModel, p: Payload) -> ValueModel {
    if 0 <= v.variant_index < acc.arms.len() {
        ValueModel {
            variant_index: v.variant_index,
            data: written_data(acc.arms[v.variant_index].binding, acc.field_name, v.data, p),
        }
    } else {
        v
    }
}

/// Reads through the borrowing accessor: evaluates the generated match on
/// the value and yields the payload bound for the value's variant, or
/// nothing where no arm binds — which, on values of the rewritten type, is
/// only the case for the never-reachable fallback.
pub fn read_field(acc: &AccessorSet, v: &EnumValue) -> (r: Option<Payload>)
    ensures
        r == eval_accessor(acc@, v@),
{
    if v.variant_index < acc.arms.len() {
        let arm = &acc.arms[v.variant_index];
        match (&arm.binding, &v.data) {
            (Binding::Named, DataValue::Named(vs)) => lookup_field(vs, &acc.field_name),
            (Binding::Positional(idx), DataValue::Positional(ps)) => {
                if *idx < ps.len() {
                    Some(ps[*idx])
                } else {
                    None
                }
            },
            _ => None,
        }
    } else {
        None
    }
}

/// Reads through the consuming accessor: the same evaluation as the
/// borrowing accessor, but the value is consumed and cannot be used again.
pub fn take_field(acc: &AccessorSet, v: EnumValue) -> (r: Option<Payload>)
    ensures
        r == eval_accessor(acc@, v@),
{
    read_field(acc, &v)
}

/// Writes through the mutable accessor: stores the payload in the injected
/// field's slot of the value, and reports whether a slot was reached — the
/// same cases in which the borrowing accessor yields a result. Where no
/// slot is reached, the value is unchanged.
pub fn write_field(acc: &AccessorSet, v: &mut EnumValue, p: Payload) -> (r: bool)
    ensures
        final(v)@ == written_value(acc@, old(v)@, p),
        r == (eval_accessor(acc@, old(v)@) is Some),
{
    if v.variant_index >= acc.arms.len() {
        return false;
    }
    let arm = &acc.arms[v.variant_index];
    match (&arm.binding, &v.data) {
        (Binding::Named, DataValue::Named(vs)) => {
            let found = find_field(vs, &acc.field_name);
            match found {
                Some(j) => {
                    let new_vs = set_field_value(vs, j, p);
                    proof {
                        lemma_store_at_index(field_values_view(vs@), acc.field_name@, p, j as int);
                        lemma_lookup_at_index(field_values_view(vs@), acc.field_name@, j as int);
                    }
                    v.data = DataValue::Named(new_vs);
                    true
                },
                None => {
                    proof {
                        lemma_lookup_no_match(field_values_view(vs@), acc.field_name@);
                        lemma_store_no_match(field_values_view(vs@), acc.field_name@, p);
                    }
                    false
                },
            }
        },
        (Binding::Positional(idx), DataValue::Positional(ps)) => {
            if *idx < ps.len() {
                let new_ps = set_payload(ps, *idx, p);
                v.data = DataValue::Positional(new_ps);
                true
            } else {
                false
            }
        },
        _ => false,
    }
}

/// Finds the index of the first field with the given name, as the named
/// pattern would bind it.
fn find_field(vs: &Vec<FieldValue>, name: &String) -> (r: Option<usize>)
    ensures
        match r {
            Some(j) => {
                &&& 0 <= j < vs@.len()
                &&& vs@[j as int]@.name == name@
                &&& forall|k: int| 0 <= k < j ==> vs@[k]@.name != name@
            },
            None => forall|k: int| 0 <= k < vs@.len() ==> vs@[k]@.name != name@,
        },
{
    let mut i: usize = 0;
    while i < vs.len()
        invariant
            i <= vs.len(),
            forall|k: int| 0 <= k < i ==> vs@[k]@.name != name@,
        decreases vs.len() - i,
    {
        if vs[i].name == *name {
            return Some(i);
        }
        i += 1;
    }
    None
}

/// Copies the named field values, with the payload at index `j` replaced.
fn set_field_value(vs: &Vec<FieldValue>, j: usize, p: Payload) -> (r: Vec<FieldValue>)
    requires
        j < vs@.len(),
    ensures
        field_values_view(r@) == field_values_view(vs@).update(
            j as int,
            FieldValueModel { name: vs@[j as int]@.name, value: p },
        ),
{
    let mut r: Vec<FieldValue> = Vec::new();
    let mut i: usize = 0;
    while i < vs.len()
        invariant
            i <= vs.len(),
            j < vs@.len(),
            r@.len() == i,
            forall|k: int|
                0 <= k < i && k != j ==> r@[k]@ == vs@[k]@,
            forall|k: int|
                0 <= k < i && k == j ==> r@[k]@ == (FieldValueModel {
                    name: vs@[j as int]@.name,
                    value: p,
                }),
        decreases vs.len() - i,
    {
        if i == j {
            r.push(FieldValue { name: vs[i].name.clone(), value: p });
        } else {
            r.push(FieldValue { name: vs[i].name.clone(), value: vs[i].value });
        }
        i += 1;
    }
    proof {
        assert(field_values_view(r@) =~= field_values_view(vs@).update(
            j as int,
            FieldValueModel { name: vs@[j as int]@.name, value: p },
        ));
    }
    r
}

/// Copies the positional payloads, with the one at index `j` replaced.
fn set_payload(ps: &Vec<Payload>, j: usize, p: Payload) -> (r: Vec<Payload>)
    requires
        j < ps@.len(),
    ensures
        r@ == ps@.update(j as int, p),
{
    let mut r: Vec<Payload> = Vec::new();
    let mut i: usize = 0;
    while i < ps.len()
        invariant
            i <= ps.len(),
            j < ps@.len(),
            r@.len() == i,
            forall|k: int| 0 <= k < i && k != j ==> r@[k] == ps@[k],
            forall|k: int| 0 <= k < i && k == j ==> r@[k] == p,
        decreases ps.len() - i,
    {
        if i == j {
            r.push(p);
        } else {
            r.push(ps[i]);
        }
        i += 1;
    }
    proof {
        assert(r@ =~= ps@.update(j as int, p));
    }
    r
}

/// Looks a field up by name, first match wins, as the named pattern binds.
fn lookup_field(vs: &Vec<FieldValue>, name: &String) -> (r: Option<Payload>)
    ensures
        r == lookup_named(field_values_view(vs@), name@),
{
    let found = find_field(vs, name);
    match found {
        Some(j) => {
            proof {
                lemma_lookup_at_index(field_values_view(vs@), name@, j as int);
            }
            Some(vs[j].value)
        },
        None => {
            proof {
                lemma_lookup_no_match(field_values_view(vs@), name@);
            }
            None
        },
    }
}

/// Looking up a name whose first occurrence is at index `j` yields the
/// payload stored there.
pub proof fn lemma_lookup_at_index(vs: Seq<FieldValueModel>, name: Seq<char>, j: int)
    requires
        0 <= j < vs.len(),
        vs[j].name == name,
        forall|k: int| 0 <= k < j ==> vs[k].name != name,
    ensures
        lookup_named(vs, name) == Some(vs[j].value),
    decreases j,
{
    if j == 0 {
    } else {
        lemma_lookup_at_index(vs.drop_first(), name, j - 1);
    }
}

/// Looking up a name that occurs nowhere yields nothing.
pub proof fn lemma_lookup_no_match(vs: Seq<FieldValueModel>, name: Seq<char>)
    requires
        forall|k: int| 0 <= k < vs.len() ==> vs[k].name != name,
    ensures
        lookup_named(vs, name) is None,
    decreases vs.len(),
{
    if vs.len() == 0 {
    } else {
        lemma_lookup_no_match(vs.drop_first(), name);
    }
}

/// Storing at a name whose first occurrence is at index `j` replaces the
/// payload there and nothing else.
pub proof fn lemma_store_at_index(vs: Seq<FieldValueModel>, name: Seq<char>, p: Payload, j: int)
    requires
        0 <= j < vs.len(),
        vs[j].name == name,
        forall|k: int| 0 <= k < j ==> vs[k].name != name,
    ensures
        store_named(vs, name, p) == vs.update(
            j,
            FieldValueModel { name: vs[j].name, value: p },
        ),
    decreases j,
{
    if j == 0 {
        assert(store_named(vs, name, p) =~= vs.update(
            0,
            FieldValueModel { name: vs[0].name, value: p },
        ));
    } else {
        lemma_store_at_index(vs.drop_first(), name, p, j - 1);
        assert(store_named(vs, name, p) =~= vs.update(
            j,
            FieldValueModel { name: vs[j].name, value: p },
        ));
    }
}

/// A write through the named binding is observed by a subsequent lookup:
/// wherever the name occurs at all, looking it up after the store yields
/// the stored payload.
pub proof fn lemma_lookup_after_store(vs: Seq<FieldValueModel>, name: Seq<char>, p: Payload)
    requires
        lookup_named(vs, name) is Some,
    ensures
        lookup_named(store_named(vs, name, p), name) == Some(p),
    decreases vs.len(),
{
    if vs.len() == 0 {
    } else if vs.first().name == name {
        let s = seq![(FieldValueModel { name: vs.first().name, value: p })] + vs.drop_first();
        assert(s.first() == (FieldValueModel { name: vs.first().name, value: p }));
    } else {
        lemma_lookup_after_store(vs.drop_first(), name, p);
        let s = seq![vs.first()] + store_named(vs.drop_first(), name, p);
        assert(s.first() == vs.first());
        assert(s.drop_first() =~= store_named(vs.drop_first(), name, p));
    }
}

/// Storing at a name that occurs nowhere changes nothing.
pub proof fn lemma_store_no_match(vs: Seq<FieldValueModel>, name: Seq<char>, p: Payload)
    requires
        forall|k: int| 0 <= k < vs.len() ==> vs[k].name != name,
    ensures
        store_named(vs, name, p) == vs,
    decreases vs.len(),
{
    if vs.len() == 0 {
    } else {
        lemma_store_no_match(vs.drop_first(), name, p);
        assert(store_named(vs, name, p) =~= vs);
    }
}

} // verus!
