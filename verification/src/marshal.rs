//! The record marshaller: drives the attribute reader once per descriptor of
//! a record shape and applies each descriptor's recovery policy, yielding the
//! record's fields or the first error that aborts the build.

use vstd::prelude::*;

use crate::outcome::field_of;
use crate::outcome::apply_policy;
use crate::outcome::BuildError;
use crate::outcome::ErrorView;
use crate::outcome::OutcomeView;
use crate::outcome::Policy;
use crate::row::outcome_of;
use crate::row::read_attribute;
use crate::row::Row;
use crate::row::RowView;

verus! {

/// One entry of a record shape: which attribute feeds the field at this
/// position, and what to do when the attribute is missing or unrenderable.
#[derive(Debug)]
pub struct Descriptor {
    pub name: String,
    pub policy: Policy,
}

/// Mathematical image of a [`Descriptor`].
pub struct DescView {
    pub name: Seq<char>,
    pub policy: Policy,
}

impl View for Descriptor {
    type V = DescView;

    open spec fn view(&self) -> DescView {
        DescView { name: self.name@, policy: self.policy }
    }
}

impl DeepView for Descriptor {
    type V = DescView;

    open spec fn deep_view(&self) -> DescView {
        self.view()
    }
}

/// The field the descriptor at position `j` contributes to the record built
/// from `row`, or the error on which it aborts the build.
pub open spec fn field_at(row: RowView, descs: Seq<DescView>, j: int) -> Result<
    Option<Seq<char>>,
    ErrorView,
> {
    field_of(outcome_of(row, descs[j].name), descs[j].policy, descs[j].name)
}

/// The fields contributed by the descriptors from position `i` on, appended
/// to the fields `acc` already built, or the first error among them.
pub open spec fn marshal_acc(
    row: RowView,
    descs: Seq<DescView>,
    i: int,
    acc: Seq<Option<Seq<char>>>,
) -> Result<Seq<Option<Seq<char>>>, ErrorView>
    decreases descs.len() - i,
{
    if i < 0 || i >= descs.len() {
        Ok(acc)
    } else {
        match field_at(row, descs, i) {
            Ok(f) => marshal_acc(row, descs, i + 1, acc.push(f)),
            Err(e) => Err(e),
        }
    }
}

/// The fields of the record that the shape `descs` builds from `row`, in
/// declaration order, or the first error that aborts the build.
pub open spec fn marshal_fields(row: RowView, descs: Seq<DescView>) -> Result<
    Seq<Option<Seq<char>>>,
    ErrorView,
> {
    marshal_acc(row, descs, 0, Seq::empty())
}

/// Mathematical image of a whole build result.
pub open spec fn record_result_view(r: Result<Vec<Option<String>>, BuildError>) -> Result<
    Seq<Option<Seq<char>>>,
    ErrorView,
> {
    match r {
        Ok(v) => Ok(v.deep_view()),
        Err(e) => Err(e@),
    }
}

/// Builds the fields of one record from `row`, one descriptor at a time in
/// declaration order: reads the named attribute, applies the descriptor's
/// policy, and stops at the first error.  Every raw value fetched along the
/// way is released before the call returns, on the error paths too.
pub fn build_fields(row: &mut Row, descs: &Vec<Descriptor>) -> (r: Result<
    Vec<Option<String>>,
    BuildError,
>)
    requires
        old(row)@.fetched + descs@.len() <= usize::MAX,
        old(row)@.released <= old(row)@.fetched,
    ensures
        record_result_view(r) == marshal_fields(old(row)@, descs.deep_view()),
        final(row)@.attrs == old(row)@.attrs,
        final(row)@.fault == old(row)@.fault,
        final(row)@.fetched <= old(row)@.fetched + descs@.len(),
        final(row)@.fetched - final(row)@.released == old(row)@.fetched - old(row)@.released,
{
    let ghost dv = descs.deep_view();
    let mut fields: Vec<Option<String>> = Vec::new();
    proof {
        assert(fields.deep_view() =~= Seq::<Option<Seq<char>>>::empty());
    }
    let mut i: usize = 0;
    while i < descs.len()
        invariant
            i <= descs@.len(),
            dv == descs.deep_view(),
            dv.len() == descs@.len(),
            row@.attrs == old(row)@.attrs,
            row@.fault == old(row)@.fault,
            row@.fetched <= old(row)@.fetched + i,
            row@.released <= row@.fetched,
            row@.fetched - row@.released == old(row)@.fetched - old(row)@.released,
            old(row)@.fetched + descs@.len() <= usize::MAX,
            fields@.len() == i,
            marshal_fields(old(row)@, dv) == marshal_acc(old(row)@, dv, i as int, fields.deep_view()),
        decreases descs@.len() - i,
    {
        proof {
            assert(dv[i as int] == descs@[i as int].deep_view());
        }
        let o = read_attribute(row, &descs[i].name);
        proof {
            assert(outcome_of(row@, dv[i as int].name) == outcome_of(old(row)@, dv[i as int].name));
        }
        let ghost fields_before = fields.deep_view();
        match apply_policy(o, descs[i].policy, &descs[i].name) {
            Ok(f) => {
                fields.push(f);
                proof {
                    assert(fields.deep_view() =~= fields_before.push(f.deep_view()));
                }
            },
            Err(e) => {
                return Err(e);
            },
        }
        i = i + 1;
    }
    Ok(fields)
}

/// A field of "text with default" type: the attribute's canonical text where
/// the build produced one, and empty text where the field was defaulted.
pub open spec fn defaulted(f: Option<Seq<char>>) -> Seq<char> {
    match f {
        Some(t) => t,
        None => Seq::empty(),
    }
}

/// Reads the field at position `i` of a built record as text with the empty
/// default.
pub fn field_text(fields: &Vec<Option<String>>, i: usize) -> (r: String)
    requires
        i < fields@.len(),
    ensures
        r@ == defaulted(fields.deep_view()[i as int]),
{
    proof {
        assert(fields.deep_view()[i as int] == fields@[i as int].deep_view());
    }
    match &fields[i] {
        Some(t) => t.clone(),
        None => String::new(),
    }
}

/// The key facts of a build result, for every starting position and
/// accumulator: a successful build keeps the accumulated fields, finds every
/// remaining descriptor's field successful, and appends those fields in
/// order; a failed build fails with the first failing descriptor's error.
pub proof fn lemma_marshal_acc_characterized(
    row: RowView,
    descs: Seq<DescView>,
    i: int,
    acc: Seq<Option<Seq<char>>>,
)
    requires
        0 <= i <= descs.len(),
    ensures
        match marshal_acc(row, descs, i, acc) {
            Ok(r) => {
                &&& r.len() == acc.len() + descs.len() - i
                &&& forall|j: int| 0 <= j < acc.len() ==> r[j] == acc[j]
                &&& forall|j: int|
                    i <= j < descs.len() ==> (#[trigger] field_at(row, descs, j)) is Ok
                &&& forall|j: int|
                    i <= j < descs.len() ==> r[acc.len() + j - i] == (#[trigger] field_at(
                        row,
                        descs,
                        j,
                    ))->Ok_0
            },
            Err(e) => exists|k: int|
                {
                    &&& i <= k < descs.len()
                    &&& #[trigger] field_at(row, descs, k) == Err::<Option<Seq<char>>, ErrorView>(e)
                    &&& forall|j: int| i <= j < k ==> field_at(row, descs, j) is Ok
                },
        },
    decreases descs.len() - i,
{
    if i < descs.len() {
        match field_at(row, descs, i) {
            Ok(f) => {
                lemma_marshal_acc_characterized(row, descs, i + 1, acc.push(f));
            },
            Err(e) => {
                assert(i <= i < descs.len() && field_at(row, descs, i) == Err::<
                    Option<Seq<char>>,
                    ErrorView,
                >(e) && (forall|j: int| i <= j < i ==> field_at(row, descs, j) is Ok));
            },
        }
    }
}

/// Law: a descriptor whose attribute value has a text rendering contributes
/// exactly that canonical text to the built record.
pub proof fn lemma_present_field_text(row: RowView, descs: Seq<DescView>, j: int)
    requires
        0 <= j < descs.len(),
        marshal_fields(row, descs) is Ok,
        outcome_of(row, descs[j].name) matches OutcomeView::Present(_),
    ensures
        marshal_fields(row, descs)->Ok_0.len() == descs.len(),
        marshal_fields(row, descs)->Ok_0[j] == Some(
            outcome_of(row, descs[j].name)->Present_0,
        ),
{
    lemma_marshal_acc_characterized(row, descs, 0, Seq::empty());
    let t = outcome_of(row, descs[j].name)->Present_0;
    assert(field_at(row, descs, j) == Ok::<Option<Seq<char>>, ErrorView>(Some(t)));
    let r = marshal_fields(row, descs)->Ok_0;
    assert(r[0 + j - 0] == field_at(row, descs, j)->Ok_0);
}

/// Law: in a record that built successfully, a field whose attribute was
/// missing or unrenderable holds the default, and never invented text.
pub proof fn lemma_defaulted_field(row: RowView, descs: Seq<DescView>, j: int)
    requires
        0 <= j < descs.len(),
        marshal_fields(row, descs) is Ok,
        !(outcome_of(row, descs[j].name) is Present),
    ensures
        marshal_fields(row, descs)->Ok_0.len() == descs.len(),
        marshal_fields(row, descs)->Ok_0[j] == None::<Seq<char>>,
{
    lemma_marshal_acc_characterized(row, descs, 0, Seq::empty());
    assert(field_at(row, descs, j) is Ok);
    let r = marshal_fields(row, descs)->Ok_0;
    assert(r[0 + j - 0] == field_at(row, descs, j)->Ok_0);
}

/// Law: on a row without a pending provider fault, a shape all of whose
/// descriptors tolerate a miss always builds a record; each field is the
/// attribute's canonical text where one is rendered, and the default
/// otherwise — a missing attribute and an unrenderable one alike.
pub proof fn lemma_tolerant_build_succeeds(row: RowView, descs: Seq<DescView>)
    requires
        row.fault is None,
        forall|j: int| 0 <= j < descs.len() ==> (#[trigger] descs[j].policy) is UseDefault,
    ensures
        marshal_fields(row, descs) is Ok,
        marshal_fields(row, descs)->Ok_0.len() == descs.len(),
        forall|j: int|
            0 <= j < descs.len() ==> marshal_fields(row, descs)->Ok_0[j] == match outcome_of(
                row,
                descs[j].name,
            ) {
                OutcomeView::Present(t) => Some(t),
                _ => None::<Seq<char>>,
            },
{
    assert forall|j: int| 0 <= j < descs.len() implies (#[trigger] field_at(row, descs, j))
        is Ok by {
        assert(descs[j].policy is UseDefault);
    }
    lemma_marshal_acc_characterized(row, descs, 0, Seq::empty());
    if marshal_fields(row, descs) is Err {
        let e = marshal_fields(row, descs)->Err_0;
        let k = choose|k: int|
            {
                &&& 0 <= k < descs.len()
                &&& #[trigger] field_at(row, descs, k) == Err::<Option<Seq<char>>, ErrorView>(e)
                &&& forall|j: int| 0 <= j < k ==> field_at(row, descs, j) is Ok
            };
        assert(field_at(row, descs, k) is Ok);
    }
    let r = marshal_fields(row, descs)->Ok_0;
    assert forall|j: int| 0 <= j < descs.len() implies r[j] == match outcome_of(
        row,
        descs[j].name,
    ) {
        OutcomeView::Present(t) => Some(t),
        _ => None::<Seq<char>>,
    } by {
        assert(field_at(row, descs, j) is Ok);
        assert(r[0 + j - 0] == field_at(row, descs, j)->Ok_0);
    }
}

/// Law: a pending provider fault aborts the build of any non-empty shape
/// with that fault's cause, before any field is produced.
pub proof fn lemma_fault_aborts_build(row: RowView, descs: Seq<DescView>)
    requires
        row.fault is Some,
        descs.len() > 0,
    ensures
        marshal_fields(row, descs) == Err::<Seq<Option<Seq<char>>>, ErrorView>(
            ErrorView::Fatal(row.fault->Some_0),
        ),
{
}

} // verus!
