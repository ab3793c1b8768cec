//! A model of one provider-owned row: a bag of named, dynamically typed
//! attributes, together with the accounting that shows every raw value
//! handed out by the provider is released exactly once.

use vstd::prelude::*;

use crate::outcome::FetchOutcome;
use crate::outcome::OutcomeView;

verus! {

/// A dynamically typed attribute value, reduced to what the marshalling
/// logic reads of it: either it has a canonical text rendering or it does
/// not.
#[derive(Debug)]
pub enum AttrValue {
    /// A value with a canonical, locale-independent text rendering.
    Text(String),
    /// A value of a native type that has no text rendering.
    Opaque,
}

/// Mathematical image of an [`AttrValue`].
pub enum ValueView {
    Text(Seq<char>),
    Opaque,
}

impl View for AttrValue {
    type V = ValueView;

    open spec fn view(&self) -> ValueView {
        match self {
            AttrValue::Text(t) => ValueView::Text(t@),
            AttrValue::Opaque => ValueView::Opaque,
        }
    }
}

impl DeepView for AttrValue {
    type V = ValueView;

    open spec fn deep_view(&self) -> ValueView {
        self.view()
    }
}

/// One named attribute of a row.
#[derive(Debug)]
pub struct Attr {
    pub name: String,
    pub value: AttrValue,
}

/// Mathematical image of an [`Attr`].
pub struct AttrView {
    pub name: Seq<char>,
    pub value: ValueView,
}

impl View for Attr {
    type V = AttrView;

    open spec fn view(&self) -> AttrView {
        AttrView { name: self.name@, value: self.value@ }
    }
}

impl DeepView for Attr {
    type V = AttrView;

    open spec fn deep_view(&self) -> AttrView {
        self.view()
    }
}

/// The value of the first attribute named `name`, if the row has one.
pub open spec fn attr_of(attrs: Seq<AttrView>, name: Seq<char>) -> Option<ValueView>
    decreases attrs.len(),
{
    if attrs.len() <= 0 {
        None
    } else if attrs[0].name == name {
        Some(attrs[0].value)
    } else {
        attr_of(attrs.skip(1), name)
    }
}

/// The text rendering of a value, if it has one.
pub open spec fn render_of(v: ValueView) -> Option<Seq<char>> {
    match v {
        ValueView::Text(t) => Some(t),
        ValueView::Opaque => None,
    }
}

/// Mathematical image of a [`Row`]: its attribute bag, the pending provider
/// fault if the connection was lost, and the raw-value accounting.
pub struct RowView {
    pub attrs: Seq<AttrView>,
    pub fault: Option<Seq<char>>,
    /// How many raw attribute values the provider has handed out for this row.
    pub fetched: nat,
    /// How many of those raw values have been released again.
    pub released: nat,
}

/// One row of a query result: an attribute bag owned by the provider.
///
/// The row counts the raw values it hands out and takes back, so that a
/// caller's contract can state that none outlives the call that fetched it.
#[derive(Debug)]
pub struct Row {
    attrs: Vec<Attr>,
    fault: Option<String>,
    fetched: usize,
    released: usize,
}

/// A raw attribute value as handed out by the provider: provider-owned,
/// to be given back via [`Row::release`] exactly once.
#[derive(Debug)]
pub struct RawValue {
    value: AttrValue,
}

impl View for RawValue {
    type V = ValueView;

    closed spec fn view(&self) -> ValueView {
        self.value@
    }
}

impl RawValue {
    /// Renders the raw value as canonical text, if its type has a text
    /// rendering.  Rendering does not consume the value; the caller still
    /// owes the provider its release.
    pub fn render_text(&self) -> (r: Option<String>)
        ensures
            r.deep_view() == render_of(self@),
    {
        match &self.value {
            AttrValue::Text(t) => Some(t.clone()),
            AttrValue::Opaque => None,
        }
    }
}

/// What the provider answers when one attribute is requested from a row.
#[derive(Debug)]
pub enum FetchRaw {
    /// The attribute exists; its raw value is handed out.
    Got(RawValue),
    /// The row has no attribute of that name.
    NoSuchAttribute,
    /// The provider failed; the payload is the cause.
    Fault(String),
}

impl View for Row {
    type V = RowView;

    closed spec fn view(&self) -> RowView {
        RowView {
            attrs: self.attrs.deep_view(),
            fault: self.fault.deep_view(),
            fetched: self.fetched as nat,
            released: self.released as nat,
        }
    }
}

impl DeepView for Row {
    type V = RowView;

    open spec fn deep_view(&self) -> RowView {
        self.view()
    }
}

impl Row {
    /// A healthy row holding the given attributes.
    pub fn new(attrs: Vec<Attr>) -> (r: Row)
        ensures
            r@.attrs == attrs.deep_view(),
            r@.fault is None,
            r@.fetched == 0,
            r@.released == 0,
    {
        Row { attrs, fault: None, fetched: 0, released: 0 }
    }

    /// A row on which every fetch fails with the given cause, as when the
    /// connection to the provider is lost.
    pub fn with_fault(attrs: Vec<Attr>, cause: String) -> (r: Row)
        ensures
            r@.attrs == attrs.deep_view(),
            r@.fault == Some(cause@),
            r@.fetched == 0,
            r@.released == 0,
    {
        Row { attrs, fault: Some(cause), fetched: 0, released: 0 }
    }

    /// How many raw values of this row are fetched but not yet released.
    pub fn outstanding(&self) -> (r: usize)
        requires
            self@.released <= self@.fetched,
        ensures
            r == self@.fetched - self@.released,
    {
        self.fetched - self.released
    }

    /// How many raw values the provider has handed out for this row.
    pub fn fetched_count(&self) -> (r: usize)
        ensures
            r == self@.fetched,
    {
        self.fetched
    }

    /// How many raw values have been released again.
    pub fn released_count(&self) -> (r: usize)
        ensures
            r == self@.released,
    {
        self.released
    }

    /// Requests the raw value of the attribute named `name`, as the provider
    /// answers it: the pending fault if the connection is lost, "no such
    /// attribute" if the row lacks the name, and otherwise the raw value,
    /// which is counted as handed out until it is released.
    pub fn fetch(&mut self, name: &String) -> (r: FetchRaw)
        requires
            old(self)@.fetched < usize::MAX,
        ensures
            final(self)@.attrs == old(self)@.attrs,
            final(self)@.fault == old(self)@.fault,
            final(self)@.released == old(self)@.released,
            match old(self)@.fault {
                Some(cause) => {
                    &&& r matches FetchRaw::Fault(c) && c@ == cause
                    &&& final(self)@.fetched == old(self)@.fetched
                },
                None => match attr_of(old(self)@.attrs, name@) {
                    None => {
                        &&& r is NoSuchAttribute
                        &&& final(self)@.fetched == old(self)@.fetched
                    },
                    Some(v) => {
                        &&& r matches FetchRaw::Got(h) && h@ == v
                        &&& final(self)@.fetched == old(self)@.fetched + 1
                    },
                },
            },
    {
        if let Some(cause) = &self.fault {
            return FetchRaw::Fault(cause.clone());
        }
        let mut i: usize = 0;
        while i < self.attrs.len()
            invariant
                i <= self.attrs.len(),
                self.attrs == old(self).attrs,
                self.fault == old(self).fault,
                self.fetched == old(self).fetched,
                self.released == old(self).released,
                old(self)@.fetched < usize::MAX,
                self.fault is None,
                forall|j: int| 0 <= j < i ==> self.attrs.deep_view()[j].name != name@,
            decreases self.attrs.len() - i,
        {
            let hit = self.attrs[i].name == *name;
            proof {
                assert(self.attrs.deep_view()[i as int] == self.attrs@[i as int].deep_view());
            }
            if hit {
                proof {
                    assert(self.attrs.deep_view()[i as int].name == name@);
                    lemma_attr_of_skip(self.attrs.deep_view(), name@, i as int);
                    assert(self.attrs.deep_view().skip(i as int)[0] == self.attrs.deep_view()[
                        i as int
                    ]);
                }
                let got = match &self.attrs[i].value {
                    AttrValue::Text(t) => RawValue { value: AttrValue::Text(t.clone()) },
                    AttrValue::Opaque => RawValue { value: AttrValue::Opaque },
                };
                self.fetched = self.fetched + 1;
                return FetchRaw::Got(got);
            }
            i = i + 1;
        }
        proof {
            lemma_attr_of_skip(self.attrs.deep_view(), name@, self.attrs.len() as int);
            assert(self.attrs.deep_view().skip(self.attrs.len() as int).len() == 0);
        }
        FetchRaw::NoSuchAttribute
    }

    /// Gives a raw value back to the provider.  Taking the value by move,
    /// together with the accounting, is what makes "released exactly once"
    /// expressible: a released value cannot be released again.
    pub fn release(&mut self, v: RawValue)
        requires
            old(self)@.released < old(self)@.fetched,
        ensures
            final(self)@.attrs == old(self)@.attrs,
            final(self)@.fault == old(self)@.fault,
            final(self)@.fetched == old(self)@.fetched,
            final(self)@.released == old(self)@.released + 1,
    {
        let _ = v;
        self.released = self.released + 1;
    }
}

/// If no attribute among the first `k` is named `name`, the first match in
/// the whole bag is the first match past `k`.
proof fn lemma_attr_of_skip(attrs: Seq<AttrView>, name: Seq<char>, k: int)
    requires
        0 <= k <= attrs.len(),
        forall|j: int| 0 <= j < k ==> attrs[j].name != name,
    ensures
        attr_of(attrs, name) == attr_of(attrs.skip(k), name),
    decreases k,
{
    if k == 0 {
        assert(attrs.skip(0) =~= attrs);
    } else {
        assert(attrs[0].name != name);
        assert(forall|j: int| 0 <= j < k - 1 ==> attrs.skip(1)[j] == attrs[j + 1]);
        lemma_attr_of_skip(attrs.skip(1), name, k - 1);
        assert(attrs.skip(1).skip(k - 1) =~= attrs.skip(k));
    }
}

/// The classified outcome of reading one named attribute from a row: the
/// pending fault wins; otherwise a missing name is `Absent`, a value without
/// a text rendering is `TypeMismatch`, and a rendered value is `Present`
/// with its canonical text.
pub open spec fn outcome_of(row: RowView, name: Seq<char>) -> OutcomeView {
    match row.fault {
        Some(cause) => OutcomeView::Fatal(cause),
        None => match attr_of(row.attrs, name) {
            None => OutcomeView::Absent,
            Some(v) => match render_of(v) {
                Some(t) => OutcomeView::Present(t),
                None => OutcomeView::TypeMismatch,
            },
        },
    }
}

/// Whether reading `name` on `row` makes the provider hand out a raw value:
/// it does exactly when no fault is pending and the attribute exists.
pub open spec fn fetches_value(row: RowView, name: Seq<char>) -> bool {
    row.fault is None && attr_of(row.attrs, name) is Some
}

/// Reads one named attribute: requests its raw value, renders it as text,
/// and gives the raw value back to the provider on every path that obtained
/// one — also when the rendering fails — so no outcome leaks it.
pub fn read_attribute(row: &mut Row, name: &String) -> (o: FetchOutcome)
    requires
        old(row)@.fetched < usize::MAX,
        old(row)@.released <= old(row)@.fetched,
    ensures
        o@ == outcome_of(old(row)@, name@),
        final(row)@.attrs == old(row)@.attrs,
        final(row)@.fault == old(row)@.fault,
        final(row)@.fetched == old(row)@.fetched + if fetches_value(old(row)@, name@) {
            1int
        } else {
            0int
        },
        final(row)@.released == old(row)@.released + if fetches_value(old(row)@, name@) {
            1int
        } else {
            0int
        },
{
    match row.fetch(name) {
        FetchRaw::Fault(cause) => FetchOutcome::Fatal(cause),
        FetchRaw::NoSuchAttribute => FetchOutcome::Absent,
        FetchRaw::Got(v) => {
            let text = v.render_text();
            row.release(v);
            match text {
                Some(t) => FetchOutcome::Present(t),
                None => FetchOutcome::TypeMismatch,
            }
        },
    }
}

} // verus!
