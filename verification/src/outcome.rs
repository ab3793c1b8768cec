//! The outcome taxonomy for a single attribute fetch, the per-field recovery
//! policy, and the error taxonomy for a whole record build.

use vstd::prelude::*;

verus! {

/// The classified result of fetching one named attribute from a row.
#[derive(Debug)]
pub enum FetchOutcome {
    /// The attribute exists and its value was rendered as canonical text.
    Present(String),
    /// The row has no attribute of the requested name.
    Absent,
    /// The attribute exists but its value cannot be rendered as text.
    TypeMismatch,
    /// The provider failed for a reason other than a missing attribute;
    /// the payload is the cause.
    Fatal(String),
}

/// Mathematical image of a [`FetchOutcome`].
pub enum OutcomeView {
    Present(Seq<char>),
    Absent,
    TypeMismatch,
    Fatal(Seq<char>),
}

impl View for FetchOutcome {
    type V = OutcomeView;

    open spec fn view(&self) -> OutcomeView {
        match self {
            FetchOutcome::Present(t) => OutcomeView::Present(t@),
            FetchOutcome::Absent => OutcomeView::Absent,
            FetchOutcome::TypeMismatch => OutcomeView::TypeMismatch,
            FetchOutcome::Fatal(c) => OutcomeView::Fatal(c@),
        }
    }
}

/// What to do with a field whose attribute is absent or not text-renderable.
#[derive(Clone, Copy, Debug, PartialEq, Eq, Structural)]
pub enum Policy {
    /// Leave the field at its default; the record build goes on.
    UseDefault,
    /// Abort the record build with an attribute-level error.
    Fail,
}

/// Why a record build failed.
#[derive(Debug)]
pub enum BuildError {
    /// The remote namespace could not be reached or initialized.
    ConnectionError(String),
    /// The query was malformed or rejected by the provider.
    QueryError(String),
    /// The cursor yielded zero rows.
    RecordNotFound,
    /// A required attribute is not defined on the row.
    AttributeAbsent(String),
    /// A required attribute exists but cannot be rendered as text.
    AttributeTypeMismatch(String),
    /// The provider failed while an attribute was being fetched.
    Fatal(String),
    /// Text decoding failed after a successful provider fetch.
    MarshallingError(String),
}

/// Mathematical image of a [`BuildError`].
pub enum ErrorView {
    ConnectionError(Seq<char>),
    QueryError(Seq<char>),
    RecordNotFound,
    AttributeAbsent(Seq<char>),
    AttributeTypeMismatch(Seq<char>),
    Fatal(Seq<char>),
    MarshallingError(Seq<char>),
}

impl View for BuildError {
    type V = ErrorView;

    open spec fn view(&self) -> ErrorView {
        match self {
            BuildError::ConnectionError(c) => ErrorView::ConnectionError(c@),
            BuildError::QueryError(c) => ErrorView::QueryError(c@),
            BuildError::RecordNotFound => ErrorView::RecordNotFound,
            BuildError::AttributeAbsent(n) => ErrorView::AttributeAbsent(n@),
            BuildError::AttributeTypeMismatch(n) => ErrorView::AttributeTypeMismatch(n@),
            BuildError::Fatal(c) => ErrorView::Fatal(c@),
            BuildError::MarshallingError(c) => ErrorView::MarshallingError(c@),
        }
    }
}

impl BuildError {
    /// A short label naming the error variant, for reports and logs.
    pub fn label(&self) -> (r: &'static str)
        ensures
            r@ == match self@ {
                ErrorView::ConnectionError(_) => "connection error"@,
                ErrorView::QueryError(_) => "query error"@,
                ErrorView::RecordNotFound => "record not found"@,
                ErrorView::AttributeAbsent(_) => "attribute absent"@,
                ErrorView::AttributeTypeMismatch(_) => "attribute type mismatch"@,
                ErrorView::Fatal(_) => "provider failure"@,
                ErrorView::MarshallingError(_) => "marshalling error"@,
            },
    {
        match self {
            BuildError::ConnectionError(_) => "connection error",
            BuildError::QueryError(_) => "query error",
            BuildError::RecordNotFound => "record not found",
            BuildError::AttributeAbsent(_) => "attribute absent",
            BuildError::AttributeTypeMismatch(_) => "attribute type mismatch",
            BuildError::Fatal(_) => "provider failure",
            BuildError::MarshallingError(_) => "marshalling error",
        }
    }
}

/// The field a single descriptor contributes to the record, or the error that
/// aborts the whole build: `Present` text is kept; a miss (absent or not
/// text-renderable) is defaulted or escalated according to the policy; a
/// provider failure always aborts.
pub open spec fn field_of(o: OutcomeView, policy: Policy, name: Seq<char>) -> Result<
    Option<Seq<char>>,
    ErrorView,
> {
    match o {
        OutcomeView::Present(t) => Ok(Some(t)),
        OutcomeView::Absent => if policy is UseDefault {
            Ok(None)
        } else {
            Err(ErrorView::AttributeAbsent(name))
        },
        OutcomeView::TypeMismatch => if policy is UseDefault {
            Ok(None)
        } else {
            Err(ErrorView::AttributeTypeMismatch(name))
        },
        OutcomeView::Fatal(c) => Err(ErrorView::Fatal(c)),
    }
}

/// Mathematical image of one field's build result.
pub open spec fn field_result_view(r: Result<Option<String>, BuildError>) -> Result<
    Option<Seq<char>>,
    ErrorView,
> {
    match r {
        Ok(f) => Ok(f.deep_view()),
        Err(e) => Err(e@),
    }
}

/// Applies the recovery policy of the descriptor named `name` to the outcome
/// of its attribute fetch.
pub fn apply_policy(o: FetchOutcome, policy: Policy, name: &String) -> (r: Result<
    Option<String>,
    BuildError,
>)
    ensures
        field_result_view(r) == field_of(o@, policy, name@),
{
    match o {
        FetchOutcome::Present(t) => Ok(Some(t)),
        FetchOutcome::Absent => match policy {
            Policy::UseDefault => Ok(None),
            Policy::Fail => Err(BuildError::AttributeAbsent(name.clone())),
        },
        FetchOutcome::TypeMismatch => match policy {
            Policy::UseDefault => Ok(None),
            Policy::Fail => Err(BuildError::AttributeTypeMismatch(name.clone())),
        },
        FetchOutcome::Fatal(c) => Err(BuildError::Fatal(c)),
    }
}

/// A value that cannot be rendered as text is handled exactly as an absent
/// one wherever the policy tolerates the miss: both default the field.  Under
/// the aborting policy the two are reported as distinct errors.
pub proof fn lemma_mismatch_handled_as_absent(policy: Policy, name: Seq<char>)
    requires
        policy is UseDefault,
    ensures
        field_of(OutcomeView::TypeMismatch, policy, name) == field_of(
            OutcomeView::Absent,
            policy,
            name,
        ),
{
}

} // verus!
