//! Errors of inference, signature resolution and assignability, and their
//! model.
use vstd::prelude::*;
use crate::ty::{members_model, type_model, Member, MemberV, Type, TypeV};

verus! {

/// A region of source text, by byte offsets.
#[derive(Clone, Copy, Debug, PartialEq, Eq, Structural)]
pub struct Span {
    pub lo: u32,
    pub hi: u32,
}

/// Why an operation failed. Composite kinds hold the causes of their parts.
pub enum Error {
    UndefinedSymbol { span: Span },
    NoCallSignature { span: Span },
    NoNewSignature { span: Span },
    /// More type arguments were given than the signature declares; the
    /// accepted counts are `expected`.
    WrongTypeParams { span: Span, expected: std::ops::Range<usize>, actual: usize },
    /// Fewer arguments were given than the signature declares parameters; the
    /// range ends at the number of parameters.
    WrongParams { span: Span, expected: std::ops::Range<usize>, actual: usize },
    AssignFailed { span: Span, left: Type, right: Type, cause: Vec<Error> },
    UnionError { span: Span, errors: Vec<Error> },
    IntersectionError { span: Span, error: Box<Error> },
    MissingFields { span: Span, fields: Vec<Member> },
    CannotAssignToThis { span: Span },
    Unsupported { span: Span, description: String },
}

/// The model of an error: its kind, span and parts. Counts are integers and
/// a range is its two ends.
pub enum ErrorV {
    UndefinedSymbol { span: Span },
    NoCallSignature { span: Span },
    NoNewSignature { span: Span },
    WrongTypeParams { span: Span, start: int, end: int, actual: int },
    WrongParams { span: Span, start: int, end: int, actual: int },
    AssignFailed { span: Span, left: TypeV, right: TypeV, cause: Seq<ErrorV> },
    UnionError { span: Span, errors: Seq<ErrorV> },
    IntersectionError { span: Span, error: Box<ErrorV> },
    MissingFields { span: Span, fields: Seq<MemberV> },
    CannotAssignToThis { span: Span },
    Unsupported { span: Span, description: Seq<char> },
}

pub open spec fn error_model(e: &Error) -> ErrorV
    decreases e,
{
    match e {
        Error::UndefinedSymbol { span } => ErrorV::UndefinedSymbol { span: *span },
        Error::NoCallSignature { span } => ErrorV::NoCallSignature { span: *span },
        Error::NoNewSignature { span } => ErrorV::NoNewSignature { span: *span },
        Error::WrongTypeParams { span, expected, actual } => ErrorV::WrongTypeParams {
            span: *span,
            start: expected.start as int,
            end: expected.end as int,
            actual: *actual as int,
        },
        Error::WrongParams { span, expected, actual } => ErrorV::WrongParams {
            span: *span,
            start: expected.start as int,
            end: expected.end as int,
            actual: *actual as int,
        },
        Error::AssignFailed { span, left, right, cause } => ErrorV::AssignFailed {
            span: *span,
            left: type_model(left),
            right: type_model(right),
            cause: errors_model(cause@),
        },
        Error::UnionError { span, errors } => ErrorV::UnionError {
            span: *span,
            errors: errors_model(errors@),
        },
        Error::IntersectionError { span, error } => ErrorV::IntersectionError {
            span: *span,
            error: Box::new(error_model(error)),
        },
        Error::MissingFields { span, fields } => ErrorV::MissingFields {
            span: *span,
            fields: members_model(fields@),
        },
        Error::CannotAssignToThis { span } => ErrorV::CannotAssignToThis { span: *span },
        Error::Unsupported { span, description } => ErrorV::Unsupported {
            span: *span,
            description: description@,
        },
    }
}

pub open spec fn errors_model(s: Seq<Error>) -> Seq<ErrorV>
    decreases s,
{
    Seq::new(
        s.len(),
        |i: int|
            if 0 <= i < s.len() {
                error_model(&s[i])
            } else {
                ErrorV::Unsupported { span: Span { lo: 0, hi: 0 }, description: Seq::empty() }
            },
    )
}

impl View for Error {
    type V = ErrorV;

    open spec fn view(&self) -> ErrorV {
        error_model(self)
    }
}

/// The model of a result that holds a type or an error.
pub open spec fn type_result(r: &Result<Type, Error>) -> Result<TypeV, ErrorV> {
    match r {
        Ok(t) => Ok(t@),
        Err(e) => Err(e@),
    }
}

/// The model of a result that holds nothing or an error.
pub open spec fn unit_result(r: &Result<(), Error>) -> Result<(), ErrorV> {
    match r {
        Ok(_) => Ok(()),
        Err(e) => Err(e@),
    }
}

} // verus!
