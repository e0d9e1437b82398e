use vstd::prelude::*;

use crate::text::push_str;

verus! {

/// Error kind.
#[derive(Clone, Copy, Debug, PartialEq, Eq, Structural)]
pub enum ErrorKind {
    /// Handler not found.
    NotFound,
    /// An unknown error.
    Unknown,
}

/// The description of an error kind.
pub open spec fn kind_text(kind: ErrorKind) -> Seq<char> {
    match kind {
        ErrorKind::NotFound => "handler not found"@,
        ErrorKind::Unknown => "unknown error"@,
    }
}

impl ErrorKind {
    /// Returns the description of the error kind.
    pub fn as_str(&self) -> (s: &str)
        ensures
            s@ == kind_text(*self),
    {
        proof {
            reveal_strlit("handler not found");
            reveal_strlit("unknown error");
        }
        match *self {
            ErrorKind::NotFound => "handler not found",
            ErrorKind::Unknown => "unknown error",
        }
    }
}

/// What an error holds: a kind, and a description where one was given.
pub enum ErrorModel {
    /// An error with a kind.
    Kind(ErrorKind),
    /// An error with a description.
    WithDescription(ErrorKind, Seq<char>),
}

#[derive(Debug)]
enum ErrorRepr {
    /// An error with a kind.
    Kind(ErrorKind),
    /// An error with a description.
    WithDescription(ErrorKind, String),
}

/// Error type for mediator
#[derive(Debug)]
pub struct Error {
    repr: ErrorRepr,
}

impl View for Error {
    type V = ErrorModel;

    closed spec fn view(&self) -> ErrorModel {
        match self.repr {
            ErrorRepr::Kind(k) => ErrorModel::Kind(k),
            ErrorRepr::WithDescription(k, d) => ErrorModel::WithDescription(k, d@),
        }
    }
}

/// The text that an error displays: the description of its kind, or the
/// description it was given (alone for an unknown error, after the kind's
/// description and a colon for any other kind).
pub open spec fn error_text(e: ErrorModel) -> Seq<char> {
    match e {
        ErrorModel::Kind(k) => kind_text(k),
        ErrorModel::WithDescription(k, d) => match k {
            ErrorKind::Unknown => d,
            _ => kind_text(k) + ": "@ + d,
        },
    }
}

/// The kind of an error.
pub open spec fn model_kind(e: ErrorModel) -> ErrorKind {
    match e {
        ErrorModel::Kind(k) => k,
        ErrorModel::WithDescription(k, _) => k,
    }
}

impl Error {
    /// Creates an error of the given kind with a description.
    pub fn new(kind: ErrorKind, description: &str) -> (e: Error)
        ensures
            e@ == ErrorModel::WithDescription(kind, description@),
    {
        Error { repr: ErrorRepr::WithDescription(kind, description.to_owned()) }
    }

    /// Returns the kind of this error.
    pub fn kind(&self) -> (k: ErrorKind)
        ensures
            k == model_kind(self@),
    {
        match &self.repr {
            ErrorRepr::Kind(k) => *k,
            ErrorRepr::WithDescription(k, _) => *k,
        }
    }

    /// The description this error was given, if any.
    pub fn description(&self) -> (d: Option<String>)
        ensures
            match self@ {
                ErrorModel::Kind(_) => d is None,
                ErrorModel::WithDescription(_, text) => d is Some && d->0@ == text,
            },
    {
        match &self.repr {
            ErrorRepr::Kind(_) => None,
            ErrorRepr::WithDescription(_, d) => Some(d.clone()),
        }
    }

    /// The text this error displays.
    pub fn to_string(&self) -> (s: String)
        ensures
            s@ == error_text(self@),
    {
        match &self.repr {
            ErrorRepr::Kind(k) => k.as_str().to_owned(),
            ErrorRepr::WithDescription(k, d) => match k {
                ErrorKind::Unknown => d.clone(),
                _ => {
                    let mut s = k.as_str().to_owned();
                    proof {
                        reveal_strlit(": ");
                    }
                    push_str(&mut s, ": ");
                    push_str(&mut s, d.as_str());
                    s
                },
            },
        }
    }
}

impl From<ErrorKind> for Error {
    fn from(kind: ErrorKind) -> (e: Error) {
        Error { repr: ErrorRepr::Kind(kind) }
    }
}

impl vstd::std_specs::convert::FromSpecImpl<ErrorKind> for Error {
    open spec fn obeys_from_spec() -> bool {
        true
    }

    closed spec fn from_spec(kind: ErrorKind) -> Error {
        Error { repr: ErrorRepr::Kind(kind) }
    }
}

/// What an error made from a kind holds.
pub broadcast proof fn lemma_error_from_kind(kind: ErrorKind)
    ensures
        (#[trigger] <Error as vstd::std_specs::convert::FromSpec<ErrorKind>>::from_spec(kind))@
            == ErrorModel::Kind(kind),
{
}

impl PartialEq for Error {
    fn eq(&self, other: &Error) -> (r: bool) {
        match (&self.repr, &other.repr) {
            (ErrorRepr::Kind(a), ErrorRepr::Kind(b)) => *a == *b,
            (ErrorRepr::WithDescription(a, d1), ErrorRepr::WithDescription(b, d2)) => {
                *a == *b && *d1 == *d2
            },
            _ => false,
        }
    }
}

impl vstd::std_specs::cmp::PartialEqSpecImpl for Error {
    open spec fn obeys_eq_spec() -> bool {
        true
    }

    open spec fn eq_spec(&self, other: &Error) -> bool {
        self@ == other@
    }
}

impl Eq for Error {}

} // verus!
