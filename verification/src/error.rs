use vstd::prelude::*;
use vstd::std_specs::cmp::PartialEqSpecImpl;
use futures_channel::mpsc::SendError;
use crate::transport::{send_error_text, send_error_to_string};

verus! {

/// The different kinds of errors that can happen when using the registry.
#[derive(Debug, Copy, Clone, PartialEq, Eq, Structural)]
pub enum ErrorKind {
    /// A channel reported that its receiving half is gone.
    SendError,
    /// The registry is closed: it takes no observers and no events any more.
    Closed,
    /// A bounded channel needs room for at least one event.
    MinChannelSizeOne,
}

impl PartialEq<&ErrorKind> for ErrorKind {
    fn eq(&self, other: &&ErrorKind) -> (r: bool) {
        *self == **other
    }
}

impl PartialEqSpecImpl<&ErrorKind> for ErrorKind {
    open spec fn obeys_eq_spec() -> bool {
        true
    }

    open spec fn eq_spec(&self, other: &&ErrorKind) -> bool {
        *self == **other
    }
}

impl PartialEq<ErrorKind> for &ErrorKind {
    fn eq(&self, other: &ErrorKind) -> (r: bool) {
        **self == *other
    }
}

impl PartialEqSpecImpl<ErrorKind> for &ErrorKind {
    open spec fn obeys_eq_spec() -> bool {
        true
    }

    open spec fn eq_spec(&self, other: &ErrorKind) -> bool {
        **self == *other
    }
}

impl ErrorKind {
    /// What the kind says of itself.
    pub open spec fn text(self) -> Seq<char> {
        match self {
            ErrorKind::SendError => "Channel closed."@,
            ErrorKind::Closed => "The pharos object is already closed."@,
            ErrorKind::MinChannelSizeOne =>
                "The minimum valid buffer size for Channel::Bounded is 1, you send in 0."@,
        }
    }

    /// The kind in words.
    pub fn to_string(&self) -> (text: String)
        ensures
            text@ == self.text(),
    {
        match self {
            ErrorKind::SendError => "Channel closed.".to_owned(),
            ErrorKind::Closed => "The pharos object is already closed.".to_owned(),
            ErrorKind::MinChannelSizeOne =>
                "The minimum valid buffer size for Channel::Bounded is 1, you send in 0."
                    .to_owned(),
        }
    }
}

/// The error type of this library: a kind, and the channel's own error where
/// one caused it.
#[derive(Debug)]
pub struct Error {
    inner: Option<SendError>,
    kind: ErrorKind,
}

impl Error {
    /// The kind of this error, as a value to reason about.
    pub closed spec fn kind_spec(&self) -> ErrorKind {
        self.kind
    }

    /// The channel error behind this error, if any.
    pub closed spec fn cause(&self) -> Option<SendError> {
        self.inner
    }

    /// The words for an error of `kind`: the kind's own, then those of the
    /// cause, where there is one.
    pub open spec fn composed(kind: ErrorKind, cause: Option<Seq<char>>) -> Seq<char> {
        "pharos::Error: "@ + kind.text() + match cause {
            Some(words) => " Caused by: "@ + words,
            None => Seq::empty(),
        }
    }

    /// The error in words: composed of its kind and of what the channel's
    /// error says, where one caused it.
    pub open spec fn text(&self) -> Seq<char> {
        Self::composed(
            self.kind_spec(),
            match self.cause() {
                Some(inner) => Some(send_error_text(inner)),
                None => None,
            },
        )
    }

    /// Puts an error's words together from its kind and from what its cause
    /// says.
    pub fn compose(kind: ErrorKind, cause: Option<&str>) -> (text: String)
        ensures
            text@ == Self::composed(
                kind,
                match cause {
                    Some(words) => Some(words@),
                    None => None,
                },
            ),
    {
        let mut text = "pharos::Error: ".to_owned();
        text.push_str(kind.to_string().as_str());
        if let Some(words) = cause {
            text.push_str(" Caused by: ");
            text.push_str(words);
        }
        text
    }

    /// The channel's error that caused this one, if one did.
    pub fn source(&self) -> (inner: Option<&SendError>)
        ensures
            match inner {
                Some(e) => self.cause() == Some(*e),
                None => self.cause() is None,
            },
    {
        self.inner.as_ref()
    }

    /// The error in words.
    pub fn to_string(&self) -> (text: String)
        ensures
            text@ == self.text(),
    {
        match &self.inner {
            Some(inner) => {
                let words = send_error_to_string(inner);
                Self::compose(self.kind, Some(words.as_str()))
            },
            None => Self::compose(self.kind, None),
        }
    }

    /// Identify which error happened.
    pub fn kind(&self) -> (k: &ErrorKind)
        ensures
            *k == self.kind_spec(),
    {
        &self.kind
    }
}

/// An error of the given kind, with no channel error behind it.
impl From<ErrorKind> for Error {
    fn from(kind: ErrorKind) -> (e: Error)
        ensures
            e.kind_spec() == kind,
            e.cause() is None,
    {
        Error { inner: None, kind }
    }
}

impl vstd::std_specs::convert::FromSpecImpl<ErrorKind> for Error {
    open spec fn obeys_from_spec() -> bool {
        true
    }

    closed spec fn from_spec(kind: ErrorKind) -> Error {
        Error { inner: None, kind }
    }
}

/// An error of kind `SendError`, with the channel's error behind it.
impl From<SendError> for Error {
    fn from(inner: SendError) -> (e: Error)
        ensures
            e.kind_spec() == ErrorKind::SendError,
            e.cause() == Some(inner),
    {
        Error { inner: Some(inner), kind: ErrorKind::SendError }
    }
}

impl vstd::std_specs::convert::FromSpecImpl<SendError> for Error {
    open spec fn obeys_from_spec() -> bool {
        true
    }

    closed spec fn from_spec(inner: SendError) -> Error {
        Error { inner: Some(inner), kind: ErrorKind::SendError }
    }
}

} // verus!
