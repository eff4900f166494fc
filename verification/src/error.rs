//! The normalized error value and the input shapes that are folded into it.

use vstd::prelude::*;

verus! {

/// The closed classification that every platform failure is folded into.
/// Callers can match on it exhaustively; there is no escape hatch beyond
/// `IoOther` and `Unknown`.
#[derive(Clone, Copy, Debug, PartialEq, Eq, Structural)]
pub enum ErrorKind {
    /// The requested device is absent, inaccessible, or named in a way that
    /// prevents opening it.
    NoDevice,
    /// The platform rejected an argument.
    InvalidInput,
    /// The operation was interrupted; the caller may retry.
    IoInterrupted,
    /// The operation would have to block; the caller should back off or poll.
    IoWouldBlock,
    /// Any other input/output failure.
    IoOther,
    /// A failure the platform reports without a usable class.
    Unknown,
}

/// The mathematical value of a normalized error: its kind and its message.
pub struct ErrorView {
    pub kind: ErrorKind,
    pub message: Seq<char>,
}

/// A normalized error: one kind out of the closed set and a descriptive
/// message. It is built once, when a platform failure is observed, and then
/// only passed along.
#[derive(Debug, PartialEq, Eq)]
pub struct Error {
    pub kind: ErrorKind,
    pub message: String,
}

impl View for Error {
    type V = ErrorView;

    open spec fn view(&self) -> ErrorView {
        ErrorView { kind: self.kind, message: self.message@ }
    }
}

impl Error {
    pub fn new(kind: ErrorKind, message: String) -> (r: Error)
        ensures
            r@ == (ErrorView { kind, message: message@ }),
    {
        Error { kind, message }
    }
}

/// The kind tag a generic input/output layer puts on its own failures, as far
/// as this library reads it: interrupted, would-block, or anything else.
#[derive(Clone, Copy, Debug, PartialEq, Eq, Structural)]
pub enum IoFailureKind {
    Interrupted,
    WouldBlock,
    Other,
}

/// How a generic layer's kind tag reads in the normalized taxonomy.
pub open spec fn normalized_io_kind(kind: IoFailureKind) -> ErrorKind {
    match kind {
        IoFailureKind::Interrupted => ErrorKind::IoInterrupted,
        IoFailureKind::WouldBlock => ErrorKind::IoWouldBlock,
        IoFailureKind::Other => ErrorKind::IoOther,
    }
}

pub fn normalize_io_kind(kind: IoFailureKind) -> (r: ErrorKind)
    ensures
        r == normalized_io_kind(kind),
{
    match kind {
        IoFailureKind::Interrupted => ErrorKind::IoInterrupted,
        IoFailureKind::WouldBlock => ErrorKind::IoWouldBlock,
        IoFailureKind::Other => ErrorKind::IoOther,
    }
}

/// The mathematical value of a wrapped input/output failure.
pub struct IoFailureView {
    pub code: Option<i32>,
    pub kind: IoFailureKind,
    pub description: Seq<char>,
}

/// An already-raised failure of a generic input/output layer: the platform
/// code it embeds, if any, its own kind tag, and its own description.
#[derive(Debug)]
pub struct IoFailure {
    pub code: Option<i32>,
    pub kind: IoFailureKind,
    pub description: String,
}

impl View for IoFailure {
    type V = IoFailureView;

    open spec fn view(&self) -> IoFailureView {
        IoFailureView { code: self.code, kind: self.kind, description: self.description@ }
    }
}

/// A device-enumeration library's own three-way classification of a failure,
/// as far as this library reads it.
#[derive(Clone, Copy, Debug, PartialEq, Eq, Structural)]
pub enum EnumerationFailureKind {
    /// The enumeration library ran out of memory.
    NoMem,
    /// The enumeration library rejected an argument.
    InvalidInput,
    /// An input/output failure, with the generic layer's kind tag.
    Io(IoFailureKind),
}

/// The mathematical value of a device-enumeration failure.
pub struct EnumerationFailureView {
    pub kind: EnumerationFailureKind,
    pub description: Seq<char>,
}

/// A failure raised by a platform's device-enumeration library: its own
/// classification and its own description.
#[derive(Debug)]
pub struct EnumerationFailure {
    pub kind: EnumerationFailureKind,
    pub description: String,
}

impl View for EnumerationFailure {
    type V = EnumerationFailureView;

    open spec fn view(&self) -> EnumerationFailureView {
        EnumerationFailureView { kind: self.kind, description: self.description@ }
    }
}

/// What normalizing a device-enumeration failure yields: out-of-memory maps
/// to `Unknown`, a rejected argument to `InvalidInput`, an input/output
/// failure to the matching input/output kind; the description is kept
/// verbatim.
pub open spec fn enum_classified(f: EnumerationFailureView) -> ErrorView {
    ErrorView {
        kind: match f.kind {
            EnumerationFailureKind::NoMem => ErrorKind::Unknown,
            EnumerationFailureKind::InvalidInput => ErrorKind::InvalidInput,
            EnumerationFailureKind::Io(kind) => normalized_io_kind(kind),
        },
        message: f.description,
    }
}

impl From<EnumerationFailure> for Error {
    fn from(f: EnumerationFailure) -> (r: Error) {
        let kind = match f.kind {
            EnumerationFailureKind::NoMem => ErrorKind::Unknown,
            EnumerationFailureKind::InvalidInput => ErrorKind::InvalidInput,
            EnumerationFailureKind::Io(kind) => normalize_io_kind(kind),
        };
        Error { kind, message: f.description }
    }
}

impl vstd::std_specs::convert::FromSpecImpl<EnumerationFailure> for Error {
    open spec fn obeys_from_spec() -> bool {
        true
    }

    open spec fn from_spec(f: EnumerationFailure) -> Error {
        Error {
            kind: match f.kind {
                EnumerationFailureKind::NoMem => ErrorKind::Unknown,
                EnumerationFailureKind::InvalidInput => ErrorKind::InvalidInput,
                EnumerationFailureKind::Io(kind) => normalized_io_kind(kind),
            },
            message: f.description,
        }
    }
}

/// Law: normalizing a device-enumeration failure through `Error::from` yields
/// exactly the value that `enum_classified` gives of its view; in particular
/// an invalid-input failure yields kind `InvalidInput` with its description
/// kept verbatim.
pub proof fn lemma_from_enumeration_failure(f: EnumerationFailure)
    ensures
        (<Error as vstd::std_specs::convert::FromSpec<EnumerationFailure>>::from_spec(f))@
            == enum_classified(f@),
        f.kind is InvalidInput ==> enum_classified(f@) == (ErrorView {
            kind: ErrorKind::InvalidInput,
            message: f.description@,
        }),
{
}

} // verus!
