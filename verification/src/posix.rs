//! Classification of POSIX error codes.

use vstd::prelude::*;
use crate::error::{Error, ErrorKind, ErrorView, IoFailure, IoFailureView, normalize_io_kind,
    normalized_io_kind};

verus! {

/// POSIX error codes, with the values Linux gives them.
pub const EBUSY: i32 = 16;

pub const EISDIR: i32 = 21;

pub const ELOOP: i32 = 40;

pub const ENOTDIR: i32 = 20;

pub const ENOENT: i32 = 2;

pub const ENODEV: i32 = 19;

pub const ENXIO: i32 = 6;

pub const EACCES: i32 = 13;

pub const EINVAL: i32 = 22;

pub const ENAMETOOLONG: i32 = 36;

pub const EINTR: i32 = 4;

pub const EWOULDBLOCK: i32 = 11;

/// The codes that mean the requested device is absent, inaccessible, or
/// named in a way that prevents opening it.
pub open spec fn is_no_device_code(code: i32) -> bool {
    ||| code == EBUSY
    ||| code == EISDIR
    ||| code == ELOOP
    ||| code == ENOTDIR
    ||| code == ENOENT
    ||| code == ENODEV
    ||| code == ENXIO
    ||| code == EACCES
}

/// The codes that mean the platform rejected an argument.
pub open spec fn is_invalid_input_code(code: i32) -> bool {
    code == EINVAL || code == ENAMETOOLONG
}

/// The partition of platform codes into kinds. It is total: any code outside
/// the named sets falls through to `IoOther`.
pub open spec fn kind_of_code(code: i32) -> ErrorKind {
    if is_no_device_code(code) {
        ErrorKind::NoDevice
    } else if is_invalid_input_code(code) {
        ErrorKind::InvalidInput
    } else if code == EINTR {
        ErrorKind::IoInterrupted
    } else if code == EWOULDBLOCK {
        ErrorKind::IoWouldBlock
    } else {
        ErrorKind::IoOther
    }
}

/// The text the platform associates with an error code; it depends on the
/// code alone.
pub uninterp spec fn errno_text(code: int) -> Seq<char>;

/// What classifying a platform code yields: its kind under the partition and
/// the platform's text for it.
pub open spec fn classified(code: i32) -> ErrorView {
    ErrorView { kind: kind_of_code(code), message: errno_text(code as int) }
}

/// Relies on nix::errno::Errno: `from_raw` followed by `desc` is a fixed
/// match from a code to a static description — every arm a non-empty string —
/// so the result depends on the code alone. The facility is total and
/// thread-safe: an unrecognized code degrades to a generic description
/// rather than failing, so no abort path exists here.
#[verifier::external_body]
pub fn error_string(errno: i32) -> (r: String)
    ensures
        r@ == errno_text(errno as int),
        r@.len() > 0,
{
    nix::errno::Errno::from_raw(errno).desc().to_string()
}

/// Classifies an explicit platform error code. Total: every code yields
/// exactly one kind, and the message is never empty.
pub fn from_raw_os_error(errno: i32) -> (r: Error)
    ensures
        r@ == classified(errno),
        r@.message.len() > 0,
{
    let kind = if errno == EBUSY || errno == EISDIR || errno == ELOOP || errno == ENOTDIR
        || errno == ENOENT || errno == ENODEV || errno == ENXIO || errno == EACCES {
        ErrorKind::NoDevice
    } else if errno == EINVAL || errno == ENAMETOOLONG {
        ErrorKind::InvalidInput
    } else if errno == EINTR {
        ErrorKind::IoInterrupted
    } else if errno == EWOULDBLOCK {
        ErrorKind::IoWouldBlock
    } else {
        ErrorKind::IoOther
    };

    Error::new(kind, error_string(errno))
}

/// What classifying a wrapped input/output failure yields: where a platform
/// code is embedded, the classification of that code; where none is, the
/// generic layer's own kind tag and its description verbatim.
pub open spec fn wrapped_classified(f: IoFailureView) -> ErrorView {
    match f.code {
        Some(code) => classified(code),
        None => ErrorView { kind: normalized_io_kind(f.kind), message: f.description },
    }
}

/// Classifies an already-raised generic input/output failure. A failure that
/// embeds a platform code is delegated to the code partition; any other keeps
/// its own kind tag and its description.
pub fn from_io_error(io_error: IoFailure) -> (r: Error)
    ensures
        r@ == wrapped_classified(io_error@),
{
    match io_error.code {
        Some(errno) => from_raw_os_error(errno),
        None => Error::new(normalize_io_kind(io_error.kind), io_error.description),
    }
}

/// Relies on nix::errno::Errno::last_raw, which reads the calling thread's
/// most recently recorded platform error code. Nothing can be promised of
/// the value it finds there.
#[verifier::external_body]
fn read_errno() -> i32 {
    nix::errno::Errno::last_raw()
}

/// Reads the calling thread's most recently recorded platform error code and
/// classifies it. Whatever code is found, the result is its classification,
/// with a non-empty message.
pub fn last_os_error() -> (r: Error)
    ensures
        exists|code: i32| r@ == classified(code),
        r@.message.len() > 0,
{
    let errno = read_errno();
    from_raw_os_error(errno)
}

/// Law: every code in the no-device set is classified as `NoDevice`.
pub proof fn lemma_no_device_codes(code: i32)
    requires
        is_no_device_code(code),
    ensures
        classified(code).kind == ErrorKind::NoDevice,
{
}

/// Law: every code in the invalid-input set is classified as `InvalidInput`.
pub proof fn lemma_invalid_input_codes(code: i32)
    requires
        is_invalid_input_code(code),
    ensures
        classified(code).kind == ErrorKind::InvalidInput,
{
}

/// Law: the partition is total — any code outside the named sets is
/// classified as `IoOther`.
pub proof fn lemma_other_codes(code: i32)
    requires
        !is_no_device_code(code),
        !is_invalid_input_code(code),
        code != EINTR,
        code != EWOULDBLOCK,
    ensures
        classified(code).kind == ErrorKind::IoOther,
{
}

/// Law: a wrapped failure that embeds a platform code is classified exactly
/// as that code itself — delegation is consistent.
pub proof fn lemma_wrapped_delegation(f: IoFailureView, code: i32)
    requires
        f.code == Some(code),
    ensures
        wrapped_classified(f) == classified(code),
{
}

/// Law: a wrapped failure without a platform code keeps the generic layer's
/// description verbatim, under the generic layer's own kind tag.
pub proof fn lemma_wrapped_description_kept(f: IoFailureView)
    requires
        f.code is None,
    ensures
        wrapped_classified(f).message == f.description,
        wrapped_classified(f).kind == normalized_io_kind(f.kind),
{
}

/// Law: classification is deterministic — two results of classifying the
/// same code are value-equal.
pub proof fn lemma_classify_idempotent(a: ErrorView, b: ErrorView, code: i32)
    requires
        a == classified(code),
        b == classified(code),
    ensures
        a == b,
{
}

} // verus!
