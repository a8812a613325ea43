//! Transport errors: the classification of libusb status codes.

use libusb1_sys::constants::{
    LIBUSB_ERROR_ACCESS, LIBUSB_ERROR_BUSY, LIBUSB_ERROR_INTERRUPTED, LIBUSB_ERROR_INVALID_PARAM,
    LIBUSB_ERROR_IO, LIBUSB_ERROR_NOT_FOUND, LIBUSB_ERROR_NOT_SUPPORTED, LIBUSB_ERROR_NO_DEVICE,
    LIBUSB_ERROR_NO_MEM, LIBUSB_ERROR_OVERFLOW, LIBUSB_ERROR_PIPE, LIBUSB_ERROR_TIMEOUT,
};
use std::backtrace::Backtrace;
use vstd::prelude::*;

verus! {

/// std's `Backtrace`, held opaque: only carried along, never read.
#[verifier::external_type_specification]
#[verifier::external_body]
pub struct ExBacktrace(Backtrace);

/// Relies on std's `Backtrace::capture`: a snapshot of the calling thread's
/// stack. What it holds depends on the machine and the environment, so
/// nothing is stated of it.
#[verifier::external_body]
fn capture_backtrace() -> (r: Backtrace) {
    Backtrace::capture()
}

/// Kinds of transport errors.
#[derive(Debug, Clone, Copy, PartialEq, Eq, Structural)]
pub enum ErrorKind {
    /// Input/output error.
    Io,
    /// Invalid parameter.
    InvalidParam,
    /// Access denied (insufficient permissions).
    Access,
    /// No such device (it may have been disconnected).
    NoDevice,
    /// Entity not found.
    NotFound,
    /// Resource busy.
    Busy,
    /// Operation timed out.
    Timeout,
    /// Overflow.
    Overflow,
    /// Pipe error.
    Pipe,
    /// System call interrupted (perhaps due to signal).
    Interrupted,
    /// Insufficient memory.
    NoMem,
    /// Operation not supported or unimplemented on this platform.
    NotSupported,
    /// The device returned a malformed descriptor.
    BadDescriptor,
    /// Other error.
    Other,
}

/// The libusb error status codes that have a kind of their own.
struct StatusCodes {
    io: i32,
    invalid_param: i32,
    access: i32,
    no_device: i32,
    not_found: i32,
    busy: i32,
    timeout: i32,
    overflow: i32,
    pipe: i32,
    interrupted: i32,
    no_mem: i32,
    not_supported: i32,
}

/// Relies on the `LIBUSB_ERROR_*` constants of `libusb1_sys::constants`,
/// which are libusb's status codes.
#[verifier::external_body]
fn libusb_status_codes() -> (r: StatusCodes)
    ensures
        r.io == -1,
        r.invalid_param == -2,
        r.access == -3,
        r.no_device == -4,
        r.not_found == -5,
        r.busy == -6,
        r.timeout == -7,
        r.overflow == -8,
        r.pipe == -9,
        r.interrupted == -10,
        r.no_mem == -11,
        r.not_supported == -12,
{
    StatusCodes {
        io: LIBUSB_ERROR_IO,
        invalid_param: LIBUSB_ERROR_INVALID_PARAM,
        access: LIBUSB_ERROR_ACCESS,
        no_device: LIBUSB_ERROR_NO_DEVICE,
        not_found: LIBUSB_ERROR_NOT_FOUND,
        busy: LIBUSB_ERROR_BUSY,
        timeout: LIBUSB_ERROR_TIMEOUT,
        overflow: LIBUSB_ERROR_OVERFLOW,
        pipe: LIBUSB_ERROR_PIPE,
        interrupted: LIBUSB_ERROR_INTERRUPTED,
        no_mem: LIBUSB_ERROR_NO_MEM,
        not_supported: LIBUSB_ERROR_NOT_SUPPORTED,
    }
}

/// Whether a raw libusb status code is one of those with a kind of its own.
pub open spec fn is_known_code(code: int) -> bool {
    -12 <= code <= -1
}

/// The kind that a raw libusb status code is classified as. Every code
/// outside the known set, `LIBUSB_ERROR_OTHER` (-99) among them, is `Other`.
pub open spec fn kind_of_code(code: int) -> ErrorKind {
    if code == -1 {
        ErrorKind::Io
    } else if code == -2 {
        ErrorKind::InvalidParam
    } else if code == -3 {
        ErrorKind::Access
    } else if code == -4 {
        ErrorKind::NoDevice
    } else if code == -5 {
        ErrorKind::NotFound
    } else if code == -6 {
        ErrorKind::Busy
    } else if code == -7 {
        ErrorKind::Timeout
    } else if code == -8 {
        ErrorKind::Overflow
    } else if code == -9 {
        ErrorKind::Pipe
    } else if code == -10 {
        ErrorKind::Interrupted
    } else if code == -11 {
        ErrorKind::NoMem
    } else if code == -12 {
        ErrorKind::NotSupported
    } else {
        ErrorKind::Other
    }
}

/// The fixed sentence that describes each kind.
pub open spec fn kind_message(kind: ErrorKind) -> Seq<char> {
    match kind {
        ErrorKind::Io => "Input/Output Error"@,
        ErrorKind::InvalidParam => "Invalid parameter"@,
        ErrorKind::Access => "Access denied (insufficient permissions)"@,
        ErrorKind::NoDevice => "No such device (it may have been disconnected)"@,
        ErrorKind::NotFound => "Entity not found"@,
        ErrorKind::Busy => "Resource busy"@,
        ErrorKind::Timeout => "Operation timed out"@,
        ErrorKind::Overflow => "Overflow"@,
        ErrorKind::Pipe => "Pipe error"@,
        ErrorKind::Interrupted => "System call interrupted (perhaps due to signal)"@,
        ErrorKind::NoMem => "Insufficient memory"@,
        ErrorKind::NotSupported => "Operation not supported or unimplemented on this platform"@,
        ErrorKind::BadDescriptor => "Malformed descriptor"@,
        ErrorKind::Other => "Other error"@,
    }
}

/// Every status code outside the known set is classified as `Other`, the
/// smallest and largest `i32` among them.
pub proof fn lemma_unknown_code_is_other(code: int)
    requires
        !is_known_code(code),
    ensures
        kind_of_code(code) == ErrorKind::Other,
{
}

/// The sentence that describes a kind is never empty.
pub proof fn lemma_kind_message_nonempty(kind: ErrorKind)
    ensures
        kind_message(kind).len() > 0,
{
    reveal_strlit("Input/Output Error");
    reveal_strlit("Invalid parameter");
    reveal_strlit("Access denied (insufficient permissions)");
    reveal_strlit("No such device (it may have been disconnected)");
    reveal_strlit("Entity not found");
    reveal_strlit("Resource busy");
    reveal_strlit("Operation timed out");
    reveal_strlit("Overflow");
    reveal_strlit("Pipe error");
    reveal_strlit("System call interrupted (perhaps due to signal)");
    reveal_strlit("Insufficient memory");
    reveal_strlit("Operation not supported or unimplemented on this platform");
    reveal_strlit("Malformed descriptor");
    reveal_strlit("Other error");
}

/// Two transport errors of one kind are described by the same text, whatever
/// their backtraces hold.
pub proof fn lemma_message_ignores_backtrace(a: Error, b: Error)
    requires
        a.kind == b.kind,
    ensures
        kind_message(a.kind) == kind_message(b.kind),
{
}

impl ErrorKind {
    /// An error of this kind, with a backtrace captured here.
    pub fn error(self) -> (r: Error)
        ensures
            r.kind == self,
    {
        Error::new(self, capture_backtrace())
    }

    /// An error of this kind, with the given backtrace.
    pub fn error_from(self, backtrace: Backtrace) -> (r: Error)
        ensures
            r.kind == self,
            *r.backtrace == backtrace,
    {
        Error::new(self, backtrace)
    }

    /// The fixed sentence that describes this kind.
    pub fn message(&self) -> (r: &'static str)
        ensures
            r@ == kind_message(*self),
    {
        match self {
            ErrorKind::Io => "Input/Output Error",
            ErrorKind::InvalidParam => "Invalid parameter",
            ErrorKind::Access => "Access denied (insufficient permissions)",
            ErrorKind::NoDevice => "No such device (it may have been disconnected)",
            ErrorKind::NotFound => "Entity not found",
            ErrorKind::Busy => "Resource busy",
            ErrorKind::Timeout => "Operation timed out",
            ErrorKind::Overflow => "Overflow",
            ErrorKind::Pipe => "Pipe error",
            ErrorKind::Interrupted => "System call interrupted (perhaps due to signal)",
            ErrorKind::NoMem => "Insufficient memory",
            ErrorKind::NotSupported => "Operation not supported or unimplemented on this platform",
            ErrorKind::BadDescriptor => "Malformed descriptor",
            ErrorKind::Other => "Other error",
        }
    }
}

/// An error returned by a libusb call: its kind, and the stack at the point
/// where it was made.
#[derive(Debug)]
pub struct Error {
    pub kind: ErrorKind,
    pub backtrace: Box<Backtrace>,
}

impl Error {
    /// An error of the given kind that holds the given backtrace.
    pub fn new(kind: ErrorKind, backtrace: Backtrace) -> (r: Self)
        ensures
            r.kind == kind,
            *r.backtrace == backtrace,
    {
        Self { kind, backtrace: Box::new(backtrace) }
    }

    /// The text that describes this error: that of its kind, whatever the
    /// backtrace holds.
    pub fn message(&self) -> (r: String)
        ensures
            r@ == kind_message(self.kind),
    {
        String::from_str(self.kind.message())
    }
}

/// The error for a status code returned by a libusb call, with a backtrace
/// captured here.
pub fn from_libusb(err: i32) -> (r: Error)
    ensures
        r.kind == kind_of_code(err as int),
{
    let c = libusb_status_codes();
    let kind = if err == c.io {
        ErrorKind::Io
    } else if err == c.invalid_param {
        ErrorKind::InvalidParam
    } else if err == c.access {
        ErrorKind::Access
    } else if err == c.no_device {
        ErrorKind::NoDevice
    } else if err == c.not_found {
        ErrorKind::NotFound
    } else if err == c.busy {
        ErrorKind::Busy
    } else if err == c.timeout {
        ErrorKind::Timeout
    } else if err == c.overflow {
        ErrorKind::Overflow
    } else if err == c.pipe {
        ErrorKind::Pipe
    } else if err == c.interrupted {
        ErrorKind::Interrupted
    } else if err == c.no_mem {
        ErrorKind::NoMem
    } else if err == c.not_supported {
        ErrorKind::NotSupported
    } else {
        ErrorKind::Other
    };
    kind.error_from(capture_backtrace())
}

} // verus!
