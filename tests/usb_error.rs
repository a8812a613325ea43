use bmputil::usb_error::{from_libusb, Error, ErrorKind};
use libusb1_sys::constants::{
    LIBUSB_ERROR_ACCESS, LIBUSB_ERROR_BUSY, LIBUSB_ERROR_INTERRUPTED, LIBUSB_ERROR_INVALID_PARAM,
    LIBUSB_ERROR_IO, LIBUSB_ERROR_NOT_FOUND, LIBUSB_ERROR_NOT_SUPPORTED, LIBUSB_ERROR_NO_DEVICE,
    LIBUSB_ERROR_NO_MEM, LIBUSB_ERROR_OTHER, LIBUSB_ERROR_OVERFLOW, LIBUSB_ERROR_PIPE,
    LIBUSB_ERROR_TIMEOUT,
};
use std::backtrace::Backtrace;

#[test]
fn known_codes_map_to_their_kinds() {
    let table = [
        (LIBUSB_ERROR_IO, ErrorKind::Io),
        (LIBUSB_ERROR_INVALID_PARAM, ErrorKind::InvalidParam),
        (LIBUSB_ERROR_ACCESS, ErrorKind::Access),
        (LIBUSB_ERROR_NO_DEVICE, ErrorKind::NoDevice),
        (LIBUSB_ERROR_NOT_FOUND, ErrorKind::NotFound),
        (LIBUSB_ERROR_BUSY, ErrorKind::Busy),
        (LIBUSB_ERROR_TIMEOUT, ErrorKind::Timeout),
        (LIBUSB_ERROR_OVERFLOW, ErrorKind::Overflow),
        (LIBUSB_ERROR_PIPE, ErrorKind::Pipe),
        (LIBUSB_ERROR_INTERRUPTED, ErrorKind::Interrupted),
        (LIBUSB_ERROR_NO_MEM, ErrorKind::NoMem),
        (LIBUSB_ERROR_NOT_SUPPORTED, ErrorKind::NotSupported),
        (LIBUSB_ERROR_OTHER, ErrorKind::Other),
    ];
    for (code, kind) in table {
        assert_eq!(from_libusb(code).kind, kind);
    }
}

#[test]
fn raw_code_values_are_classified() {
    assert_eq!(from_libusb(-1).kind, ErrorKind::Io);
    assert_eq!(from_libusb(-3).kind, ErrorKind::Access);
    assert_eq!(from_libusb(-5).kind, ErrorKind::NotFound);
    assert_eq!(from_libusb(-12).kind, ErrorKind::NotSupported);
    assert_eq!(from_libusb(-99).kind, ErrorKind::Other);
}

#[test]
fn unknown_codes_are_other() {
    for code in [-9999, -13, 0, 1, 42, -100] {
        assert_eq!(from_libusb(code).kind, ErrorKind::Other);
    }
}

#[test]
fn extreme_codes_do_not_panic() {
    assert_eq!(from_libusb(i32::MIN).kind, ErrorKind::Other);
    assert_eq!(from_libusb(i32::MAX).kind, ErrorKind::Other);
}

#[test]
fn access_denied_scenario() {
    let e = from_libusb(LIBUSB_ERROR_ACCESS);
    assert_eq!(e.kind, ErrorKind::Access);
    assert_eq!(e.message(), "Access denied (insufficient permissions)");
}

#[test]
fn unrecognized_code_scenario() {
    let e = from_libusb(-9999);
    assert_eq!(e.kind, ErrorKind::Other);
    assert_eq!(e.message(), "Other error");
}

#[test]
fn kind_messages_are_fixed_and_nonempty() {
    let kinds = [
        (ErrorKind::Io, "Input/Output Error"),
        (ErrorKind::InvalidParam, "Invalid parameter"),
        (ErrorKind::Access, "Access denied (insufficient permissions)"),
        (ErrorKind::NoDevice, "No such device (it may have been disconnected)"),
        (ErrorKind::NotFound, "Entity not found"),
        (ErrorKind::Busy, "Resource busy"),
        (ErrorKind::Timeout, "Operation timed out"),
        (ErrorKind::Overflow, "Overflow"),
        (ErrorKind::Pipe, "Pipe error"),
        (ErrorKind::Interrupted, "System call interrupted (perhaps due to signal)"),
        (ErrorKind::NoMem, "Insufficient memory"),
        (ErrorKind::NotSupported, "Operation not supported or unimplemented on this platform"),
        (ErrorKind::BadDescriptor, "Malformed descriptor"),
        (ErrorKind::Other, "Other error"),
    ];
    for (kind, text) in kinds {
        assert!(!text.is_empty());
        assert_eq!(kind.message(), text);
        assert_eq!(kind.message(), kind.message());
        assert_eq!(kind.error().message(), text);
    }
}

#[test]
fn message_ignores_backtrace() {
    let a = Error::new(ErrorKind::Busy, Backtrace::force_capture());
    let b = Error::new(ErrorKind::Busy, Backtrace::disabled());
    assert_eq!(a.message(), b.message());
    assert_eq!(a.message(), "Resource busy");
}

#[test]
fn new_and_error_from_keep_kind() {
    let e = Error::new(ErrorKind::Pipe, Backtrace::disabled());
    assert_eq!(e.kind, ErrorKind::Pipe);
    let f = ErrorKind::Timeout.error_from(Backtrace::disabled());
    assert_eq!(f.kind, ErrorKind::Timeout);
    assert_eq!(ErrorKind::NoDevice.error().kind, ErrorKind::NoDevice);
}
