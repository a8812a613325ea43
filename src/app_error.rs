//! Application errors: the failures that an operator of the probe utility
//! sees, each with its context and, where there is one, its cause.

use anyhow::Error as AnyhowError;
use crate::usb_error;
use dfu_libusb::Error as DfuError;
use crate::usb_error::kind_message;
use vstd::prelude::*;
use vstd::string::to_string_from_display_ensures;

verus! {

/// std's I/O error, held opaque: a cause that is carried and displayed.
#[verifier::external_type_specification]
#[verifier::external_body]
pub struct ExIoError(std::io::Error);

/// anyhow's error, held opaque: a cause that is carried and displayed.
#[verifier::external_type_specification]
#[verifier::external_body]
pub struct ExAnyhowError(AnyhowError);

/// dfu_libusb's error, held opaque: a cause that is carried and displayed.
#[verifier::external_type_specification]
#[verifier::external_body]
pub struct ExDfuError(DfuError);

/// The failures of the probe utility.
#[derive(Debug)]
#[allow(inconsistent_fields)]
pub enum BmputilError {
    /// Reading the firmware image failed.
    FirmwareFileIOError { source: std::io::Error, filename: String },
    /// Discovery matched more than one device where one was needed.
    TooManyDevicesError,
    /// Discovery matched no device.
    DeviceNotFoundError,
    /// Access was denied while performing `operation` to `context`.
    PermissionsError {
        source: usb_error::Error,
        /// The USB operation that failed (e.g. `"send a control transfer"`).
        operation: String,
        /// What the operation was performed for (e.g. `"read firmware version"`).
        context: String,
    },
    /// The device vanished while performing `operation` to `context`.
    DeviceDisconnectDuringOperationError {
        source: usb_error::Error,
        /// The USB operation that failed (e.g. `"send a control transfer"`).
        operation: String,
        /// What the operation was performed for (e.g. `"read firmware version"`).
        context: String,
    },
    /// The device did not re-enumerate after being asked to switch to DFU
    /// mode. There may be no transport error, when the device is looked for
    /// in device lists.
    DeviceReconfigureError { source: Option<usb_error::Error> },
    /// The device did not re-enumerate after a firmware flash.
    DeviceRebootError { source: Option<usb_error::Error> },
    /// The device returned structurally invalid data during configuration.
    DeviceSeemsInvalidError { source: Option<AnyhowError>, invalid_thing: String },
    /// A transport failure with no more specific case.
    LibusbError(usb_error::Error),
    /// A flashing-protocol failure with no more specific case.
    DfuLibusbError(DfuError),
}

/// The text that describes an application error to an operator.
pub open spec fn error_message(e: BmputilError) -> Seq<char> {
    match e {
        BmputilError::FirmwareFileIOError { filename, .. } =>
            "Failed to read firmware file "@ + filename@,
        BmputilError::TooManyDevicesError =>
            "More than one Blackmagic Probe device was found"@,
        BmputilError::DeviceNotFoundError =>
            "No connected Blackmagic Probe device was found! Check connection?"@,
        BmputilError::PermissionsError { operation, context, .. } =>
            "Access denied when attempting to "@ + operation@ + " to "@ + context@,
        BmputilError::DeviceDisconnectDuringOperationError { operation, context, .. } =>
            "Blackmagic Probe device found disconnected when attempting to "@ + operation@
                + " to "@ + context@,
        BmputilError::DeviceReconfigureError { .. } =>
            "Blackmagic Probe device did not re-enumerate after requesting to switch to DFU mode"@,
        BmputilError::DeviceRebootError { .. } =>
            "Blackmagic Probe device did not re-enumerate after flashing firmware; firmware may be invalid?"@,
        BmputilError::DeviceSeemsInvalidError { invalid_thing, .. } =>
            "Blackmagic Probe device returned bad data ("@ + invalid_thing@
                + ") during configuration.This generally shouldn't be possible. Maybe cable is bad, or OS is messing with things?"@,
        BmputilError::LibusbError(_) =>
            "Other/unhandled libusb error (please report this so we can add better handling!)"@,
        BmputilError::DfuLibusbError(_) =>
            "Other/unhandled dfu_libusb error (please report this so we can add better error handling!"@,
    }
}

/// Whether `text` is the display text of a transport error.
pub open spec fn shows_transport(source: usb_error::Error, text: String) -> bool {
    text@ == kind_message(source.kind)
}

/// Whether `cause` is what `e` reports as its cause: the display text of
/// its source where it has one, and nothing where it has none.
pub open spec fn reports_cause(e: &BmputilError, cause: Option<String>) -> bool {
    match e {
        BmputilError::FirmwareFileIOError { source, .. } => cause is Some
            && to_string_from_display_ensures::<std::io::Error>(source, cause->Some_0),
        BmputilError::TooManyDevicesError => cause is None,
        BmputilError::DeviceNotFoundError => cause is None,
        BmputilError::PermissionsError { source, .. } => cause is Some && shows_transport(
            *source,
            cause->Some_0,
        ),
        BmputilError::DeviceDisconnectDuringOperationError { source, .. } => cause is Some
            && shows_transport(*source, cause->Some_0),
        BmputilError::DeviceReconfigureError { source } => match source {
            Some(s) => cause is Some && shows_transport(*s, cause->Some_0),
            None => cause is None,
        },
        BmputilError::DeviceRebootError { source } => match source {
            Some(s) => cause is Some && shows_transport(*s, cause->Some_0),
            None => cause is None,
        },
        BmputilError::DeviceSeemsInvalidError { source, .. } => match source {
            Some(s) => cause is Some && to_string_from_display_ensures::<AnyhowError>(
                s,
                cause->Some_0,
            ),
            None => cause is None,
        },
        BmputilError::LibusbError(source) => cause is Some && shows_transport(
            *source,
            cause->Some_0,
        ),
        BmputilError::DfuLibusbError(source) => cause is Some
            && to_string_from_display_ensures::<DfuError>(source, cause->Some_0),
    }
}

/// The text `prefix` followed by `rest`.
fn joined(prefix: &str, rest: &String) -> (r: String)
    ensures
        r@ == prefix@ + rest@,
{
    let mut s = String::from_str(prefix);
    s.append(rest.as_str());
    s
}

impl BmputilError {
    /// The text that describes this error to an operator.
    pub fn message(&self) -> (r: String)
        ensures
            r@ == error_message(*self),
    {
        match self {
            BmputilError::FirmwareFileIOError { filename, .. } => joined(
                "Failed to read firmware file ",
                filename,
            ),
            BmputilError::TooManyDevicesError => String::from_str(
                "More than one Blackmagic Probe device was found",
            ),
            BmputilError::DeviceNotFoundError => String::from_str(
                "No connected Blackmagic Probe device was found! Check connection?",
            ),
            BmputilError::PermissionsError { operation, context, .. } => {
                let mut s = joined("Access denied when attempting to ", operation);
                s.append(" to ");
                s.append(context.as_str());
                s
            },
            BmputilError::DeviceDisconnectDuringOperationError { operation, context, .. } => {
                let mut s = joined(
                    "Blackmagic Probe device found disconnected when attempting to ",
                    operation,
                );
                s.append(" to ");
                s.append(context.as_str());
                s
            },
            BmputilError::DeviceReconfigureError { .. } => String::from_str(
                "Blackmagic Probe device did not re-enumerate after requesting to switch to DFU mode",
            ),
            BmputilError::DeviceRebootError { .. } => String::from_str(
                "Blackmagic Probe device did not re-enumerate after flashing firmware; firmware may be invalid?",
            ),
            BmputilError::DeviceSeemsInvalidError { invalid_thing, .. } => {
                let mut s = joined("Blackmagic Probe device returned bad data (", invalid_thing);
                s.append(
                    ") during configuration.This generally shouldn't be possible. Maybe cable is bad, or OS is messing with things?",
                );
                s
            },
            BmputilError::LibusbError(_) => String::from_str(
                "Other/unhandled libusb error (please report this so we can add better handling!)",
            ),
            BmputilError::DfuLibusbError(_) => String::from_str(
                "Other/unhandled dfu_libusb error (please report this so we can add better error handling!",
            ),
        }
    }

    /// The display text of this error's cause, if it has one.
    pub fn cause_message(&self) -> (r: Option<String>)
        ensures
            reports_cause(self, r),
    {
        match self {
            BmputilError::FirmwareFileIOError { source, .. } => Some(source.to_string()),
            BmputilError::TooManyDevicesError => None,
            BmputilError::DeviceNotFoundError => None,
            BmputilError::PermissionsError { source, .. } => Some(source.message()),
            BmputilError::DeviceDisconnectDuringOperationError { source, .. } => Some(
                source.message(),
            ),
            BmputilError::DeviceReconfigureError { source } => match source {
                Some(s) => Some(s.message()),
                None => None,
            },
            BmputilError::DeviceRebootError { source } => match source {
                Some(s) => Some(s.message()),
                None => None,
            },
            BmputilError::DeviceSeemsInvalidError { source, .. } => match source {
                Some(s) => Some(s.to_string()),
                None => None,
            },
            BmputilError::LibusbError(source) => Some(source.message()),
            BmputilError::DfuLibusbError(source) => Some(source.to_string()),
        }
    }
}

impl From<usb_error::Error> for BmputilError {
    fn from(e: usb_error::Error) -> Self {
        BmputilError::LibusbError(e)
    }
}

impl vstd::std_specs::convert::FromSpecImpl<usb_error::Error> for BmputilError {
    open spec fn obeys_from_spec() -> bool {
        true
    }

    open spec fn from_spec(v: usb_error::Error) -> Self {
        BmputilError::LibusbError(v)
    }
}

impl From<DfuError> for BmputilError {
    fn from(e: DfuError) -> Self {
        BmputilError::DfuLibusbError(e)
    }
}

impl vstd::std_specs::convert::FromSpecImpl<DfuError> for BmputilError {
    open spec fn obeys_from_spec() -> bool {
        true
    }

    open spec fn from_spec(v: DfuError) -> Self {
        BmputilError::DfuLibusbError(v)
    }
}

/// Ends an operation with `err`: the line to log at error severity, which
/// is the error's display text, and the failure to return, which is `err`
/// itself.
pub fn log_and_return<T>(err: BmputilError) -> (r: (String, Result<T, BmputilError>))
    ensures
        r.0@ == error_message(err),
        r.1 == Err::<T, BmputilError>(err),
{
    let line = err.message();
    (line, Err(err))
}

} // verus!
