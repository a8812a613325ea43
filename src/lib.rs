//! Error reporting for a USB probe utility: raw libusb status codes are
//! classified into transport error kinds, and those are wrapped into an
//! application-level taxonomy that carries operational context.

pub mod usb_error;
pub mod app_error;
