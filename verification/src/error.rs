//! The error taxonomy of the capture engine.

use vstd::prelude::*;

verus! {

/// Every failure a capture request can end in.
///
/// `DriverError` is a session, transport or fatal protocol failure and is a
/// server-side fault; `FormatError` (an unknown output-format token),
/// `CookieParseError` (a malformed cookie string) and `Other` (an unknown
/// device id) are caller-input faults; `ImgError` wraps a bitmap decode or
/// encode failure.
#[derive(Debug, Clone, Copy, PartialEq, Eq, Structural)]
pub enum SnapError {
    DriverError,
    ImgError,
    FormatError,
    CookieParseError,
    Other,
}

pub type SnapResult<T> = Result<T, SnapError>;

impl SnapError {
    /// A short description, for logs and response bodies.
    pub fn message(&self) -> (r: &'static str)
        ensures
            self is DriverError ==> r@ == "got a driver error"@,
            self is ImgError ==> r@ == "got a image deal error"@,
            self is FormatError ==> r@ == "file format error"@,
            self is CookieParseError ==> r@ == "cookie unsupported"@,
            self is Other ==> r@ == "unknown error"@,
    {
        match self {
            SnapError::DriverError => "got a driver error",
            SnapError::ImgError => "got a image deal error",
            SnapError::FormatError => "file format error",
            SnapError::CookieParseError => "cookie unsupported",
            SnapError::Other => "unknown error",
        }
    }

    /// True of the failures that are the caller's fault, as opposed to a
    /// server-side fault.
    pub fn is_caller_fault(&self) -> (r: bool)
        ensures
            r == (self is FormatError || self is CookieParseError || self is Other),
    {
        match self {
            SnapError::FormatError => true,
            SnapError::CookieParseError => true,
            SnapError::Other => true,
            _ => false,
        }
    }
}

} // verus!
