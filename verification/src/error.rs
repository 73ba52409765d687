//! The error type shared by the whole tool.

use vstd::prelude::*;
use crate::text::{decimal_string, decimal_text};

verus! {

/// `std::io::Error`, carried through as an opaque value.
#[verifier::external_type_specification]
#[verifier::external_body]
pub struct ExIoError(std::io::Error);

/// Formats a `std::io::Error` with its `Display` impl. Nothing is promised of
/// the text: it comes from the operating system.
#[verifier::external_body]
pub(crate) fn io_error_text(e: &std::io::Error) -> String {
    format!("{}", e)
}

/// Every error the tool reports.
#[derive(Debug)]
pub enum Error {
    /// A file-system or process operation failed.
    Io(std::io::Error),
    /// The bundled Python runtime cannot be used.
    PythonEnv(String),
    /// `mtk.py` exited unsuccessfully; `code` is its exit code (`-1` when it
    /// had none) and `stderr` its trimmed error output.
    MtkCommand { code: i32, stderr: String },
    /// No embedded loader matches the chip identifier.
    LoaderNotFound(String),
    /// The platform is not supported.
    UnsupportedPlatform(String),
    /// The bundled runtime archive could not be read.
    Zip(String),
}

/// The fixed text that starts the message of each kind of error.
pub open spec fn message_prefix(e: Error) -> Seq<char> {
    match e {
        Error::Io(_) => "I/O error: "@,
        Error::PythonEnv(_) => "Python environment error: "@,
        Error::MtkCommand { .. } => "MTK command failed (exit "@,
        Error::LoaderNotFound(_) => "Loader not found for chip: "@,
        Error::UnsupportedPlatform(_) => "Unsupported platform: "@,
        Error::Zip(_) => "Zip extraction error: "@,
    }
}

/// The whole message of an error whose payload is text (every kind but `Io`).
pub open spec fn message_text(e: Error) -> Seq<char> {
    match e {
        Error::Io(_) => "I/O error: "@,
        Error::PythonEnv(m) => "Python environment error: "@ + m@,
        Error::MtkCommand { code, stderr } => "MTK command failed (exit "@ + decimal_text(
            code as int,
        ) + "): "@ + stderr@,
        Error::LoaderNotFound(c) => "Loader not found for chip: "@ + c@,
        Error::UnsupportedPlatform(p) => "Unsupported platform: "@ + p@,
        Error::Zip(m) => "Zip extraction error: "@ + m@,
    }
}

impl Error {
    /// The human-readable message of the error.
    pub fn message(&self) -> (r: String)
        ensures
            !(*self is Io) ==> r@ == message_text(*self),
            *self is Io ==> r@.subrange(0, message_prefix(*self).len() as int) == message_prefix(
                *self,
            ),
    {
        match self {
            Error::Io(e) => {
                let mut r = String::from_str("I/O error: ");
                let t = io_error_text(e);
                r.append(t.as_str());
                r
            },
            Error::PythonEnv(m) => String::from_str("Python environment error: ").concat(m.as_str()),
            Error::MtkCommand { code, stderr } => {
                let mut r = String::from_str("MTK command failed (exit ");
                let c = decimal_string(*code);
                r.append(c.as_str());
                r.append("): ");
                r.append(stderr.as_str());
                r
            },
            Error::LoaderNotFound(c) => String::from_str("Loader not found for chip: ").concat(
                c.as_str(),
            ),
            Error::UnsupportedPlatform(p) => String::from_str("Unsupported platform: ").concat(
                p.as_str(),
            ),
            Error::Zip(m) => String::from_str("Zip extraction error: ").concat(m.as_str()),
        }
    }
}

} // verus!
