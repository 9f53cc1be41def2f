//! Error kinds of the supervisor library.
//!
//! The kinds mirror the failure taxonomy: a privilege-drop failure and a
//! spawn failure are fatal to supervisor construction, a driver failure is
//! recovered per request, and a missing request parameter is a caller error.

use vstd::prelude::*;
use vstd::string::StringExecFns;

verus! {

/// Declares `caps::errors::CapsError`, the error returned by the `caps`
/// crate when manipulating process capability sets fails.
#[verifier::external_type_specification]
#[verifier::external_body]
pub struct ExCapsError(caps::errors::CapsError);

/// Declares `std::io::Error`, the OS error reported by a failed spawn.
#[verifier::external_type_specification]
#[verifier::external_body]
pub struct ExIoError(std::io::Error);

/// Declares `thirtyfour::error::WebDriverError`, the error type of the
/// WebDriver client crate.
#[verifier::external_type_specification]
#[verifier::external_body]
pub struct ExWebDriverError(thirtyfour::error::WebDriverError);

#[derive(Debug)]
pub enum Error {
    /// Clearing the child's effective capability set failed; the child must
    /// abort rather than run privileged.
    CapSetError(caps::errors::CapsError),
    /// The OS could not launch the driver subprocess.
    ChromeDriverStartError(std::io::Error),
    /// The WebDriver client failed while opening or driving a session.
    WebDriverError(thirtyfour::error::WebDriverError),
    /// A required request parameter was absent.
    MissingParameter(&'static str),
}

impl Error {
    /// A short human-readable description, one fixed text per kind.
    pub fn message(&self) -> (s: String)
        ensures
            self is CapSetError ==> s@ == "Could not set process capabilities"@,
            self is ChromeDriverStartError ==> s@ == "Could not launch chromedriver"@,
            self is WebDriverError ==> s@ == "WebDriver error"@,
            self matches Error::MissingParameter(p) ==> s@ == "Missing parameter: "@ + p@,
    {
        match self {
            Error::CapSetError(_) => String::from_str("Could not set process capabilities"),
            Error::ChromeDriverStartError(_) => String::from_str("Could not launch chromedriver"),
            Error::WebDriverError(_) => String::from_str("WebDriver error"),
            Error::MissingParameter(p) => {
                let mut s = String::from_str("Missing parameter: ");
                s.append(p);
                s
            },
        }
    }

    /// True exactly for the kinds that are fatal to supervisor construction.
    pub fn is_fatal_to_start(&self) -> (b: bool)
        ensures
            b == (self is CapSetError || self is ChromeDriverStartError),
    {
        match self {
            Error::CapSetError(_) => true,
            Error::ChromeDriverStartError(_) => true,
            Error::WebDriverError(_) => false,
            Error::MissingParameter(_) => false,
        }
    }
}

} // verus!
