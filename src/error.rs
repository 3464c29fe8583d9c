//! The errors that checking for updates can end in.
use reqwest::Error as WebError;
use srcinfo::Error as SrcinfoError;
use vstd::prelude::*;

verus! {

/// Lets `std::io::Error` stand in the library's error type.
#[verifier::external_type_specification]
#[verifier::external_body]
pub struct ExIoError(std::io::Error);

/// Lets `std::str::Utf8Error` stand in the library's error type.
#[verifier::external_type_specification]
#[verifier::external_body]
pub struct ExUtf8Error(std::str::Utf8Error);

/// Lets `reqwest::Error` stand in the library's error type.
#[verifier::external_type_specification]
#[verifier::external_body]
pub struct ExWebError(WebError);

/// Lets `srcinfo::Error` stand in the library's error type.
#[verifier::external_type_specification]
#[verifier::external_body]
pub struct ExSrcinfoError(SrcinfoError);

/// Why a check for updates failed.
#[derive(Debug)]
pub enum Error {
    /// Running an external command failed.
    Io(std::io::Error),
    /// A web request failed.
    Web(WebError),
    /// A command printed something that is not UTF-8.
    Stdout(std::str::Utf8Error),
    /// The list of ignored packages could not be read.
    GetIgnoredPackagesFailed,
    /// The revision control tool printed fewer characters than a short hash has.
    HeadIdentifierTooShort,
    /// The AUR did not answer for a package; its name, where it is known.
    GetAurPackageFailed(Option<String>),
    /// A build recipe's metadata could not be parsed.
    ParseErrorSrcinfo(SrcinfoError),
    /// The pending-update tool reported an error.
    CheckUpdatesReturnedError(String),
    /// A line of the pending-update tool's output has the wrong shape.
    ParseErrorCheckUpdates(String),
    /// A line of a package listing has the wrong shape.
    ParseErrorPacman(String),
    /// A combined version string has no `-` before its release.
    ParseErrorPkgverPkgrel(String),
}

} // verus!
