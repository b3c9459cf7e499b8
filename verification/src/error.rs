//! What can go wrong, as one type.

use vstd::prelude::*;
use vstd::string::StringExecFns;

verus! {

/// The ways in which an operation of this library fails. A failure ends the
/// operation; nothing is retried.
#[derive(Debug, Clone)]
pub enum Error {
    /// A key could not be generated, or a certificate could not be signed.
    Crypto(String),
    /// A key, a certificate or a subject alternative name is malformed.
    Parse(String),
    /// A file could not be read, written or removed.
    Io(String),
    /// The command that changes the system trust store failed; the text is
    /// what it reported.
    TrustStore(String),
    /// No thumbprint is recorded, so there is nothing to uninstall.
    NotInstalled,
    /// The key or the certificate of the root is not on disk.
    NotFound,
}

/// An [`Error`] with its text as a sequence of characters.
pub enum ErrorView {
    Crypto(Seq<char>),
    Parse(Seq<char>),
    Io(Seq<char>),
    TrustStore(Seq<char>),
    NotInstalled,
    NotFound,
}

impl View for Error {
    type V = ErrorView;

    open spec fn view(&self) -> ErrorView {
        match self {
            Error::Crypto(detail) => ErrorView::Crypto(detail@),
            Error::Parse(detail) => ErrorView::Parse(detail@),
            Error::Io(detail) => ErrorView::Io(detail@),
            Error::TrustStore(detail) => ErrorView::TrustStore(detail@),
            Error::NotInstalled => ErrorView::NotInstalled,
            Error::NotFound => ErrorView::NotFound,
        }
    }
}

pub const CRYPTO_PREFIX: &'static str = "Cryptographic failure: ";

pub const PARSE_PREFIX: &'static str = "Malformed input: ";

pub const IO_PREFIX: &'static str = "IO error: ";

pub const TRUST_STORE_PREFIX: &'static str = "The system trust store refused the change: ";

pub const NOT_INSTALLED_TEXT: &'static str =
    "CA thumbprint not found in config. Cannot uninstall. Was the CA ever installed?";

pub const NOT_FOUND_TEXT: &'static str =
    "The root key or certificate is not on disk. Install the CA first.";

impl ErrorView {
    /// The one line shown to the user.
    pub open spec fn message(self) -> Seq<char> {
        match self {
            ErrorView::Crypto(detail) => CRYPTO_PREFIX@ + detail,
            ErrorView::Parse(detail) => PARSE_PREFIX@ + detail,
            ErrorView::Io(detail) => IO_PREFIX@ + detail,
            ErrorView::TrustStore(detail) => TRUST_STORE_PREFIX@ + detail,
            ErrorView::NotInstalled => NOT_INSTALLED_TEXT@,
            ErrorView::NotFound => NOT_FOUND_TEXT@,
        }
    }
}

impl Error {
    /// The one line shown to the user.
    pub fn message(&self) -> (text: String)
        ensures
            text@ == self@.message(),
    {
        match self {
            Error::Crypto(detail) => String::from_str(CRYPTO_PREFIX).concat(detail.as_str()),
            Error::Parse(detail) => String::from_str(PARSE_PREFIX).concat(detail.as_str()),
            Error::Io(detail) => String::from_str(IO_PREFIX).concat(detail.as_str()),
            Error::TrustStore(detail) => String::from_str(TRUST_STORE_PREFIX).concat(
                detail.as_str(),
            ),
            Error::NotInstalled => String::from_str(NOT_INSTALLED_TEXT),
            Error::NotFound => String::from_str(NOT_FOUND_TEXT),
        }
    }
}

} // verus!
