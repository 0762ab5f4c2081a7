//! The failures that supervision reports.

use crate::launch::{decimal, push_decimal};
use vstd::prelude::*;
use vstd::std_specs::convert::FromSpecImpl;

verus! {

/// The I/O error of the standard library, carried through unread.
#[verifier::external_type_specification]
#[verifier::external_body]
pub struct ExIoError(std::io::Error);

/// The error number that `nix` reports for a failed system call, carried
/// through unread.
#[verifier::external_type_specification]
#[verifier::external_body]
pub struct ExErrno(nix::errno::Errno);

/// The number that the operating system gives to an error of `nix`.
pub uninterp spec fn errno_code(e: nix::errno::Errno) -> i32;

/// The number of "no such process".
pub const ESRCH: i32 = 3;

/// Reads the number of an error of `nix`: the enum is `repr(i32)` and each
/// variant's discriminant is the system's number for it, so the cast of
/// `nix::errno::Errno` to `i32` gives `errno_code`.
#[verifier::external_body]
pub(crate) fn errno_number(e: &nix::errno::Errno) -> (r: i32)
    ensures
        r == errno_code(*e),
{
    *e as i32
}

/// The name of an error of `nix`, as its derived `Debug` writes it.
pub uninterp spec fn errno_name(e: nix::errno::Errno) -> Seq<char>;

/// Formats an error of `nix` with `{:?}`: the derived `Debug` of the enum
/// writes the variant's name, which depends on the value alone.
#[verifier::external_body]
fn errno_text(e: &nix::errno::Errno) -> (r: String)
    ensures
        r@ == errno_name(*e),
{
    format!("{:?}", e)
}

/// Formats an I/O error of the standard library with `{:?}`. For an error of
/// the operating system the text holds the system's own description, so
/// nothing is claimed of it.
#[verifier::external_body]
fn io_error_text(e: &std::io::Error) -> (r: String) {
    format!("{:?}", e)
}

/// All the failures that this crate reports.
#[derive(Debug)]
pub enum Error {
    /// A filesystem, process or socket operation failed.
    Io(std::io::Error),
    /// The operating system refused to deliver a signal.
    Nix(nix::errno::Errno),
    /// Every attempt to start the process ended without readiness; the
    /// field is the number of attempts that were allowed.
    SetupExhausted(u8),
    /// The executable at this path is missing or is not a regular file.
    ConfigurationInvalid(String),
}

impl Error {
    /// What the message says of exhausted attempts.
    pub open spec fn exhausted_text(attempts: u8) -> Seq<char> {
        "Fail to start NostrD after "@ + decimal(attempts as nat) + " attempts"@
    }

    /// What the message says of an executable that cannot be used.
    pub open spec fn invalid_text(path: Seq<char>) -> Seq<char> {
        "path \""@ + path + "\" does not exist or is not a file"@
    }

    /// What the message says of an I/O failure that the standard library
    /// describes as `inner`.
    pub open spec fn io_text(inner: Seq<char>) -> Seq<char> {
        "Io("@ + inner + ")"@
    }

    /// Whether `text` can be the message of this failure. The messages of
    /// exhausted attempts and of an invalid configuration are fixed; that of
    /// a refused signal names the error; that of an I/O failure wraps the
    /// description that the standard library gives.
    pub open spec fn has_message(self, text: Seq<char>) -> bool {
        match self {
            Error::Io(_) => exists|inner: Seq<char>| text == #[trigger] Error::io_text(inner),
            Error::Nix(e) => text == "Nix("@ + errno_name(e) + ")"@,
            Error::SetupExhausted(n) => text == Error::exhausted_text(n),
            Error::ConfigurationInvalid(p) => text == Error::invalid_text(p@),
        }
    }

    /// One descriptive line that names the cause: the path, the number of
    /// attempts, or the error underneath.
    pub fn message(&self) -> (r: String)
        ensures
            self.has_message(r@),
    {
        match self {
            Error::Io(e) => {
                let inner = io_error_text(e);
                let mut s = String::from_str("Io(");
                s.append(inner.as_str());
                s.append(")");
                assert(s@ == Error::io_text(inner@));
                s
            },
            Error::Nix(e) => {
                let mut s = String::from_str("Nix(");
                s.append(errno_text(e).as_str());
                s.append(")");
                s
            },
            Error::SetupExhausted(n) => {
                let mut s = String::from_str("Fail to start NostrD after ");
                push_decimal(&mut s, *n as u16);
                s.append(" attempts");
                s
            },
            Error::ConfigurationInvalid(p) => {
                let mut s = String::from_str("path \"");
                s.append(p.as_str());
                s.append("\" does not exist or is not a file");
                s
            },
        }
    }
}

impl From<std::io::Error> for Error {
    fn from(e: std::io::Error) -> (r: Self) {
        Error::Io(e)
    }
}

impl FromSpecImpl<std::io::Error> for Error {
    open spec fn obeys_from_spec() -> bool {
        true
    }

    open spec fn from_spec(e: std::io::Error) -> Self {
        Error::Io(e)
    }
}

impl From<nix::errno::Errno> for Error {
    fn from(value: nix::errno::Errno) -> (r: Self) {
        Error::Nix(value)
    }
}

impl FromSpecImpl<nix::errno::Errno> for Error {
    open spec fn obeys_from_spec() -> bool {
        true
    }

    open spec fn from_spec(value: nix::errno::Errno) -> Self {
        Error::Nix(value)
    }
}

} // verus!
