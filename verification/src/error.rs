//! The library's error type: what went wrong, and where in the source.

use vstd::prelude::*;
use crate::text::{decimal, decimal_spec, strip_prefix};

verus! {

/// The name under which errors are reported.
pub open spec fn package_name() -> Seq<char> {
    "gst-thumbnailers"@
}

/// What went wrong, as the message of the error that was caught.
#[derive(Debug)]
pub enum ErrorKind {
    /// A GLib call reported failure.
    GLibBool(String),
    /// Any other failure, described by its message.
    Other(String),
    /// An I/O operation failed.
    StdIo(String),
    /// A GLib error.
    GLib(String),
}

/// The text that describes an error kind: its message.
pub open spec fn kind_text(kind: ErrorKind) -> Seq<char> {
    match kind {
        ErrorKind::GLibBool(m) => m@,
        ErrorKind::Other(m) => m@,
        ErrorKind::StdIo(m) => m@,
        ErrorKind::GLib(m) => m@,
    }
}

impl ErrorKind {
    /// The message of this error kind.
    pub fn message(&self) -> (r: String)
        ensures
            r@ == kind_text(*self),
    {
        match self {
            ErrorKind::GLibBool(m) => m.clone(),
            ErrorKind::Other(m) => m.clone(),
            ErrorKind::StdIo(m) => m.clone(),
            ErrorKind::GLib(m) => m.clone(),
        }
    }
}

/// An error, with the place in the source where it arose.
#[derive(Debug)]
pub struct Error {
    kind: ErrorKind,
    location: String,
}

/// The text of an error of `kind` at `location`:
/// `gst-thumbnailers: <location>: <message>`.
pub open spec fn error_text(kind: ErrorKind, location: Seq<char>) -> Seq<char> {
    package_name() + ": "@ + location + ": "@ + kind_text(kind)
}

impl Error {
    /// What went wrong.
    pub closed spec fn kind_spec(&self) -> ErrorKind {
        self.kind
    }

    /// Where the error arose.
    pub closed spec fn location_spec(&self) -> Seq<char> {
        self.location@
    }

    /// An error of `kind` that arose at `location`.
    pub fn new(kind: ErrorKind, location: String) -> (e: Error)
        ensures
            e.kind_spec() == kind,
            e.location_spec() == location@,
    {
        Error { kind, location }
    }

    /// An error described by `message` alone, that arose at `location`.
    pub fn other(message: String, location: String) -> (e: Error)
        ensures
            e.kind_spec() == ErrorKind::Other(message),
            e.location_spec() == location@,
    {
        Error { kind: ErrorKind::Other(message), location }
    }

    /// What went wrong.
    pub fn kind(&self) -> (k: &ErrorKind)
        ensures
            *k == self.kind_spec(),
    {
        &self.kind
    }

    /// Where the error arose.
    pub fn location(&self) -> (l: &str)
        ensures
            l@ == self.location_spec(),
    {
        self.location.as_str()
    }

    /// The text that reports this error, as `error_text` says.
    pub fn message(&self) -> (r: String)
        ensures
            r@ == error_text(self.kind_spec(), self.location_spec()),
    {
        proof {
            reveal_strlit("gst-thumbnailers");
            reveal_strlit(": ");
        }
        let mut r = String::from_str("gst-thumbnailers");
        r.append(": ");
        r.append(self.location.as_str());
        r.append(": ");
        let m = self.kind.message();
        r.append(m.as_str());
        r
    }
}

/// A result whose error is the library's `Error`.
pub type Result<T> = core::result::Result<T, Error>;

/// The path of a source file relative to the package directory `dir`: the
/// part after `dir` and a slash where `file` begins with both, `file` itself
/// where it does not.
pub open spec fn relative_path(file: Seq<char>, dir: Seq<char>) -> Seq<char> {
    if dir.is_prefix_of(file) && "/"@.is_prefix_of(file.skip(dir.len() as int)) {
        file.skip(dir.len() + 1int)
    } else {
        file
    }
}

/// `<path>:<line>:<column>`, the path relative to `dir`.
pub open spec fn location_text(file: Seq<char>, dir: Seq<char>, line: nat, column: nat) -> Seq<
    char,
> {
    relative_path(file, dir) + ":"@ + decimal_spec(line) + ":"@ + decimal_spec(column)
}

/// The text that names a place in the source: the file relative to the
/// package directory `manifest_dir`, its line and its column, as
/// `location_text` says.
pub fn location(file: &str, manifest_dir: &str, line: u32, column: u32) -> (r: String)
    ensures
        r@ == location_text(file@, manifest_dir@, line as nat, column as nat),
{
    proof {
        reveal_strlit("/");
        reveal_strlit(":");
    }
    let path: &str = match strip_prefix(file, manifest_dir) {
        Some(rest) => match strip_prefix(rest, "/") {
            Some(inner) => {
                assert(inner@ =~= file@.skip(manifest_dir@.len() + 1int));
                inner
            },
            None => file,
        },
        None => file,
    };
    let mut r = String::from_str(path);
    r.append(":");
    let l = decimal(line);
    r.append(l.as_str());
    r.append(":");
    let c = decimal(column);
    r.append(c.as_str());
    r
}

} // verus!
