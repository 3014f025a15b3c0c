//! The error kinds the core distinguishes.

use crate::strutil::{spec_u64_string, u64_to_string};
use vstd::prelude::*;

verus! {

/// `std::io::Error` as an opaque carried value; the core never inspects it.
#[verifier::external_type_specification]
#[verifier::external_body]
pub struct ExIoError(std::io::Error);

/// Errors surfaced by the core: an application-level feedback code, a plain
/// message, a carried I/O error, or a missing file at startup.
#[derive(Debug)]
pub enum Error {
    Feedback((u32, String)),
    Message(String),
    IoError(std::io::Error),
    FileNotExist,
}

impl From<String> for Error {
    fn from(s: String) -> (r: Self)
        ensures
            r == Error::Message(s),
    {
        Error::Message(s)
    }
}

impl vstd::std_specs::convert::FromSpecImpl<String> for Error {
    open spec fn obeys_from_spec() -> bool {
        true
    }

    open spec fn from_spec(s: String) -> Self {
        Error::Message(s)
    }
}

/// Relies on the `Display` impl of `std::io::Error`: the error rendered as
/// text. Nothing is claimed of the value.
#[verifier::external_body]
fn io_error_text(e: &std::io::Error) -> String {
    format!("{}", e)
}

impl Error {
    /// A `Message` error from a borrowed string.
    pub fn message(s: &str) -> (r: Self)
        ensures
            r matches Error::Message(m) && m@ == s@,
    {
        Error::Message(s.to_owned())
    }

    /// The error rendered as text, one fixed shape per kind.
    pub fn describe(&self) -> (r: String)
        ensures
            self matches Error::Message(m) ==> r@ == "Message { "@ + m@ + " }"@,
            self matches Error::FileNotExist ==> r@ == "FileNotExist"@,
            self matches Error::Feedback(f) ==> r@ == "Feedback { id="@ + spec_u64_string(
                f.0 as int,
            ) + ",msg="@ + f.1@ + " }"@,
    {
        match self {
            Error::Feedback((id, msg)) => {
                let mut s = "Feedback { id=".to_owned();
                let ids = u64_to_string(*id as u64);
                s.append(ids.as_str());
                s.append(",msg=");
                s.append(msg.as_str());
                s.append(" }");
                proof {
                    assert(s@ =~= "Feedback { id="@ + spec_u64_string(*id as int) + ",msg="@
                        + msg@ + " }"@);
                }
                s
            },
            Error::Message(msg) => {
                let mut s = "Message { ".to_owned();
                s.append(msg.as_str());
                s.append(" }");
                proof {
                    assert(s@ =~= "Message { "@ + msg@ + " }"@);
                }
                s
            },
            Error::IoError(err) => {
                let mut s = "IoError { ".to_owned();
                let et = io_error_text(err);
                s.append(et.as_str());
                s.append(" }");
                s
            },
            Error::FileNotExist => "FileNotExist".to_owned(),
        }
    }
}

impl From<std::io::Error> for Error {
    fn from(e: std::io::Error) -> (r: Self)
        ensures
            r == Error::IoError(e),
    {
        Error::IoError(e)
    }
}

impl vstd::std_specs::convert::FromSpecImpl<std::io::Error> for Error {
    open spec fn obeys_from_spec() -> bool {
        true
    }

    open spec fn from_spec(e: std::io::Error) -> Self {
        Error::IoError(e)
    }
}

} // verus!
