//! The error of every operation of the library.

use vstd::prelude::*;
use vstd::string::*;

verus! {

/// `std::io::Error`, carried through and never looked into.
#[verifier::external_type_specification]
#[verifier::external_body]
pub struct ExIoError(std::io::Error);

/// What went wrong.
#[derive(Debug)]
pub enum Error {
    /// A transport failed.
    Io(std::io::Error),
    /// A rule of the protocol was broken, or the peer could not be reached.
    Protocol(String),
}

impl Error {
    /// Whether this is the protocol error with the given text.
    pub open spec fn is_protocol(self, text: Seq<char>) -> bool {
        self matches Error::Protocol(message) && message@ == text
    }

    /// The text that users see.
    ///
    /// A protocol error shows its own text. Of an I/O error the text after the prefix is the one
    /// that `std::io::Error` displays, which depends on the machine.
    pub fn to_string(&self) -> (text: String)
        ensures
            self matches Error::Protocol(message) ==> text@ == "protocol error: "@ + message@,
            self matches Error::Io(error) ==> exists|shown: String|
                #[trigger] to_string_from_display_ensures::<std::io::Error>(error, shown) && text@ == "I/O error: "@
                    + shown@,
    {
        match self {
            Error::Io(error) => {
                let shown = ToString::to_string(error);
                let text = "I/O error: ".to_owned().concat(shown.as_str());
                text
            },
            Error::Protocol(message) => "protocol error: ".to_owned().concat(message.as_str()),
        }
    }
}

impl From<std::io::Error> for Error {
    fn from(error: std::io::Error) -> (result: Self) {
        Error::Io(error)
    }
}

impl vstd::std_specs::convert::FromSpecImpl<std::io::Error> for Error {
    open spec fn obeys_from_spec() -> bool {
        true
    }

    open spec fn from_spec(error: std::io::Error) -> Self {
        Error::Io(error)
    }
}

} // verus!
