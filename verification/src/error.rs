//! The one error type of the library and the ways into it.

use vstd::prelude::*;
use vstd::string::StringExecFns;

verus! {

/// What went wrong with a call.
#[derive(Debug, Clone, Copy, PartialEq, Eq, Structural)]
pub enum ErrorType {
    /// The credentials cannot be used, for instance a secret that is not
    /// Base64. Found before anything is sent.
    ConfigurationError,
    /// The request did not get through, or no usable answer came back.
    TransportError,
    /// The answer is not JSON, or not an envelope, or an envelope that
    /// claims success and holds no result.
    MalformedResponseError,
    /// The exchange answered and refused the call.
    APIError,
}

/// A failed call: its kind and the detail that goes with it.
#[derive(Debug)]
pub struct Error {
    pub error_type: ErrorType,
    pub message: String,
}

/// An error as the contracts see it: its kind and the characters of its
/// detail.
pub ghost struct Failure {
    pub error_type: ErrorType,
    pub message: Seq<char>,
}

impl View for Error {
    type V = Failure;

    open spec fn view(&self) -> Failure {
        Failure { error_type: self.error_type, message: self.message@ }
    }
}

/// What the transport layer reports of a failed exchange, as plain values.
pub struct TransportFailure {
    /// The request could not be made or was not answered.
    pub is_http: bool,
    /// The address the request was sent to, where one is known.
    pub url: Option<String>,
    /// The answer could not be read.
    pub is_serialization: bool,
    /// The underlying cause, where one is known.
    pub cause: Option<String>,
    /// The server kept redirecting.
    pub is_redirect: bool,
}

/// The fixed text that names each kind of error.
pub open spec fn description_text(error_type: ErrorType) -> Seq<char> {
    match error_type {
        ErrorType::ConfigurationError => "Error in the client configuration"@,
        ErrorType::TransportError => "Error while reaching TradeSatoshi API"@,
        ErrorType::MalformedResponseError => "Error while converting response to Json Value"@,
        ErrorType::APIError => "Error while calling TradeSatoshi API"@,
    }
}

/// The address of a failed exchange as it is added to the detail: ` at `
/// and the address, or nothing where none is known.
pub open spec fn at_address(url: Option<String>) -> Seq<char> {
    match url {
        Some(url) => " at "@ + url@,
        None => Seq::empty(),
    }
}

/// The cause of a failed exchange as it is added to the detail: `: ` and
/// the cause, or nothing where none is known.
pub open spec fn because_of(cause: Option<String>) -> Seq<char> {
    match cause {
        Some(cause) => ": "@ + cause@,
        None => Seq::empty(),
    }
}

/// The detail recorded for a transport failure: what went wrong, with the
/// address and the cause where they are known. A redirect loop is reported
/// before an unreadable answer, and that before a failed request.
pub open spec fn transport_message(failure: TransportFailure) -> Seq<char> {
    if failure.is_redirect {
        "Server redirecting too many times or making loop"@ + at_address(failure.url)
    } else if failure.is_serialization {
        (match failure.cause {
            Some(cause) => "Problem parsing information "@ + cause@,
            None => "Problem parsing information (no info given)"@,
        }) + at_address(failure.url)
    } else if failure.is_http {
        (match failure.url {
            Some(url) => "Problem making request to: "@ + url@,
            None => "No Url given"@,
        }) + because_of(failure.cause)
    } else {
        "Error undefined!"@ + at_address(failure.url) + because_of(failure.cause)
    }
}

impl Error {
    /// The kind of the error together with its detail, as one line of text.
    pub open spec fn text(&self) -> Seq<char> {
        description_text(self.error_type) + ": "@ + self.message@
    }

    /// An error of the given kind with the given detail.
    pub fn new(error_type: ErrorType, message: &str) -> (e: Error)
        ensures
            e@ == (Failure { error_type, message: message@ }),
    {
        Error { error_type, message: String::from_str(message) }
    }

    /// The fixed text that names the kind of this error.
    pub fn description(&self) -> (r: &'static str)
        ensures
            r@ == description_text(self.error_type),
    {
        match self.error_type {
            ErrorType::ConfigurationError => "Error in the client configuration",
            ErrorType::TransportError => "Error while reaching TradeSatoshi API",
            ErrorType::MalformedResponseError => "Error while converting response to Json Value",
            ErrorType::APIError => "Error while calling TradeSatoshi API",
        }
    }

    /// The error as one line of text: its description, a colon, its detail.
    pub fn to_text(&self) -> (r: String)
        ensures
            r@ == self.text(),
    {
        let mut out = String::from_str(self.description());
        out.append(": ");
        out.append(self.message.as_str());
        out
    }
}

impl vstd::std_specs::convert::FromSpecImpl<TransportFailure> for Error {
    /// Two errors with the same kind and text are not thereby the same value
    /// to the verifier, so the conversion is described by the postcondition
    /// of `from` and not by `from_spec`.
    open spec fn obeys_from_spec() -> bool {
        false
    }

    open spec fn from_spec(failure: TransportFailure) -> Error {
        arbitrary()
    }
}

impl From<TransportFailure> for Error {
    /// Every transport failure becomes a `TransportError`; its detail is
    /// [`transport_message`].
    fn from(failure: TransportFailure) -> (e: Error)
        ensures
            e@ == (Failure {
                error_type: ErrorType::TransportError,
                message: transport_message(failure),
            }),
    {
        let mut message = String::new();
        if failure.is_redirect {
            message.append("Server redirecting too many times or making loop");
            push_address(&mut message, &failure.url);
        } else if failure.is_serialization {
            match &failure.cause {
                Some(cause) => {
                    message.append("Problem parsing information ");
                    message.append(cause.as_str());
                },
                None => {
                    message.append("Problem parsing information (no info given)");
                },
            }
            push_address(&mut message, &failure.url);
        } else if failure.is_http {
            match &failure.url {
                Some(url) => {
                    message.append("Problem making request to: ");
                    message.append(url.as_str());
                },
                None => {
                    message.append("No Url given");
                },
            }
            push_cause(&mut message, &failure.cause);
        } else {
            message.append("Error undefined!");
            push_address(&mut message, &failure.url);
            push_cause(&mut message, &failure.cause);
        }
        Error { error_type: ErrorType::TransportError, message }
    }
}

/// Appends the address to a detail, where one is known.
fn push_address(message: &mut String, url: &Option<String>)
    ensures
        final(message)@ == old(message)@ + at_address(*url),
{
    match url {
        Some(url) => {
            message.append(" at ");
            message.append(url.as_str());
        },
        None => {},
    }
}

/// Appends the cause to a detail, where one is known.
fn push_cause(message: &mut String, cause: &Option<String>)
    ensures
        final(message)@ == old(message)@ + because_of(*cause),
{
    match cause {
        Some(cause) => {
            message.append(": ");
            message.append(cause.as_str());
        },
        None => {},
    }
}

} // verus!
