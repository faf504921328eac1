//! Reading the envelope that the exchange puts around every answer.

use vstd::prelude::*;
use vstd::string::StringExecFns;
use crate::codec::{
    json_array,
    json_array_items,
    json_object,
    json_object_members,
    json_string,
    json_string_value,
};
use crate::error::{Error, ErrorType, Failure};
use crate::values::{APIResult, APIVecResult};

verus! {

/// An envelope as the contracts see it.
pub ghost struct Envelope<R> {
    pub success: bool,
    pub message: Option<Seq<char>>,
    pub result: Option<R>,
}

/// The value text of the first member named `key` at or behind place
/// `from`, if there is one.
pub open spec fn member_from(
    members: Seq<(Seq<char>, Seq<char>)>,
    key: Seq<char>,
    from: int,
) -> Option<Seq<char>>
    decreases members.len() - from,
{
    if from < 0 || from >= members.len() {
        None
    } else if members[from].0 == key {
        Some(members[from].1)
    } else {
        member_from(members, key, from + 1)
    }
}

/// The value text of the member named `key`, if there is one.
pub open spec fn member(members: Seq<(Seq<char>, Seq<char>)>, key: Seq<char>) -> Option<
    Seq<char>,
> {
    member_from(members, key, 0)
}

/// What the `success` member says: it must be there and be `true` or
/// `false`.
pub open spec fn success_flag(members: Seq<(Seq<char>, Seq<char>)>) -> Option<bool> {
    match member(members, "success"@) {
        Some(text) => if text == "true"@ {
            Some(true)
        } else if text == "false"@ {
            Some(false)
        } else {
            None
        },
        None => None,
    }
}

/// Whether the `message` member can be read: it is missing, or `null`, or a
/// string.
pub open spec fn message_is_readable(members: Seq<(Seq<char>, Seq<char>)>) -> bool {
    match member(members, "message"@) {
        Some(text) => text == "null"@ || json_string(text) is Some,
        None => true,
    }
}

/// The message of the envelope: the string of the `message` member, or
/// nothing where the member is missing or `null`.
pub open spec fn message_of(members: Seq<(Seq<char>, Seq<char>)>) -> Option<Seq<char>> {
    match member(members, "message"@) {
        Some(text) => if text == "null"@ {
            None
        } else {
            json_string(text)
        },
        None => None,
    }
}

/// The JSON text of the `result` member, or nothing where the member is
/// missing or `null`.
pub open spec fn result_of(members: Seq<(Seq<char>, Seq<char>)>) -> Option<Seq<char>> {
    match member(members, "result"@) {
        Some(text) => if text == "null"@ {
            None
        } else {
            Some(text)
        },
        None => None,
    }
}

/// The failure for a body that is not JSON, or not an envelope.
pub open spec fn malformed(detail: Seq<char>) -> Failure {
    Failure { error_type: ErrorType::MalformedResponseError, message: detail }
}

/// The envelope that a body holds, with its result still as JSON text.
pub open spec fn envelope_of(body: Seq<char>) -> Result<Envelope<Seq<char>>, Failure> {
    match json_object(body) {
        Ok(members) => if success_flag(members) is Some && message_is_readable(members) {
            Ok(
                Envelope {
                    success: success_flag(members)->0,
                    message: message_of(members),
                    result: result_of(members),
                },
            )
        } else {
            Err(malformed("The response is not an envelope"@))
        },
        Err(diagnostic) => Err(malformed(diagnostic)),
    }
}

/// The envelope that a body holds, with its result as a list of JSON texts.
pub open spec fn vec_envelope_of(body: Seq<char>) -> Result<Envelope<Seq<Seq<char>>>, Failure> {
    match envelope_of(body) {
        Ok(envelope) => match envelope.result {
            Some(text) => match json_array(text) {
                Ok(items) => Ok(
                    Envelope {
                        success: envelope.success,
                        message: envelope.message,
                        result: Some(items),
                    },
                ),
                Err(diagnostic) => Err(malformed(diagnostic)),
            },
            None => Ok(
                Envelope { success: envelope.success, message: envelope.message, result: None },
            ),
        },
        Err(failure) => Err(failure),
    }
}

/// The outcome that an envelope stands for: its result where it reports
/// success and holds one; a `MalformedResponseError` where it reports
/// success and holds none; otherwise an `APIError` with its message, or
/// with a fixed text where it has none.
pub open spec fn outcome<R>(envelope: Envelope<R>) -> Result<R, Failure> {
    if envelope.success {
        match envelope.result {
            Some(result) => Ok(result),
            None => Err(malformed("The response reports success but holds no result"@)),
        }
    } else {
        Err(
            Failure {
                error_type: ErrorType::APIError,
                message: match envelope.message {
                    Some(message) => message,
                    None => "An error occurred."@,
                },
            },
        )
    }
}

/// The text of an optional string.
pub open spec fn text_of(value: Option<String>) -> Option<Seq<char>> {
    match value {
        Some(s) => Some(s@),
        None => None,
    }
}

/// An envelope with a text result as the contracts see it.
pub open spec fn single_view(envelope: APIResult<String>) -> Envelope<Seq<char>> {
    Envelope {
        success: envelope.success,
        message: text_of(envelope.message),
        result: text_of(envelope.result),
    }
}

/// An envelope with a list of text results as the contracts see it.
pub open spec fn vec_view(envelope: APIVecResult<String>) -> Envelope<Seq<Seq<char>>> {
    Envelope {
        success: envelope.success,
        message: text_of(envelope.message),
        result: match envelope.result {
            Some(items) => Some(items.deep_view()),
            None => None,
        },
    }
}

/// Finds the member named `key` and returns its place.
fn find_member(members: &Vec<(String, String)>, key: &str) -> (r: Option<usize>)
    ensures
        match r {
            Some(at) => at < members.len() && member(members.deep_view(), key@) == Some(
                members[at as int].1@,
            ),
            None => member(members.deep_view(), key@) is None,
        },
{
    let wanted = String::from_str(key);
    let mut at: usize = 0;
    while at < members.len()
        invariant
            at <= members.len(),
            wanted@ == key@,
            member(members.deep_view(), key@) == member_from(
                members.deep_view(),
                key@,
                at as int,
            ),
        decreases members.len() - at,
    {
        if members[at].0 == wanted {
            return Some(at);
        }
        at += 1;
    }
    None
}

/// Builds the envelope from the members of the body's JSON object.
///
/// Fails with a `MalformedResponseError` where `success` is missing or is
/// not a boolean, and where `message` is neither missing, nor `null`, nor a
/// string.
pub fn envelope_from_members(members: &Vec<(String, String)>) -> (r: Result<
    APIResult<String>,
    Error,
>)
    ensures
        match r {
            Ok(envelope) => {
                &&& success_flag(members.deep_view()) is Some
                &&& message_is_readable(members.deep_view())
                &&& single_view(envelope) == (Envelope {
                    success: success_flag(members.deep_view())->0,
                    message: message_of(members.deep_view()),
                    result: result_of(members.deep_view()),
                })
            },
            Err(e) => {
                &&& !(success_flag(members.deep_view()) is Some && message_is_readable(
                    members.deep_view(),
                ))
                &&& e@ == malformed("The response is not an envelope"@)
            },
        },
{
    let null = String::from_str("null");
    let success = match find_member(members, "success") {
        Some(at) => {
            if members[at].1 == String::from_str("true") {
                true
            } else if members[at].1 == String::from_str("false") {
                false
            } else {
                return Err(not_an_envelope());
            }
        },
        None => {
            return Err(not_an_envelope());
        },
    };
    let message = match find_member(members, "message") {
        Some(at) => {
            if members[at].1 == null {
                None
            } else {
                match json_string_value(members[at].1.as_str()) {
                    Some(text) => Some(text),
                    None => {
                        return Err(not_an_envelope());
                    },
                }
            }
        },
        None => None,
    };
    let result = match find_member(members, "result") {
        Some(at) => {
            if members[at].1 == null {
                None
            } else {
                Some(members[at].1.clone())
            }
        },
        None => None,
    };
    Ok(APIResult { success, message, result })
}

fn not_an_envelope() -> (e: Error)
    ensures
        e@ == malformed("The response is not an envelope"@),
{
    Error::new(ErrorType::MalformedResponseError, "The response is not an envelope")
}

/// Reads the envelope out of a response body. The result stays JSON text.
///
/// Fails with a `MalformedResponseError` where the body is not a JSON
/// object, with the parser's diagnostic as detail, and where the object is
/// not an envelope.
pub fn parse_envelope(body: &str) -> (r: Result<APIResult<String>, Error>)
    ensures
        match r {
            Ok(envelope) => envelope_of(body@) == Ok::<_, Failure>(single_view(envelope)),
            Err(e) => envelope_of(body@) == Err::<Envelope<Seq<char>>, _>(e@),
        },
{
    match json_object_members(body) {
        Ok(members) => envelope_from_members(&members),
        Err(diagnostic) => Err(
            Error { error_type: ErrorType::MalformedResponseError, message: diagnostic },
        ),
    }
}

/// Reads the envelope out of a response body whose result is a list. The
/// elements of the list stay JSON text.
///
/// Fails as `parse_envelope` does, and with a `MalformedResponseError`
/// where the result is there and is not a JSON array.
pub fn parse_vec_envelope(body: &str) -> (r: Result<APIVecResult<String>, Error>)
    ensures
        match r {
            Ok(envelope) => vec_envelope_of(body@) == Ok::<_, Failure>(vec_view(envelope)),
            Err(e) => vec_envelope_of(body@) == Err::<Envelope<Seq<Seq<char>>>, _>(e@),
        },
{
    let envelope = parse_envelope(body)?;
    let result = match &envelope.result {
        Some(text) => match json_array_items(text.as_str()) {
            Ok(items) => Some(items),
            Err(diagnostic) => {
                return Err(
                    Error { error_type: ErrorType::MalformedResponseError, message: diagnostic },
                );
            },
        },
        None => None,
    };
    Ok(APIVecResult { success: envelope.success, message: envelope.message, result })
}

} // verus!
