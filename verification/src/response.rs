//! What the signer's answer means.

use vstd::prelude::*;
use vstd::string::StringExecFns;

use crate::error::{
    text_result_view, Error, ErrorView, FailureKind, RequestFailure, RequestFailureView,
};

verus! {

/// The text of the string member `key` of the JSON object that `body`
/// holds, as `serde_json` reads it. There is none where `body` is not JSON,
/// is JSON but not an object, has no member of that name, or has one that is
/// not a string.
pub uninterp spec fn json_string_member(body: Seq<u8>, key: Seq<char>) -> Option<Seq<char>>;

/// Reads `body` with `serde_json::from_slice` into a `serde_json::Value`,
/// looks `key` up with `Value::get` and takes the text with `Value::as_str`.
///
/// Trusted: the result is that text, or nothing, and depends on the two
/// arguments alone. The parser gives an error, which is nothing here, for
/// any input it cannot read, and nesting deeper than it follows is such an
/// input.
#[verifier::external_body]
pub(crate) fn read_string_member(body: &[u8], key: &str) -> (r: Option<String>)
    ensures
        match r {
            Some(text) => json_string_member(body@, key@) == Some(text@),
            None => json_string_member(body@, key@) is None,
        },
{
    let document: serde_json::Value = serde_json::from_slice(body).ok()?;
    Some(document.get(key)?.as_str()?.to_owned())
}

/// The status that means success.
pub const STATUS_OK: u16 = 200;

/// The member of the body that carries the answer: the signature after a
/// success, the reason after anything else.
pub open spec fn answer_member_spec(status: u16) -> Seq<char> {
    if status == STATUS_OK {
        "signature"@
    } else {
        "error"@
    }
}

/// The message of a success whose body holds no signature.
pub open spec fn undecodable_message() -> Seq<char> {
    "error decoding response body"@
}

/// The failure of a success whose body holds no signature.
pub open spec fn undecodable_spec() -> RequestFailureView {
    RequestFailureView {
        kind: FailureKind::Decode,
        connect: false,
        timeout: false,
        message: undecodable_message(),
    }
}

/// What a status and the answer member of the body, if it could be read,
/// amount to.
///
/// A success with a signature is that signature, untouched. A success
/// without one could not be decoded. Any other status is a rejection: with
/// the signer's reason where the body gives one, with the bare status where
/// it does not.
pub open spec fn interpret_response_spec(status: u16, member: Option<Seq<char>>) -> Result<
    Seq<char>,
    ErrorView,
> {
    if status == STATUS_OK {
        match member {
            Some(signature) => Ok(signature),
            None => Err(ErrorView::Reqwest(undecodable_spec())),
        }
    } else {
        match member {
            Some(reason) => Err(ErrorView::ServerMessage(reason)),
            None => Err(ErrorView::StatusCode(status)),
        }
    }
}

/// What an answer of `status` with `body` amounts to.
pub open spec fn parse_response_spec(body: Seq<u8>, status: u16) -> Result<Seq<char>, ErrorView> {
    interpret_response_spec(status, json_string_member(body, answer_member_spec(status)))
}

/// The name of the member that carries the answer.
pub fn answer_member(status: u16) -> (r: &'static str)
    ensures
        r@ == answer_member_spec(status),
{
    if status == STATUS_OK {
        "signature"
    } else {
        "error"
    }
}

/// Interprets a status together with the answer member of the body.
pub fn interpret_response(status: u16, member: Option<String>) -> (r: Result<String, Error>)
    ensures
        text_result_view(r) == interpret_response_spec(
            status,
            match member {
                Some(text) => Some(text@),
                None => None,
            },
        ),
{
    if status == STATUS_OK {
        match member {
            Some(signature) => Ok(signature),
            None => Err(
                Error::Reqwest(
                    RequestFailure {
                        kind: FailureKind::Decode,
                        connect: false,
                        timeout: false,
                        message: String::from_str("error decoding response body"),
                    },
                ),
            ),
        }
    } else {
        match member {
            Some(reason) => Err(Error::ServerMessage(reason)),
            None => Err(Error::StatusCode(status)),
        }
    }
}

/// Interprets the signer's answer: the signature, or the error that the
/// status and the body stand for.
pub fn parse_response(body: &[u8], status: u16) -> (r: Result<String, Error>)
    ensures
        text_result_view(r) == parse_response_spec(body@, status),
{
    let member = read_string_member(body, answer_member(status));
    interpret_response(status, member)
}

/// A success that carries a signature gives back exactly that signature.
pub proof fn signature_survives_round_trip(signature: Seq<char>)
    ensures
        interpret_response_spec(STATUS_OK, Some(signature)) == Ok::<Seq<char>, ErrorView>(
            signature,
        ),
{
}

/// A rejection is never taken for a signature, nor for a failure of the
/// transport: it is the signer's reason or the bare status.
pub proof fn rejection_is_not_transport(status: u16, member: Option<Seq<char>>)
    requires
        status != STATUS_OK,
    ensures
        interpret_response_spec(status, member) matches Err(e) && (e is ServerMessage
            || e is StatusCode),
        member matches Some(reason) ==> interpret_response_spec(status, member) == Err::<
            Seq<char>,
            ErrorView,
        >(ErrorView::ServerMessage(reason)),
        member is None ==> interpret_response_spec(status, member) == Err::<
            Seq<char>,
            ErrorView,
        >(ErrorView::StatusCode(status)),
{
}

} // verus!
