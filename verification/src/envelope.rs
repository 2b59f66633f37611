//! The error envelope of the speech service, `{"error": {"message": .., "code": ..}}`,
//! and the failure that an error body becomes.

use crate::error::{caused_spec, remote_api_spec, ErrorKind, SpeakError, SpeakErrorView};
use crate::json::{
    as_text, error_detail, is_null, json_error_text, json_is_null, json_member, json_parse,
    json_text, member, parse_document,
};
use vstd::prelude::*;

verus! {

/// What the service says of a request that it refused.
#[derive(Debug, PartialEq, Eq)]
pub struct ApiErrorEnvelope {
    pub message: String,
    pub code: Option<String>,
}

/// The model of an [`ApiErrorEnvelope`].
pub struct ApiErrorEnvelopeView {
    pub message: Seq<char>,
    pub code: Option<Seq<char>>,
}

impl View for ApiErrorEnvelope {
    type V = ApiErrorEnvelopeView;

    open spec fn view(&self) -> ApiErrorEnvelopeView {
        ApiErrorEnvelopeView {
            message: self.message@,
            code: match self.code {
                Some(code) => Some(code@),
                None => None,
            },
        }
    }
}

/// What a JSON value holds under one member name, as far as the envelope cares.
#[derive(Debug, PartialEq, Eq)]
pub enum Member {
    /// The value is no object, or has no member of that name.
    Absent,
    /// The member is `null`.
    Null,
    /// The member is a string.
    Text(String),
    /// The member is a number, a boolean, an array or an object.
    Other,
}

/// The model of a [`Member`].
pub enum MemberView {
    Absent,
    Null,
    Text(Seq<char>),
    Other,
}

impl View for Member {
    type V = MemberView;

    open spec fn view(&self) -> MemberView {
        match self {
            Member::Absent => MemberView::Absent,
            Member::Null => MemberView::Null,
            Member::Text(text) => MemberView::Text(text@),
            Member::Other => MemberView::Other,
        }
    }
}

/// Why a JSON document is no error envelope.
#[derive(Clone, Copy, Debug, PartialEq, Eq, Structural)]
pub enum Defect {
    /// The document has no member `error`.
    MissingError,
    /// The `error` member has no member `message`.
    MissingMessage,
    /// The `message` is no string.
    InvalidMessage,
    /// The `code` is neither a string nor `null`.
    InvalidCode,
}

/// The words that describe a defect.
pub open spec fn defect_text(defect: Defect) -> Seq<char> {
    match defect {
        Defect::MissingError => "missing field `error`"@,
        Defect::MissingMessage => "missing field `message`"@,
        Defect::InvalidMessage => "field `message` is not a string"@,
        Defect::InvalidCode => "field `code` is neither a string nor null"@,
    }
}

/// The member of `value` under `key`, read through the names of the JSON operations.
pub open spec fn member_of(value: serde_json::Value, key: Seq<char>) -> MemberView {
    match json_member(value, key) {
        None => MemberView::Absent,
        Some(inner) => match json_text(inner) {
            Some(text) => MemberView::Text(text),
            None => if json_is_null(inner) {
                MemberView::Null
            } else {
                MemberView::Other
            },
        },
    }
}

/// The envelope that a `message` member and a `code` member make, or the defect.
/// The message must be a string; the code may be a string, `null` or absent.
pub open spec fn assemble(message: MemberView, code: MemberView) -> Result<
    ApiErrorEnvelopeView,
    Defect,
> {
    match message {
        MemberView::Absent => Err(Defect::MissingMessage),
        MemberView::Null | MemberView::Other => Err(Defect::InvalidMessage),
        MemberView::Text(text) => match code {
            MemberView::Absent | MemberView::Null => Ok(
                ApiErrorEnvelopeView { message: text, code: None },
            ),
            MemberView::Text(code_text) => Ok(
                ApiErrorEnvelopeView { message: text, code: Some(code_text) },
            ),
            MemberView::Other => Err(Defect::InvalidCode),
        },
    }
}

/// The envelope that a parsed document holds, or the defect.
pub open spec fn envelope_of(document: serde_json::Value) -> Result<ApiErrorEnvelopeView, Defect> {
    match json_member(document, "error"@) {
        None => Err(Defect::MissingError),
        Some(error) => assemble(member_of(error, "message"@), member_of(error, "code"@)),
    }
}

/// The code as the message shows it: empty where the envelope has none.
pub open spec fn code_or_empty(code: Option<Seq<char>>) -> Seq<char> {
    match code {
        Some(text) => text,
        None => Seq::empty(),
    }
}

/// The failure that an envelope becomes: `API error (<code or empty>): <message>`.
pub open spec fn failure_of_envelope(envelope: ApiErrorEnvelopeView) -> SpeakErrorView {
    remote_api_spec(code_or_empty(envelope.code), envelope.message)
}

/// The failure that a document becomes: the envelope's, or a malformed payload
/// with the defect's words.
pub open spec fn failure_of_document(document: serde_json::Value) -> SpeakErrorView {
    match envelope_of(document) {
        Ok(envelope) => failure_of_envelope(envelope),
        Err(defect) => caused_spec(ErrorKind::MalformedErrorPayload, defect_text(defect)),
    }
}

/// The failure that an error body becomes. A body that is no JSON is a
/// malformed payload with the parser's words.
pub open spec fn failure_of_body(body: Seq<u8>) -> SpeakErrorView {
    match json_parse(body) {
        Ok(document) => failure_of_document(document),
        Err(error) => caused_spec(ErrorKind::MalformedErrorPayload, json_error_text(error)),
    }
}

/// The words that describe a defect, as a string slice.
pub fn describe(defect: Defect) -> (text: &'static str)
    ensures
        text@ == defect_text(defect),
{
    match defect {
        Defect::MissingError => "missing field `error`",
        Defect::MissingMessage => "missing field `message`",
        Defect::InvalidMessage => "field `message` is not a string",
        Defect::InvalidCode => "field `code` is neither a string nor null",
    }
}

/// Reads the member of `value` under `key`.
pub fn read_member(value: &serde_json::Value, key: &str) -> (found: Member)
    ensures
        found@ == member_of(*value, key@),
{
    match member(value, key) {
        None => Member::Absent,
        Some(inner) => match as_text(inner) {
            Some(text) => Member::Text(text.to_owned()),
            None => if is_null(inner) {
                Member::Null
            } else {
                Member::Other
            },
        },
    }
}

/// Makes the envelope from its two members, or says what is wrong with them.
pub fn envelope_from_members(message: Member, code: Member) -> (result: Result<
    ApiErrorEnvelope,
    Defect,
>)
    ensures
        match result {
            Ok(envelope) => assemble(message@, code@) == Ok::<ApiErrorEnvelopeView, Defect>(
                envelope@,
            ),
            Err(defect) => assemble(message@, code@) == Err::<ApiErrorEnvelopeView, Defect>(
                defect,
            ),
        },
{
    match message {
        Member::Absent => Err(Defect::MissingMessage),
        Member::Null => Err(Defect::InvalidMessage),
        Member::Other => Err(Defect::InvalidMessage),
        Member::Text(text) => match code {
            Member::Absent => Ok(ApiErrorEnvelope { message: text, code: None }),
            Member::Null => Ok(ApiErrorEnvelope { message: text, code: None }),
            Member::Text(code_text) => Ok(
                ApiErrorEnvelope { message: text, code: Some(code_text) },
            ),
            Member::Other => Err(Defect::InvalidCode),
        },
    }
}

/// Reads the envelope out of a parsed document.
pub fn read_envelope(document: &serde_json::Value) -> (result: Result<ApiErrorEnvelope, Defect>)
    ensures
        match result {
            Ok(envelope) => envelope_of(*document) == Ok::<ApiErrorEnvelopeView, Defect>(
                envelope@,
            ),
            Err(defect) => envelope_of(*document) == Err::<ApiErrorEnvelopeView, Defect>(defect),
        },
{
    match member(document, "error") {
        None => Err(Defect::MissingError),
        Some(error) => {
            let message = read_member(error, "message");
            let code = read_member(error, "code");
            envelope_from_members(message, code)
        },
    }
}

/// The failure for an envelope: kind `RemoteApiError`, message
/// `API error (<code or empty>): <message>`.
pub fn failure_from_envelope(envelope: &ApiErrorEnvelope) -> (error: SpeakError)
    ensures
        error@ == failure_of_envelope(envelope@),
{
    match &envelope.code {
        Some(code) => SpeakError::remote_api(code.as_str(), envelope.message.as_str()),
        None => {
            let error = SpeakError::remote_api("", envelope.message.as_str());
            proof {
                reveal_strlit("");
                assert(""@ =~= Seq::<char>::empty());
            }
            error
        },
    }
}

/// The failure for a parsed error document.
pub fn failure_from_document(document: &serde_json::Value) -> (error: SpeakError)
    ensures
        error@ == failure_of_document(*document),
{
    match read_envelope(document) {
        Ok(envelope) => failure_from_envelope(&envelope),
        Err(defect) => SpeakError::malformed_error_payload(describe(defect)),
    }
}

/// Classifies the body of a response outside the success class: the failure
/// of the envelope that it holds, or a malformed payload that says why it
/// holds none. Never fails to answer.
pub fn classify_failure(body: &[u8]) -> (error: SpeakError)
    ensures
        error@ == failure_of_body(body@),
{
    match parse_document(body) {
        Ok(document) => failure_from_document(&document),
        Err(problem) => {
            let detail = error_detail(&problem);
            SpeakError::malformed_error_payload(detail.as_str())
        },
    }
}

} // verus!
