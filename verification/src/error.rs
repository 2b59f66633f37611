//! The error taxonomy of the pipeline and the one message each failure becomes.

use vstd::prelude::*;

verus! {

/// The kinds of failure that end an invocation.
#[derive(Clone, Copy, Debug, PartialEq, Eq, Structural)]
pub enum ErrorKind {
    /// The required token is absent from the configuration.
    MissingCredential,
    /// The transport could not complete the exchange.
    NetworkFailure,
    /// The service answered outside the success class with a readable envelope.
    RemoteApiError,
    /// The service answered outside the success class and its body is no envelope.
    MalformedErrorPayload,
    /// The payload is not valid or recognized audio.
    DecodeFailure,
    /// No audio output device could be opened.
    OutputUnavailable,
    /// No playback sink could be created on the device.
    SinkCreationFailure,
    /// The output failed after playback had started.
    PlaybackFailure,
}

/// A failure as the caller sees it: a readable message tagged with its kind.
#[derive(Debug, PartialEq, Eq)]
pub struct SpeakError {
    pub kind: ErrorKind,
    pub message: String,
}

/// The model of a [`SpeakError`].
pub struct SpeakErrorView {
    pub kind: ErrorKind,
    pub message: Seq<char>,
}

impl View for SpeakError {
    type V = SpeakErrorView;

    open spec fn view(&self) -> SpeakErrorView {
        SpeakErrorView { kind: self.kind, message: self.message@ }
    }
}

impl Clone for SpeakError {
    fn clone(&self) -> (copy: SpeakError)
        ensures
            copy == *self,
    {
        SpeakError { kind: self.kind, message: self.message.clone() }
    }
}

/// The words that open the message of each kind, up to the text the failure brings.
pub open spec fn prefix_text(kind: ErrorKind) -> Seq<char> {
    match kind {
        ErrorKind::MissingCredential => "Missing "@,
        ErrorKind::NetworkFailure => "Network error: "@,
        ErrorKind::RemoteApiError => "API error ("@,
        ErrorKind::MalformedErrorPayload => "Malformed error payload: "@,
        ErrorKind::DecodeFailure => "Failed to decode OGG: "@,
        ErrorKind::OutputUnavailable => "Failed to open audio output: "@,
        ErrorKind::SinkCreationFailure => "Failed to create sink: "@,
        ErrorKind::PlaybackFailure => "Playback failed: "@,
    }
}

/// The message for a credential that is missing: it names the variable.
pub open spec fn missing_credential_text(variable: Seq<char>, cause: Seq<char>) -> Seq<char> {
    prefix_text(ErrorKind::MissingCredential) + variable + ": "@ + cause
}

/// The message for an envelope that the service sent: `API error (<code>): <message>`.
pub open spec fn remote_api_text(code: Seq<char>, message: Seq<char>) -> Seq<char> {
    prefix_text(ErrorKind::RemoteApiError) + code + "): "@ + message
}

/// The message of a kind that brings one text: the kind's prefix, then the text.
pub open spec fn caused_text(kind: ErrorKind, cause: Seq<char>) -> Seq<char> {
    prefix_text(kind) + cause
}

/// The model of the failure for a missing credential.
pub open spec fn missing_credential_spec(variable: Seq<char>, cause: Seq<char>) -> SpeakErrorView {
    SpeakErrorView {
        kind: ErrorKind::MissingCredential,
        message: missing_credential_text(variable, cause),
    }
}

/// The model of the failure for an envelope with the given code and message.
pub open spec fn remote_api_spec(code: Seq<char>, message: Seq<char>) -> SpeakErrorView {
    SpeakErrorView { kind: ErrorKind::RemoteApiError, message: remote_api_text(code, message) }
}

/// The model of a failure of a kind that brings one cause text.
pub open spec fn caused_spec(kind: ErrorKind, cause: Seq<char>) -> SpeakErrorView {
    SpeakErrorView { kind, message: caused_text(kind, cause) }
}

/// The prefix of a kind as a string slice.
pub fn prefix(kind: ErrorKind) -> (text: &'static str)
    ensures
        text@ == prefix_text(kind),
{
    match kind {
        ErrorKind::MissingCredential => "Missing ",
        ErrorKind::NetworkFailure => "Network error: ",
        ErrorKind::RemoteApiError => "API error (",
        ErrorKind::MalformedErrorPayload => "Malformed error payload: ",
        ErrorKind::DecodeFailure => "Failed to decode OGG: ",
        ErrorKind::OutputUnavailable => "Failed to open audio output: ",
        ErrorKind::SinkCreationFailure => "Failed to create sink: ",
        ErrorKind::PlaybackFailure => "Playback failed: ",
    }
}

impl SpeakError {
    /// The failure for a credential variable without a usable value.
    pub fn missing_credential(variable: &str, cause: &str) -> (error: SpeakError)
        ensures
            error@ == missing_credential_spec(variable@, cause@),
    {
        let mut message = String::from_str(prefix(ErrorKind::MissingCredential));
        message.append(variable);
        message.append(": ");
        message.append(cause);
        SpeakError { kind: ErrorKind::MissingCredential, message }
    }

    /// The failure for an error envelope; an absent code is passed as the empty text.
    pub fn remote_api(code: &str, detail: &str) -> (error: SpeakError)
        ensures
            error@ == remote_api_spec(code@, detail@),
    {
        let mut message = String::from_str(prefix(ErrorKind::RemoteApiError));
        message.append(code);
        message.append("): ");
        message.append(detail);
        SpeakError { kind: ErrorKind::RemoteApiError, message }
    }

    /// The failure of a transport that could not complete the exchange.
    pub fn network_failure(cause: &str) -> (error: SpeakError)
        ensures
            error@ == caused_spec(ErrorKind::NetworkFailure, cause@),
    {
        with_cause(ErrorKind::NetworkFailure, cause)
    }

    /// The failure for an error body that is no envelope; `detail` says why.
    pub fn malformed_error_payload(detail: &str) -> (error: SpeakError)
        ensures
            error@ == caused_spec(ErrorKind::MalformedErrorPayload, detail@),
    {
        with_cause(ErrorKind::MalformedErrorPayload, detail)
    }

    /// The failure for a payload that is not valid or recognized audio.
    pub fn decode_failure(cause: &str) -> (error: SpeakError)
        ensures
            error@ == caused_spec(ErrorKind::DecodeFailure, cause@),
    {
        with_cause(ErrorKind::DecodeFailure, cause)
    }

    /// The failure for an output device that could not be opened.
    pub fn output_unavailable(cause: &str) -> (error: SpeakError)
        ensures
            error@ == caused_spec(ErrorKind::OutputUnavailable, cause@),
    {
        with_cause(ErrorKind::OutputUnavailable, cause)
    }

    /// The failure for a sink that could not be created.
    pub fn sink_creation_failure(cause: &str) -> (error: SpeakError)
        ensures
            error@ == caused_spec(ErrorKind::SinkCreationFailure, cause@),
    {
        with_cause(ErrorKind::SinkCreationFailure, cause)
    }

    /// The failure for an output that broke after playback had started.
    pub fn playback_failure(cause: &str) -> (error: SpeakError)
        ensures
            error@ == caused_spec(ErrorKind::PlaybackFailure, cause@),
    {
        with_cause(ErrorKind::PlaybackFailure, cause)
    }
}

/// A failure whose message is the kind's prefix followed by `cause`.
fn with_cause(kind: ErrorKind, cause: &str) -> (error: SpeakError)
    ensures
        error@ == caused_spec(kind, cause@),
{
    let mut message = String::from_str(prefix(kind));
    message.append(cause);
    SpeakError { kind, message }
}

} // verus!
