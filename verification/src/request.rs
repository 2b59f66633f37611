//! The request builder: the synthesis request, its JSON payload, and the HTTP
//! request that carries it to the speech service.

use crate::config::{SpeechConfig, SpeechConfigView};
use crate::error::{caused_spec, ErrorKind, SpeakError, SpeakErrorView};
use crate::json::{error_detail, json_error_text, json_string_literal, quote};
use vstd::prelude::*;

verus! {

/// What to synthesize: the text, and the voice and model to speak it with.
/// The text is never empty, and a request does not change once it is built.
#[derive(Debug, PartialEq, Eq)]
pub struct SpeechRequest {
    text: String,
    voice: String,
    model: String,
}

/// The model of a [`SpeechRequest`].
pub struct SpeechRequestView {
    pub text: Seq<char>,
    pub voice: Seq<char>,
    pub model: Seq<char>,
}

impl View for SpeechRequest {
    type V = SpeechRequestView;

    closed spec fn view(&self) -> SpeechRequestView {
        SpeechRequestView { text: self.text@, voice: self.voice@, model: self.model@ }
    }
}

/// The HTTP method of a request. The speech service is asked by `POST`.
#[derive(Clone, Copy, Debug, PartialEq, Eq, Structural)]
pub enum HttpMethod {
    Post,
}

/// One header of an HTTP request.
#[derive(Debug, PartialEq, Eq)]
pub struct Header {
    pub name: String,
    pub value: String,
}

/// The model of a [`Header`].
pub struct HeaderView {
    pub name: Seq<char>,
    pub value: Seq<char>,
}

impl View for Header {
    type V = HeaderView;

    open spec fn view(&self) -> HeaderView {
        HeaderView { name: self.name@, value: self.value@ }
    }
}

/// An HTTP request as plain values, ready for a transport to send.
#[derive(Debug, PartialEq, Eq)]
pub struct HttpRequest {
    pub method: HttpMethod,
    pub url: String,
    pub headers: Vec<Header>,
    pub body: String,
}

/// The model of an [`HttpRequest`].
pub struct HttpRequestView {
    pub method: HttpMethod,
    pub url: Seq<char>,
    pub headers: Seq<HeaderView>,
    pub body: Seq<char>,
}

impl View for HttpRequest {
    type V = HttpRequestView;

    open spec fn view(&self) -> HttpRequestView {
        HttpRequestView {
            method: self.method,
            url: self.url@,
            headers: self.headers@.map_values(|header: Header| header@),
            body: self.body@,
        }
    }
}

/// The request for `text` with the given voice and model: each field holds
/// exactly what was passed.
pub open spec fn request_of(
    text: Seq<char>,
    voice: Seq<char>,
    model: Seq<char>,
) -> SpeechRequestView {
    SpeechRequestView { text, voice, model }
}

/// The JSON object of the payload, given the string literals of its three
/// members: `{"model":<model>,"voice":<voice>,"input":<input>}`.
pub open spec fn payload_text(model: Seq<char>, voice: Seq<char>, input: Seq<char>) -> Seq<char> {
    "{\"model\":"@ + model + ",\"voice\":"@ + voice + ",\"input\":"@ + input + "}"@
}

/// The payload of a request: the JSON object whose `model`, `voice` and
/// `input` members are the JSON string literals of the request's model, voice
/// and text. Where a literal cannot be written, the first such error.
pub open spec fn payload_of(request: SpeechRequestView) -> Result<Seq<char>, serde_json::Error> {
    match json_string_literal(request.model) {
        Err(error) => Err(error),
        Ok(model) => match json_string_literal(request.voice) {
            Err(error) => Err(error),
            Ok(voice) => match json_string_literal(request.text) {
                Err(error) => Err(error),
                Ok(input) => Ok(payload_text(model, voice, input)),
            },
        },
    }
}

/// The value of the `Authorization` header for a bearer token.
pub open spec fn bearer_text(token: Seq<char>) -> Seq<char> {
    "Bearer "@ + token
}

/// The headers of the speech request: the bearer token and the content type.
pub open spec fn headers_of(token: Seq<char>) -> Seq<HeaderView> {
    seq![
        HeaderView { name: "Authorization"@, value: bearer_text(token) },
        HeaderView { name: "Content-Type"@, value: "application/json"@ },
    ]
}

/// The payload as the transport gets it, or the network failure of a payload
/// that could not be written, with the serializer's words.
pub open spec fn written(request: SpeechRequestView) -> Result<Seq<char>, SpeakErrorView> {
    match payload_of(request) {
        Ok(body) => Ok(body),
        Err(error) => Err(caused_spec(ErrorKind::NetworkFailure, json_error_text(error))),
    }
}

/// The HTTP request that posts `body` to the configured endpoint under the
/// bearer token.
pub open spec fn posted(
    config: SpeechConfigView,
    token: Seq<char>,
    body: Seq<char>,
) -> HttpRequestView {
    HttpRequestView {
        method: HttpMethod::Post,
        url: config.endpoint,
        headers: headers_of(token),
        body,
    }
}

/// The HTTP request that carries `request` to the configured endpoint, or the
/// network failure of a payload that could not be written.
pub open spec fn prepared(
    config: SpeechConfigView,
    request: SpeechRequestView,
    token: Seq<char>,
) -> Result<HttpRequestView, SpeakErrorView> {
    match written(request) {
        Ok(body) => Ok(posted(config, token, body)),
        Err(error) => Err(error),
    }
}

impl SpeechRequest {
    /// What every request holds true: its text is not empty.
    #[verifier::type_invariant]
    spec fn has_text(&self) -> bool {
        self.text@.len() > 0
    }

    /// Builds the request for a text that is not empty. Nothing is validated,
    /// cut or re-encoded: the request holds the text, the voice and the model
    /// as they were passed.
    pub fn build(text: String, voice: String, model: String) -> (request: SpeechRequest)
        requires
            text@.len() > 0,
        ensures
            request@ == request_of(text@, voice@, model@),
    {
        SpeechRequest { text, voice, model }
    }

    /// The text to speak, which the payload carries as its `input`.
    pub fn text(&self) -> (text: &str)
        ensures
            text@ == self@.text,
            text@.len() > 0,
    {
        proof {
            use_type_invariant(self);
        }
        self.text.as_str()
    }

    /// The voice identifier.
    pub fn voice(&self) -> (voice: &str)
        ensures
            voice@ == self@.voice,
    {
        self.voice.as_str()
    }

    /// The model identifier.
    pub fn model(&self) -> (model: &str)
        ensures
            model@ == self@.model,
    {
        self.model.as_str()
    }

    /// Gives the text back and drops the rest of the request.
    pub fn into_text(self) -> (text: String)
        ensures
            text@ == self@.text,
            text@.len() > 0,
    {
        proof {
            use_type_invariant(&self);
        }
        self.text
    }

    /// Writes the three string literals and frames them as the JSON object.
    fn encode(&self) -> (result: Result<String, serde_json::Error>)
        ensures
            match result {
                Ok(body) => payload_of(self@) == Ok::<Seq<char>, serde_json::Error>(body@),
                Err(error) => payload_of(self@) == Err::<Seq<char>, serde_json::Error>(error),
            },
    {
        let model = match quote(self.model.as_str()) {
            Ok(literal) => literal,
            Err(error) => {
                return Err(error);
            },
        };
        let voice = match quote(self.voice.as_str()) {
            Ok(literal) => literal,
            Err(error) => {
                return Err(error);
            },
        };
        let input = match quote(self.text.as_str()) {
            Ok(literal) => literal,
            Err(error) => {
                return Err(error);
            },
        };
        Ok(frame_payload(model.as_str(), voice.as_str(), input.as_str()))
    }

    /// Writes the JSON payload of the request: the object with the members
    /// `model`, `voice` and `input`. A payload that cannot be written is a
    /// network failure: the request cannot be completed.
    pub fn payload(&self) -> (result: Result<String, SpeakError>)
        ensures
            match result {
                Ok(body) => written(self@) == Ok::<Seq<char>, SpeakErrorView>(body@),
                Err(error) => written(self@) == Err::<Seq<char>, SpeakErrorView>(error@),
            },
    {
        match self.encode() {
            Ok(body) => Ok(body),
            Err(problem) => {
                let detail = error_detail(&problem);
                Err(SpeakError::network_failure(detail.as_str()))
            },
        }
    }
}

/// Frames the three string literals as the JSON object of the payload.
pub fn frame_payload(model: &str, voice: &str, input: &str) -> (body: String)
    ensures
        body@ == payload_text(model@, voice@, input@),
{
    let mut body = String::from_str("{\"model\":");
    body.append(model);
    body.append(",\"voice\":");
    body.append(voice);
    body.append(",\"input\":");
    body.append(input);
    body.append("}");
    body
}

/// The headers of a speech request that is authorized by `token`.
pub fn headers(token: &str) -> (list: Vec<Header>)
    ensures
        list@.map_values(|header: Header| header@) == headers_of(token@),
{
    let mut bearer = String::from_str("Bearer ");
    bearer.append(token);
    let mut list: Vec<Header> = Vec::new();
    list.push(Header { name: String::from_str("Authorization"), value: bearer });
    list.push(
        Header {
            name: String::from_str("Content-Type"),
            value: String::from_str("application/json"),
        },
    );
    assert(list@.map_values(|header: Header| header@) =~= headers_of(token@));
    list
}

/// Makes the HTTP request that posts a payload: a `POST` to the configured
/// endpoint, with the bearer token and the JSON content type as its headers.
pub fn post(config: &SpeechConfig, token: &str, body: String) -> (http: HttpRequest)
    ensures
        http@ == posted(config@, token@, body@),
{
    HttpRequest {
        method: HttpMethod::Post,
        url: config.endpoint.clone(),
        headers: headers(token),
        body,
    }
}

/// Prepares the HTTP request for a synthesis request: a `POST` to the
/// configured endpoint, authorized by the token, with the JSON payload as its
/// body. A payload that cannot be written is a network failure: the request
/// cannot be completed.
pub fn prepare(config: &SpeechConfig, request: &SpeechRequest, token: &str) -> (result: Result<
    HttpRequest,
    SpeakError,
>)
    ensures
        match result {
            Ok(http) => prepared(config@, request@, token@) == Ok::<
                HttpRequestView,
                SpeakErrorView,
            >(http@),
            Err(error) => prepared(config@, request@, token@) == Err::<
                HttpRequestView,
                SpeakErrorView,
            >(error@),
        },
{
    match request.payload() {
        Ok(body) => Ok(post(config, token, body)),
        Err(error) => Err(error),
    }
}

} // verus!
