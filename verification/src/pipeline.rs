//! The orchestrator as a state machine. The caller performs the outside work
//! (the network exchange, the decoding, the playback) and reports each
//! outcome as an event; [`step`] decides the next state and says what to do.

use crate::config::{SpeechConfig, SpeechConfigView};
use crate::credential::{resolve_credential, resolved, CredentialLookup, CredentialLookupView};
use crate::envelope::failure_of_body;
use crate::error::{caused_spec, ErrorKind, SpeakError, SpeakErrorView};
use crate::outcome::{confirmation_text, PipelineResult, PipelineResultView};
use crate::request::{prepare, prepared, request_of, HttpRequest, HttpRequestView, SpeechRequest};
use crate::response::{check_status, resolve_failure, success_class};
use vstd::prelude::*;

verus! {

/// The stages of an invocation, in the order in which it passes them.
/// `Classifying` is passed within the step that receives the response.
#[derive(Clone, Copy, Debug, PartialEq, Eq, Structural)]
pub enum Stage {
    Idle,
    Requesting,
    Classifying,
    Decoding,
    Playing,
    Done,
    Failed,
}

/// Where an invocation rests between two steps.
#[derive(Debug, PartialEq, Eq)]
pub enum PipelineState {
    /// Nothing has happened yet.
    Idle,
    /// The request is with the transport.
    Requesting { text: String },
    /// The audio payload is with the decoder.
    Decoding { text: String },
    /// The decoded audio is with the playback engine.
    Playing { text: String },
    /// The text was spoken. Terminal.
    Done { text: String },
    /// The invocation failed. Terminal.
    Failed { error: SpeakError },
}

/// The model of a [`PipelineState`].
pub enum PipelineStateView {
    Idle,
    Requesting { text: Seq<char> },
    Decoding { text: Seq<char> },
    Playing { text: Seq<char> },
    Done { text: Seq<char> },
    Failed { error: SpeakErrorView },
}

impl View for PipelineState {
    type V = PipelineStateView;

    open spec fn view(&self) -> PipelineStateView {
        match self {
            PipelineState::Idle => PipelineStateView::Idle,
            PipelineState::Requesting { text } => PipelineStateView::Requesting { text: text@ },
            PipelineState::Decoding { text } => PipelineStateView::Decoding { text: text@ },
            PipelineState::Playing { text } => PipelineStateView::Playing { text: text@ },
            PipelineState::Done { text } => PipelineStateView::Done { text: text@ },
            PipelineState::Failed { error } => PipelineStateView::Failed { error: error@ },
        }
    }
}

/// What the outside world reports to the pipeline.
#[derive(Debug, PartialEq, Eq)]
pub enum Event {
    /// An invocation begins, with the text to speak and what the
    /// configuration holds under the credential variable.
    Started { text: String, credential: CredentialLookup },
    /// The transport could not complete the exchange.
    TransportFailed { cause: String },
    /// The transport completed the exchange; the whole body is in memory.
    Responded { status: u16, body: Vec<u8> },
    /// The decoder recognized the payload.
    Decoded,
    /// The decoder did not recognize the payload.
    DecodeFailed { cause: String },
    /// No output device could be opened.
    OutputUnavailable { cause: String },
    /// No sink could be created on the device.
    SinkCreationFailed { cause: String },
    /// The output failed after playback had started.
    PlaybackFailed { cause: String },
    /// The sink has drained; the audio was played to its end.
    PlaybackFinished,
}

/// The model of an [`Event`].
pub enum EventView {
    Started { text: Seq<char>, credential: CredentialLookupView },
    TransportFailed { cause: Seq<char> },
    Responded { status: u16, body: Seq<u8> },
    Decoded,
    DecodeFailed { cause: Seq<char> },
    OutputUnavailable { cause: Seq<char> },
    SinkCreationFailed { cause: Seq<char> },
    PlaybackFailed { cause: Seq<char> },
    PlaybackFinished,
}

impl View for Event {
    type V = EventView;

    open spec fn view(&self) -> EventView {
        match self {
            Event::Started { text, credential } => EventView::Started {
                text: text@,
                credential: credential@,
            },
            Event::TransportFailed { cause } => EventView::TransportFailed { cause: cause@ },
            Event::Responded { status, body } => EventView::Responded {
                status: *status,
                body: body@,
            },
            Event::Decoded => EventView::Decoded,
            Event::DecodeFailed { cause } => EventView::DecodeFailed { cause: cause@ },
            Event::OutputUnavailable { cause } => EventView::OutputUnavailable { cause: cause@ },
            Event::SinkCreationFailed { cause } => EventView::SinkCreationFailed { cause: cause@ },
            Event::PlaybackFailed { cause } => EventView::PlaybackFailed { cause: cause@ },
            Event::PlaybackFinished => EventView::PlaybackFinished,
        }
    }
}

/// What the caller is to do next.
#[derive(Debug, PartialEq, Eq)]
pub enum Action {
    /// Send the request, wait for the whole response, and report
    /// `Responded` or `TransportFailed`.
    Send(HttpRequest),
    /// Hand the payload to the decoder and report `Decoded` or `DecodeFailed`.
    Decode(Vec<u8>),
    /// Open the default output, create a sink, enqueue the decoded audio, wait
    /// until it has drained, and report how that went.
    Play,
    /// Return the result. The invocation is over.
    Finish(PipelineResult),
    /// The event does not belong to the state. Nothing has changed.
    Rejected,
}

/// The model of an [`Action`].
pub enum ActionView {
    Send(HttpRequestView),
    Decode(Seq<u8>),
    Play,
    Finish(PipelineResultView),
    Rejected,
}

impl View for Action {
    type V = ActionView;

    open spec fn view(&self) -> ActionView {
        match self {
            Action::Send(request) => ActionView::Send(request@),
            Action::Decode(payload) => ActionView::Decode(payload@),
            Action::Play => ActionView::Play,
            Action::Finish(result) => ActionView::Finish(result@),
            Action::Rejected => ActionView::Rejected,
        }
    }
}

/// One step of the machine: the state it comes to rest in and the action for
/// the caller.
#[derive(Debug, PartialEq, Eq)]
pub struct Transition {
    pub state: PipelineState,
    pub action: Action,
}

/// The model of a [`Transition`].
pub struct TransitionView {
    pub state: PipelineStateView,
    pub action: ActionView,
}

impl View for Transition {
    type V = TransitionView;

    open spec fn view(&self) -> TransitionView {
        TransitionView { state: self.state@, action: self.action@ }
    }
}

impl PipelineStateView {
    /// The stage that the state stands for.
    pub open spec fn stage(self) -> Stage {
        match self {
            PipelineStateView::Idle => Stage::Idle,
            PipelineStateView::Requesting { .. } => Stage::Requesting,
            PipelineStateView::Decoding { .. } => Stage::Decoding,
            PipelineStateView::Playing { .. } => Stage::Playing,
            PipelineStateView::Done { .. } => Stage::Done,
            PipelineStateView::Failed { .. } => Stage::Failed,
        }
    }

    /// Whether the invocation is over.
    pub open spec fn terminal(self) -> bool {
        self is Done || self is Failed
    }
}

impl EventView {
    /// Whether the event may be handed to the pipeline: an invocation is
    /// started with a text that is not empty.
    pub open spec fn wf(self) -> bool {
        self matches EventView::Started { text, .. } ==> text.len() > 0
    }
}

/// The place of a stage in the order of the pipeline.
pub open spec fn rank(stage: Stage) -> nat {
    match stage {
        Stage::Idle => 0,
        Stage::Requesting => 1,
        Stage::Classifying => 2,
        Stage::Decoding => 3,
        Stage::Playing => 4,
        Stage::Done => 5,
        Stage::Failed => 6,
    }
}

/// The stage in which a failure of this kind arises.
pub open spec fn arises_in(kind: ErrorKind) -> Stage {
    match kind {
        ErrorKind::MissingCredential | ErrorKind::NetworkFailure => Stage::Requesting,
        ErrorKind::RemoteApiError | ErrorKind::MalformedErrorPayload => Stage::Classifying,
        ErrorKind::DecodeFailure => Stage::Decoding,
        ErrorKind::OutputUnavailable
        | ErrorKind::SinkCreationFailure
        | ErrorKind::PlaybackFailure => Stage::Playing,
    }
}

/// The step into `Failed`: the failure is kept, and its message is returned.
pub open spec fn failed(error: SpeakErrorView) -> TransitionView {
    TransitionView {
        state: PipelineStateView::Failed { error },
        action: ActionView::Finish(PipelineResultView::Failure { error }),
    }
}

/// The step that leaves a state as it is.
pub open spec fn rejected(state: PipelineStateView) -> TransitionView {
    TransitionView { state, action: ActionView::Rejected }
}

/// The step out of `Idle`: the credential is resolved and the request is
/// built with the configured voice and model. Without a credential, or with a
/// payload that cannot be written, the invocation fails and nothing is sent.
pub open spec fn started(
    config: SpeechConfigView,
    text: Seq<char>,
    credential: CredentialLookupView,
) -> TransitionView {
    match resolved(config.credential_variable, credential) {
        Err(error) => failed(error),
        Ok(token) => match prepared(config, request_of(text, config.voice, config.model), token) {
            Err(error) => failed(error),
            Ok(request) => TransitionView {
                state: PipelineStateView::Requesting { text },
                action: ActionView::Send(request),
            },
        },
    }
}

/// The step on a response: it is classified by its status. In the success
/// class the body goes to the decoder; otherwise the body is read as an error
/// envelope and the invocation fails.
pub open spec fn received(text: Seq<char>, status: u16, body: Seq<u8>) -> TransitionView {
    if success_class(status) {
        TransitionView {
            state: PipelineStateView::Decoding { text },
            action: ActionView::Decode(body),
        }
    } else {
        failed(failure_of_body(body))
    }
}

/// The transition function of the pipeline.
pub open spec fn advance(
    config: SpeechConfigView,
    state: PipelineStateView,
    event: EventView,
) -> TransitionView {
    match (state, event) {
        (PipelineStateView::Idle, EventView::Started { text, credential }) => started(
            config,
            text,
            credential,
        ),
        (PipelineStateView::Requesting { .. }, EventView::TransportFailed { cause }) => failed(
            caused_spec(ErrorKind::NetworkFailure, cause),
        ),
        (PipelineStateView::Requesting { text }, EventView::Responded { status, body }) => received(
            text,
            status,
            body,
        ),
        (PipelineStateView::Decoding { text }, EventView::Decoded) => TransitionView {
            state: PipelineStateView::Playing { text },
            action: ActionView::Play,
        },
        (PipelineStateView::Decoding { .. }, EventView::DecodeFailed { cause }) => failed(
            caused_spec(ErrorKind::DecodeFailure, cause),
        ),
        (PipelineStateView::Playing { .. }, EventView::OutputUnavailable { cause }) => failed(
            caused_spec(ErrorKind::OutputUnavailable, cause),
        ),
        (PipelineStateView::Playing { .. }, EventView::SinkCreationFailed { cause }) => failed(
            caused_spec(ErrorKind::SinkCreationFailure, cause),
        ),
        (PipelineStateView::Playing { .. }, EventView::PlaybackFailed { cause }) => failed(
            caused_spec(ErrorKind::PlaybackFailure, cause),
        ),
        (PipelineStateView::Playing { text }, EventView::PlaybackFinished) => TransitionView {
            state: PipelineStateView::Done { text },
            action: ActionView::Finish(
                PipelineResultView::Success { echo: confirmation_text(text) },
            ),
        },
        _ => rejected(state),
    }
}

/// Steps into `Failed` with the given failure.
fn fail(error: SpeakError) -> (transition: Transition)
    ensures
        transition@ == failed(error@),
{
    let kept = error.clone();
    Transition {
        state: PipelineState::Failed { error: kept },
        action: Action::Finish(PipelineResult::Failure { error }),
    }
}

/// Leaves the state as it is.
fn reject(state: PipelineState) -> (transition: Transition)
    ensures
        transition@ == rejected(state@),
{
    Transition { state, action: Action::Rejected }
}

/// Steps out of `Idle`.
fn start(config: &SpeechConfig, text: String, credential: CredentialLookup) -> (transition:
    Transition)
    requires
        text@.len() > 0,
    ensures
        transition@ == started(config@, text@, credential@),
{
    match resolve_credential(config.credential_variable.as_str(), credential) {
        Err(error) => fail(error),
        Ok(token) => {
            let request = SpeechRequest::build(text, config.voice.clone(), config.model.clone());
            match prepare(config, &request, token.as_str()) {
                Err(error) => fail(error),
                Ok(http) => Transition {
                    state: PipelineState::Requesting { text: request.into_text() },
                    action: Action::Send(http),
                },
            }
        },
    }
}

/// Steps on a response.
fn receive(text: String, status: u16, body: Vec<u8>) -> (transition: Transition)
    ensures
        transition@ == received(text@, status, body@),
{
    match check_status(status, body) {
        Ok(payload) => Transition {
            state: PipelineState::Decoding { text },
            action: Action::Decode(payload),
        },
        Err(failure) => fail(resolve_failure(&failure)),
    }
}

impl PipelineState {
    /// The state in which every invocation begins.
    pub fn new() -> (state: PipelineState)
        ensures
            state@ == PipelineStateView::Idle,
    {
        PipelineState::Idle
    }

    /// The stage that the state stands for.
    pub fn stage(&self) -> (stage: Stage)
        ensures
            stage == self@.stage(),
    {
        match self {
            PipelineState::Idle => Stage::Idle,
            PipelineState::Requesting { .. } => Stage::Requesting,
            PipelineState::Decoding { .. } => Stage::Decoding,
            PipelineState::Playing { .. } => Stage::Playing,
            PipelineState::Done { .. } => Stage::Done,
            PipelineState::Failed { .. } => Stage::Failed,
        }
    }

    /// Whether the invocation is over.
    pub fn is_terminal(&self) -> (over: bool)
        ensures
            over == self@.terminal(),
    {
        match self {
            PipelineState::Done { .. } => true,
            PipelineState::Failed { .. } => true,
            _ => false,
        }
    }
}

/// The stage in which a failure of this kind arises.
pub fn failing_stage(kind: ErrorKind) -> (stage: Stage)
    ensures
        stage == arises_in(kind),
{
    match kind {
        ErrorKind::MissingCredential => Stage::Requesting,
        ErrorKind::NetworkFailure => Stage::Requesting,
        ErrorKind::RemoteApiError => Stage::Classifying,
        ErrorKind::MalformedErrorPayload => Stage::Classifying,
        ErrorKind::DecodeFailure => Stage::Decoding,
        ErrorKind::OutputUnavailable => Stage::Playing,
        ErrorKind::SinkCreationFailure => Stage::Playing,
        ErrorKind::PlaybackFailure => Stage::Playing,
    }
}

/// Tells whether a text may be spoken: it is not empty.
pub fn speakable(text: &str) -> (ok: bool)
    ensures
        ok == (text@.len() > 0),
{
    !text.is_empty()
}

/// Takes the pipeline one step: from the state it rests in and the event that
/// the caller reports to the state it rests in next and the action for the
/// caller. An event that does not belong to the state is rejected and changes
/// nothing; in `Done` and `Failed` that is every event.
pub fn step(config: &SpeechConfig, state: PipelineState, event: Event) -> (transition: Transition)
    requires
        event@.wf(),
    ensures
        transition@ == advance(config@, state@, event@),
{
    match state {
        PipelineState::Idle => match event {
            Event::Started { text, credential } => start(config, text, credential),
            _ => reject(PipelineState::Idle),
        },
        PipelineState::Requesting { text } => match event {
            Event::TransportFailed { cause } => fail(SpeakError::network_failure(cause.as_str())),
            Event::Responded { status, body } => receive(text, status, body),
            _ => reject(PipelineState::Requesting { text }),
        },
        PipelineState::Decoding { text } => match event {
            Event::Decoded => Transition {
                state: PipelineState::Playing { text },
                action: Action::Play,
            },
            Event::DecodeFailed { cause } => fail(SpeakError::decode_failure(cause.as_str())),
            _ => reject(PipelineState::Decoding { text }),
        },
        PipelineState::Playing { text } => match event {
            Event::OutputUnavailable { cause } => fail(
                SpeakError::output_unavailable(cause.as_str()),
            ),
            Event::SinkCreationFailed { cause } => fail(
                SpeakError::sink_creation_failure(cause.as_str()),
            ),
            Event::PlaybackFailed { cause } => fail(SpeakError::playback_failure(cause.as_str())),
            Event::PlaybackFinished => {
                let result = PipelineResult::success(text.as_str());
                Transition { state: PipelineState::Done { text }, action: Action::Finish(result) }
            },
            _ => reject(PipelineState::Playing { text }),
        },
        PipelineState::Done { text } => reject(PipelineState::Done { text }),
        PipelineState::Failed { error } => reject(PipelineState::Failed { error }),
    }
}

} // verus!
