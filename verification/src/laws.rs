//! What holds of every request and of every invocation, whatever the outside
//! world reports.
//!
//! An invocation is a series of events handed to the pipeline one by one,
//! beginning in `Idle`. The laws on invocations speak of the state before each
//! event and of the action that each event brings.

use crate::config::SpeechConfigView;
use crate::credential::CredentialLookupView;
use crate::error::{caused_spec, missing_credential_spec, ErrorKind, SpeakErrorView};
use crate::json::json_string_literal;
use crate::outcome::{confirmation_text, PipelineResultView};
use crate::pipeline::{advance, arises_in, failed, rank, ActionView, EventView, PipelineStateView};
use crate::request::{
    payload_of, payload_text, prepared, request_of, written, HttpRequestView,
};
use crate::response::success_class;
use vstd::prelude::*;

verus! {

/// The payload carries the text as it was passed. Building keeps every
/// character of a text that is not empty, and the `input` member of the
/// payload is the string literal of exactly that text, beside the literals of
/// the model and the voice. No payload is written only where one of the three
/// literals cannot be.
pub proof fn lemma_payload_carries_text(text: Seq<char>, voice: Seq<char>, model: Seq<char>)
    requires
        text.len() > 0,
    ensures
        request_of(text, voice, model).text == text,
        match payload_of(request_of(text, voice, model)) {
            Ok(body) => {
                &&& json_string_literal(model) is Ok
                &&& json_string_literal(voice) is Ok
                &&& json_string_literal(text) is Ok
                &&& body == payload_text(
                    json_string_literal(model)->Ok_0,
                    json_string_literal(voice)->Ok_0,
                    json_string_literal(text)->Ok_0,
                )
            },
            Err(_) => {
                ||| json_string_literal(model) is Err
                ||| json_string_literal(voice) is Err
                ||| json_string_literal(text) is Err
            },
        },
{
}

/// The state in which the pipeline rests after the first `count` events of an
/// invocation.
pub open spec fn state_after(
    config: SpeechConfigView,
    events: Seq<EventView>,
    count: nat,
) -> PipelineStateView
    recommends
        count <= events.len(),
    decreases count,
{
    if count == 0 {
        PipelineStateView::Idle
    } else {
        advance(
            config,
            state_after(config, events, (count - 1) as nat),
            events[count - 1],
        ).state
    }
}

/// The action that the event at `index` brings.
pub open spec fn action_at(
    config: SpeechConfigView,
    events: Seq<EventView>,
    index: nat,
) -> ActionView
    recommends
        index < events.len(),
{
    advance(config, state_after(config, events, index), events[index as int]).action
}

/// The events of an invocation in which everything goes well: it is started
/// with a credential, answered in the success class, decoded and played.
pub open spec fn smooth_events(
    text: Seq<char>,
    token: Seq<char>,
    status: u16,
    body: Seq<u8>,
) -> Seq<EventView> {
    seq![
        EventView::Started { text, credential: CredentialLookupView::Found { token } },
        EventView::Responded { status, body },
        EventView::Decoded,
        EventView::PlaybackFinished,
    ]
}

/// Every step either rejects the event and changes nothing, or moves to a
/// later stage; in `Done` and `Failed` every event is rejected. A step into
/// `Failed` returns the failure it keeps, and the failure is of a kind that
/// arises in the stage the step began in or in the one it passes next. The
/// result is returned by the step that enters `Done` or `Failed`, by no other.
pub proof fn lemma_step_moves_forward(
    config: SpeechConfigView,
    state: PipelineStateView,
    event: EventView,
)
    ensures
        ({
            let next = advance(config, state, event);
            &&& next.action is Rejected ==> next.state == state
            &&& !(next.action is Rejected) ==> rank(next.state.stage()) > rank(state.stage())
            &&& state.terminal() ==> next.action is Rejected
            &&& next.action is Finish <==> next.state.terminal() && !state.terminal()
            &&& !(next.action is Rejected) ==> (next.state matches PipelineStateView::Failed {
                error,
            } ==> {
                &&& next.action == ActionView::Finish(PipelineResultView::Failure { error })
                &&& rank(state.stage()) <= rank(arises_in(error.kind)) <= rank(state.stage()) + 1
            })
        }),
{
}

/// No state is revisited: along an invocation the stage never goes back, and
/// where two moments share a stage, nothing has changed between them.
pub proof fn lemma_never_back(
    config: SpeechConfigView,
    events: Seq<EventView>,
    earlier: nat,
    later: nat,
)
    requires
        earlier <= later <= events.len(),
    ensures
        rank(state_after(config, events, earlier).stage()) <= rank(
            state_after(config, events, later).stage(),
        ),
        state_after(config, events, earlier).stage() == state_after(config, events, later).stage()
            ==> state_after(config, events, earlier) == state_after(config, events, later),
    decreases later,
{
    if earlier < later {
        let before = (later - 1) as nat;
        lemma_never_back(config, events, earlier, before);
        lemma_step_moves_forward(
            config,
            state_after(config, events, before),
            events[later - 1],
        );
    }
}

/// Once an invocation is over it stays as it is and does no further work:
/// every later event is rejected.
pub proof fn lemma_terminal_stays(
    config: SpeechConfigView,
    events: Seq<EventView>,
    over: nat,
    later: nat,
)
    requires
        over <= later <= events.len(),
        state_after(config, events, over).terminal(),
    ensures
        state_after(config, events, later) == state_after(config, events, over),
        later < events.len() ==> action_at(config, events, later) is Rejected,
    decreases later,
{
    if over < later {
        let before = (later - 1) as nat;
        lemma_terminal_stays(config, events, over, before);
        lemma_step_moves_forward(
            config,
            state_after(config, events, before),
            events[later - 1],
        );
    }
    if later < events.len() {
        lemma_step_moves_forward(
            config,
            state_after(config, events, later),
            events[later as int],
        );
    }
}

/// Whether two actions ask for the same kind of work, or both return a result.
pub open spec fn same_work(one: ActionView, other: ActionView) -> bool {
    ||| one is Send && other is Send
    ||| one is Decode && other is Decode
    ||| one is Play && other is Play
    ||| one is Finish && other is Finish
}

/// Nothing is done twice: an invocation sends at most one request, decodes at
/// most one payload, plays at most once and returns at most one result.
pub proof fn lemma_nothing_twice(
    config: SpeechConfigView,
    events: Seq<EventView>,
    earlier: nat,
    later: nat,
)
    requires
        earlier < later < events.len(),
    ensures
        !same_work(action_at(config, events, earlier), action_at(config, events, later)),
{
    let next = (earlier + 1) as nat;
    lemma_step_moves_forward(
        config,
        state_after(config, events, earlier),
        events[earlier as int],
    );
    lemma_never_back(config, events, next, later);
}

/// A request is sent only by the step that starts an invocation with a
/// credential, and then it is the request prepared for the started text.
pub proof fn lemma_send_needs_credential(
    config: SpeechConfigView,
    events: Seq<EventView>,
    index: nat,
)
    requires
        index < events.len(),
        action_at(config, events, index) is Send,
    ensures
        state_after(config, events, index) is Idle,
        events[index as int] matches EventView::Started {
            text,
            credential: CredentialLookupView::Found { token },
        } && prepared(config, request_of(text, config.voice, config.model), token) == Ok::<
            HttpRequestView,
            SpeakErrorView,
        >(action_at(config, events, index)->Send_0),
{
}

/// Without a credential nothing is ever sent: an invocation that is started
/// while the variable is missing fails at once with `MissingCredential`,
/// naming the variable, and no event of it brings a `Send`.
pub proof fn lemma_missing_credential_sends_nothing(
    config: SpeechConfigView,
    events: Seq<EventView>,
    text: Seq<char>,
    cause: Seq<char>,
    index: nat,
)
    requires
        index < events.len(),
        events[0] == (EventView::Started {
            text,
            credential: CredentialLookupView::Missing { cause },
        }),
    ensures
        action_at(config, events, 0) == failed(
            missing_credential_spec(config.credential_variable, cause),
        ).action,
        missing_credential_spec(config.credential_variable, cause).kind
            == ErrorKind::MissingCredential,
        !(action_at(config, events, index) is Send),
{
    assert(state_after(config, events, 1).terminal());
    if index >= 1 {
        lemma_terminal_stays(config, events, 1, index);
    }
}

/// Playback is asked for only by a `Decoded` that arrives in `Decoding`.
pub proof fn lemma_play_needs_decoded(
    config: SpeechConfigView,
    events: Seq<EventView>,
    index: nat,
)
    requires
        index < events.len(),
        action_at(config, events, index) is Play,
    ensures
        state_after(config, events, index) is Decoding,
        events[index as int] is Decoded,
{
}

/// A payload that the decoder refuses is never played: where `DecodeFailed`
/// arrives in `Decoding`, the invocation fails with `DecodeFailure`, and no
/// event of it, before or after, brings a `Play`.
pub proof fn lemma_decode_failure_never_plays(
    config: SpeechConfigView,
    events: Seq<EventView>,
    refused: nat,
    cause: Seq<char>,
    index: nat,
)
    requires
        refused < events.len(),
        index < events.len(),
        state_after(config, events, refused) is Decoding,
        events[refused as int] == (EventView::DecodeFailed { cause }),
    ensures
        action_at(config, events, refused) == failed(
            caused_spec(ErrorKind::DecodeFailure, cause),
        ).action,
        caused_spec(ErrorKind::DecodeFailure, cause).kind == ErrorKind::DecodeFailure,
        !(action_at(config, events, index) is Play),
{
    let after = refused + 1;
    assert(state_after(config, events, after as nat).terminal());
    if index > refused {
        lemma_terminal_stays(config, events, after as nat, index);
    } else if index < refused {
        if action_at(config, events, index) is Play {
            let next = (index + 1) as nat;
            assert(state_after(config, events, next) is Playing);
            lemma_never_back(config, events, next, refused);
        }
    }
}

/// An invocation in which everything goes well sends the prepared request,
/// hands the body to the decoder, asks for playback, and ends in `Done` with
/// the confirmation of exactly the text it was started with. The one thing
/// that can come between is a payload that cannot be written: then nothing is
/// sent and the invocation fails at once with a network failure.
pub proof fn lemma_smooth_invocation_confirms(
    config: SpeechConfigView,
    text: Seq<char>,
    token: Seq<char>,
    status: u16,
    body: Seq<u8>,
)
    requires
        success_class(status),
    ensures
        ({
            let events = smooth_events(text, token, status, body);
            match prepared(config, request_of(text, config.voice, config.model), token) {
                Ok(request) => {
                    &&& action_at(config, events, 0) == ActionView::Send(request)
                    &&& action_at(config, events, 1) == ActionView::Decode(body)
                    &&& action_at(config, events, 2) == ActionView::Play
                    &&& action_at(config, events, 3) == ActionView::Finish(
                        PipelineResultView::Success { echo: confirmation_text(text) },
                    )
                    &&& state_after(config, events, 4) == (PipelineStateView::Done { text })
                },
                Err(error) => {
                    &&& error.kind == ErrorKind::NetworkFailure
                    &&& action_at(config, events, 0) == failed(error).action
                    &&& state_after(config, events, 4) == failed(error).state
                },
            }
        }),
{
    let events = smooth_events(text, token, status, body);
    reveal_with_fuel(state_after, 5);
    match prepared(config, request_of(text, config.voice, config.model), token) {
        Ok(request) => {
            assert(state_after(config, events, 1) == (PipelineStateView::Requesting { text }));
            assert(state_after(config, events, 2) == (PipelineStateView::Decoding { text }));
            assert(state_after(config, events, 3) == (PipelineStateView::Playing { text }));
        },
        Err(error) => {
            assert(state_after(config, events, 1) == failed(error).state);
            lemma_terminal_stays(config, events, 1, 4);
        },
    }
}

/// The text that a state carries, where it carries one.
pub open spec fn text_of(state: PipelineStateView) -> Option<Seq<char>> {
    match state {
        PipelineStateView::Requesting { text } => Some(text),
        PipelineStateView::Decoding { text } => Some(text),
        PipelineStateView::Playing { text } => Some(text),
        PipelineStateView::Done { text } => Some(text),
        _ => None,
    }
}

/// The text is carried through unchanged: whatever text a state holds is the
/// text of the `Started` event that took the invocation out of `Idle`. The
/// result is the place of that event.
pub proof fn lemma_text_is_kept(
    config: SpeechConfigView,
    events: Seq<EventView>,
    count: nat,
    text: Seq<char>,
) -> (start: nat)
    requires
        count <= events.len(),
        text_of(state_after(config, events, count)) == Some(text),
    ensures
        start < count,
        state_after(config, events, start) is Idle,
        events[start as int] is Started,
        events[start as int]->Started_text == text,
        events[start as int]->Started_credential is Found,
    decreases count,
{
    let before = (count - 1) as nat;
    if text_of(state_after(config, events, before)) == Some(text) {
        lemma_text_is_kept(config, events, before, text)
    } else {
        before
    }
}

/// `Done` confirms the started text: an invocation that rests in `Done` was
/// started with the text that the state holds, and the step that entered
/// `Done` returned the confirmation of exactly that text. The result is the
/// place of the `Started` event and the place of that step.
pub proof fn lemma_done_confirms_text(
    config: SpeechConfigView,
    events: Seq<EventView>,
    count: nat,
    text: Seq<char>,
) -> (places: (nat, nat))
    requires
        count <= events.len(),
        state_after(config, events, count) == (PipelineStateView::Done { text }),
    ensures
        places.0 < places.1 < count,
        events[places.0 as int] is Started,
        events[places.0 as int]->Started_text == text,
        action_at(config, events, places.1) == ActionView::Finish(
            PipelineResultView::Success { echo: confirmation_text(text) },
        ),
    decreases count,
{
    let before = (count - 1) as nat;
    if state_after(config, events, before) == (PipelineStateView::Done { text }) {
        lemma_done_confirms_text(config, events, before, text)
    } else {
        assert(state_after(config, events, before) == (PipelineStateView::Playing { text }));
        let start = lemma_text_is_kept(config, events, before, text);
        (start, before)
    }
}

/// Speaking the same text twice gives the same result twice. Each invocation
/// begins in `Idle` and reads nothing but its own events, so two invocations
/// in which everything goes well, whatever token, status and body each of
/// them meets, end alike: in `Done` with the confirmation of the text,
/// wherever the payload of that text can be written.
pub proof fn lemma_repeated_invocations_agree(
    config: SpeechConfigView,
    text: Seq<char>,
    first_token: Seq<char>,
    first_status: u16,
    first_body: Seq<u8>,
    second_token: Seq<char>,
    second_status: u16,
    second_body: Seq<u8>,
)
    requires
        success_class(first_status),
        success_class(second_status),
    ensures
        ({
            let first = smooth_events(text, first_token, first_status, first_body);
            let second = smooth_events(text, second_token, second_status, second_body);
            &&& state_after(config, first, 0) == state_after(config, second, 0)
            &&& state_after(config, first, 4) == state_after(config, second, 4)
            &&& action_at(config, first, 3) == action_at(config, second, 3)
            &&& written(request_of(text, config.voice, config.model)) is Ok ==> {
                &&& state_after(config, second, 4) == (PipelineStateView::Done { text })
                &&& action_at(config, second, 3) == ActionView::Finish(
                    PipelineResultView::Success { echo: confirmation_text(text) },
                )
            }
        }),
{
    let first = smooth_events(text, first_token, first_status, first_body);
    let second = smooth_events(text, second_token, second_status, second_body);
    lemma_smooth_invocation_confirms(config, text, first_token, first_status, first_body);
    lemma_smooth_invocation_confirms(config, text, second_token, second_status, second_body);
    if written(request_of(text, config.voice, config.model)) is Err {
        lemma_terminal_stays(config, first, 1, 3);
        lemma_terminal_stays(config, second, 1, 3);
    }
}

} // verus!
