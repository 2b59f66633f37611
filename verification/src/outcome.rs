//! What one invocation returns: the confirmation of the spoken text, or the
//! failure as one message tagged with its kind.

use crate::error::{SpeakError, SpeakErrorView};
use vstd::prelude::*;

verus! {

/// The result of one invocation, the only thing that its caller observes.
#[derive(Debug, PartialEq, Eq)]
pub enum PipelineResult {
    /// The text was spoken; `echo` confirms it.
    Success { echo: String },
    /// The invocation failed; nothing partial is returned.
    Failure { error: SpeakError },
}

/// The model of a [`PipelineResult`].
pub enum PipelineResultView {
    Success { echo: Seq<char> },
    Failure { error: SpeakErrorView },
}

impl View for PipelineResult {
    type V = PipelineResultView;

    open spec fn view(&self) -> PipelineResultView {
        match self {
            PipelineResult::Success { echo } => PipelineResultView::Success { echo: echo@ },
            PipelineResult::Failure { error } => PipelineResultView::Failure { error: error@ },
        }
    }
}

/// The confirmation of a spoken text: `Can you hear it? "<text>"`.
pub open spec fn confirmation_text(text: Seq<char>) -> Seq<char> {
    "Can you hear it? \""@ + text + "\""@
}

/// The result as the inbound operation returns it: the confirmation, or the
/// message of the failure.
pub open spec fn returned(result: PipelineResultView) -> Result<Seq<char>, Seq<char>> {
    match result {
        PipelineResultView::Success { echo } => Ok(echo),
        PipelineResultView::Failure { error } => Err(error.message),
    }
}

/// Writes the confirmation of a spoken text.
pub fn confirmation(text: &str) -> (echo: String)
    ensures
        echo@ == confirmation_text(text@),
{
    let mut echo = String::from_str("Can you hear it? \"");
    echo.append(text);
    echo.append("\"");
    echo
}

impl PipelineResult {
    /// The success that confirms `text`.
    pub fn success(text: &str) -> (result: PipelineResult)
        ensures
            result@ == (PipelineResultView::Success { echo: confirmation_text(text@) }),
    {
        PipelineResult::Success { echo: confirmation(text) }
    }

    /// Turns the result into what the inbound operation returns: the
    /// confirmation on success, the message of the failure otherwise.
    pub fn into_result(self) -> (result: Result<String, String>)
        ensures
            match result {
                Ok(echo) => returned(self@) == Ok::<Seq<char>, Seq<char>>(echo@),
                Err(message) => returned(self@) == Err::<Seq<char>, Seq<char>>(message@),
            },
    {
        match self {
            PipelineResult::Success { echo } => Ok(echo),
            PipelineResult::Failure { error } => Err(error.message),
        }
    }
}

} // verus!
