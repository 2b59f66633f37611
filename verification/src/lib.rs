//! Text-to-speech pipeline: the decisions of a "speak" operation, from the
//! credential and the request payload to the classification of the response
//! and the final result. The network exchange, the audio decoder and the audio
//! device are driven by the caller, which reports their outcomes as events.
//!
//! A caller begins in [`pipeline::PipelineState::new`], hands
//! [`pipeline::step`] the `Started` event, performs the action that comes
//! back, reports its outcome as the next event, and goes on until the action
//! is `Finish`. The modules follow the components of the pipeline:
//!
//! - [`config`]: endpoint, credential variable, voice and model;
//! - [`credential`]: the token, or the failure that names the variable;
//! - [`request`]: the synthesis request, its JSON payload, the HTTP request;
//! - [`response`]: the success class and the HTTP failure;
//! - [`envelope`]: the error envelope and the failure of an error body;
//! - [`error`] and [`outcome`]: the kinds of failure, their messages, the result;
//! - [`pipeline`]: the state machine that puts them in order;
//! - [`laws`]: what is proved of every request and every invocation;
//! - [`json`]: the calls into `serde_json` that the others rest on.

pub mod config;
pub mod credential;
pub mod envelope;
pub mod error;
pub mod json;
pub mod laws;
pub mod outcome;
pub mod pipeline;
pub mod request;
pub mod response;
