//! The course of one call, as a machine that decides and never acts.
//!
//! A call passes through a fixed row of stages: the inputs are validated, a
//! client is set up, the request is sent, the status of the response is
//! judged, the body is read and handed back. Whoever drives the machine does
//! the work each [`Action`] asks for and reports how it went as an
//! [`Event`]; the machine answers with the next action. Any failure closes
//! the machine for good.

use vstd::prelude::*;
use crate::error::{CallError, Failure};
use crate::method::{method_named, Method};
use crate::request::{
    config_for, encode_body, request_of, wire_body, ClientConfig, Request, RequestView,
};
use crate::status::{acceptable, is_acceptable};
use crate::url::{effective_target, with_default_scheme};

verus! {

/// Where a call stands.
#[derive(Clone, Debug, PartialEq, Eq)]
pub enum Stage {
    /// The client is being set up; the request waits for it.
    AwaitingClient { request: Request },
    /// The request is on its way.
    AwaitingResponse,
    /// The response was accepted and its body is being read.
    AwaitingBody,
    /// The call is over, with a result or with a failure.
    Closed,
}

/// What the driver reports back.
#[derive(Clone, Debug, PartialEq, Eq)]
pub enum Event {
    /// The client stands.
    ClientBuilt,
    /// The client could not be set up.
    ClientFailed { message: String },
    /// The request could not be carried out.
    SendFailed { message: String },
    /// A response arrived. `rendering` describes it for a failure message.
    Responded { status: u16, rendering: String },
    /// The body was read to its end.
    BodyRead { text: String },
    /// Reading the body failed.
    BodyUnreadable,
}

/// What the driver is to do next.
#[derive(Clone, Debug, PartialEq, Eq)]
pub enum Action {
    /// Set up a client, then report `ClientBuilt` or `ClientFailed`.
    BuildClient { config: ClientConfig },
    /// Send this request, then report `Responded` or `SendFailed`.
    Send { request: Request },
    /// Read the whole body, then report `BodyRead` or `BodyUnreadable`.
    ReadBody,
    /// Hand `body` to the caller: the call succeeded.
    Return { body: String },
    /// Report `error` to the caller: the call failed.
    Abort { error: CallError },
    /// Nothing: the event was not awaited, and nothing has changed.
    Ignore,
}

/// What a [`Stage`] holds, as plain mathematical values.
pub enum StageView {
    AwaitingClient { request: RequestView },
    AwaitingResponse,
    AwaitingBody,
    Closed,
}

/// What an [`Event`] holds, as plain mathematical values.
pub enum EventView {
    ClientBuilt,
    ClientFailed { message: Seq<char> },
    SendFailed { message: Seq<char> },
    Responded { status: u16, rendering: Seq<char> },
    BodyRead { text: Seq<char> },
    BodyUnreadable,
}

/// What an [`Action`] holds, as plain mathematical values.
pub enum ActionView {
    BuildClient { config: ClientConfig },
    Send { request: RequestView },
    ReadBody,
    Return { body: Seq<char> },
    Abort { error: Failure },
    Ignore,
}

impl View for Stage {
    type V = StageView;

    open spec fn view(&self) -> StageView {
        match self {
            Stage::AwaitingClient { request } => StageView::AwaitingClient { request: request@ },
            Stage::AwaitingResponse => StageView::AwaitingResponse,
            Stage::AwaitingBody => StageView::AwaitingBody,
            Stage::Closed => StageView::Closed,
        }
    }
}

impl View for Event {
    type V = EventView;

    open spec fn view(&self) -> EventView {
        match self {
            Event::ClientBuilt => EventView::ClientBuilt,
            Event::ClientFailed { message } => EventView::ClientFailed { message: message@ },
            Event::SendFailed { message } => EventView::SendFailed { message: message@ },
            Event::Responded { status, rendering } => EventView::Responded {
                status: *status,
                rendering: rendering@,
            },
            Event::BodyRead { text } => EventView::BodyRead { text: text@ },
            Event::BodyUnreadable => EventView::BodyUnreadable,
        }
    }
}

impl View for Action {
    type V = ActionView;

    open spec fn view(&self) -> ActionView {
        match self {
            Action::BuildClient { config } => ActionView::BuildClient { config: *config },
            Action::Send { request } => ActionView::Send { request: request@ },
            Action::ReadBody => ActionView::ReadBody,
            Action::Return { body } => ActionView::Return { body: body@ },
            Action::Abort { error } => ActionView::Abort { error: error@ },
            Action::Ignore => ActionView::Ignore,
        }
    }
}

/// The verdict on the inputs: the method and the effective target, or the
/// reason to refuse. A missing target is found before a bad method token.
pub open spec fn checked(method: Seq<char>, url: Option<Seq<char>>) -> Result<
    (Method, Seq<char>),
    Failure,
> {
    match url {
        None => Err(Failure::NullUrl),
        Some(target) => match method_named(method) {
            None => Err(Failure::UnrecognizedMethod { token: method }),
            Some(named) => Ok((named, effective_target(target))),
        },
    }
}

/// The request for inputs that passed validation. `url` is the effective
/// target.
pub open spec fn planned(
    method: Method,
    url: Seq<char>,
    body: Option<Seq<char>>,
    compression_level: usize,
) -> RequestView {
    request_of(
        method,
        url,
        match body {
            Some(text) => Some(wire_body(text, compression_level)),
            None => None,
        },
        compression_level > 0,
    )
}

/// How a call opens: closed at once with the failure where an input is
/// refused, else waiting for the client with the request laid out.
pub open spec fn opening(
    method: Seq<char>,
    url: Option<Seq<char>>,
    body: Option<Seq<char>>,
    compression_level: usize,
) -> (StageView, ActionView) {
    match checked(method, url) {
        Err(error) => (StageView::Closed, ActionView::Abort { error }),
        Ok((named, target)) => (
            StageView::AwaitingClient {
                request: planned(named, target, body, compression_level),
            },
            ActionView::BuildClient { config: config_for(compression_level) },
        ),
    }
}

/// The machine's answer to `event` at `stage`: the next stage and the action
/// asked for. An event that the stage does not await changes nothing.
pub open spec fn step_of(stage: StageView, event: EventView) -> (StageView, ActionView) {
    match (stage, event) {
        (StageView::AwaitingClient { request }, EventView::ClientBuilt) => (
            StageView::AwaitingResponse,
            ActionView::Send { request },
        ),
        (StageView::AwaitingClient { .. }, EventView::ClientFailed { message }) => (
            StageView::Closed,
            ActionView::Abort { error: Failure::ClientConstruction { message } },
        ),
        (StageView::AwaitingResponse, EventView::SendFailed { message }) => (
            StageView::Closed,
            ActionView::Abort { error: Failure::Transport { message } },
        ),
        (StageView::AwaitingResponse, EventView::Responded { status, rendering }) => {
            if is_acceptable(status) {
                (StageView::AwaitingBody, ActionView::ReadBody)
            } else {
                (
                    StageView::Closed,
                    ActionView::Abort {
                        error: Failure::UnacceptableStatus { status, response: rendering },
                    },
                )
            }
        },
        (StageView::AwaitingBody, EventView::BodyRead { text }) => (
            StageView::Closed,
            ActionView::Return { body: text },
        ),
        (StageView::AwaitingBody, EventView::BodyUnreadable) => (
            StageView::Closed,
            ActionView::Return { body: Seq::empty() },
        ),
        _ => (stage, ActionView::Ignore),
    }
}

/// The view of an optional string slice.
pub open spec fn text_of(text: Option<&str>) -> Option<Seq<char>> {
    match text {
        Some(given) => Some(given@),
        None => None,
    }
}

/// Validates the inputs of a call.
pub fn check_inputs(method: &str, url: Option<&str>) -> (verdict: Result<
    (Method, String),
    CallError,
>)
    ensures
        match checked(method@, text_of(url)) {
            Ok((named, target)) => {
                &&& verdict is Ok
                &&& verdict->Ok_0.0 == named
                &&& verdict->Ok_0.1@ == target
            },
            Err(failure) => verdict is Err && verdict->Err_0@ == failure,
        },
{
    match url {
        None => Err(CallError::NullUrl),
        Some(target) => match Method::parse(method) {
            None => Err(CallError::UnrecognizedMethod { token: method.to_owned() }),
            Some(named) => Ok((named, with_default_scheme(target))),
        },
    }
}

/// Lays out the request for inputs that passed validation.
pub fn plan_request(
    method: Method,
    url: String,
    body: Option<&str>,
    compression_level: usize,
) -> (request: Request)
    ensures
        request@ == planned(method, url@, text_of(body), compression_level),
{
    let bytes = match body {
        Some(text) => Some(encode_body(text, compression_level)),
        None => None,
    };
    Request::assemble(method, url, bytes, compression_level > 0)
}

/// Opens a call. Nothing has been sent or set up when this returns: the
/// first action says what is to happen.
pub fn start(
    method: &str,
    url: Option<&str>,
    body: Option<&str>,
    compression_level: usize,
) -> (first: (Stage, Action))
    ensures
        (first.0@, first.1@) == opening(method@, text_of(url), text_of(body), compression_level),
{
    match check_inputs(method, url) {
        Err(error) => (Stage::Closed, Action::Abort { error }),
        Ok((named, target)) => {
            let request = plan_request(named, target, body, compression_level);
            (
                Stage::AwaitingClient { request },
                Action::BuildClient { config: ClientConfig::for_level(compression_level) },
            )
        },
    }
}

/// Takes the driver's report and says what is to happen next.
pub fn step(stage: Stage, event: Event) -> (next: (Stage, Action))
    ensures
        (next.0@, next.1@) == step_of(stage@, event@),
{
    match stage {
        Stage::AwaitingClient { request } => match event {
            Event::ClientBuilt => (Stage::AwaitingResponse, Action::Send { request }),
            Event::ClientFailed { message } => (
                Stage::Closed,
                Action::Abort { error: CallError::ClientConstruction { message } },
            ),
            _ => (Stage::AwaitingClient { request }, Action::Ignore),
        },
        Stage::AwaitingResponse => match event {
            Event::SendFailed { message } => (
                Stage::Closed,
                Action::Abort { error: CallError::Transport { message } },
            ),
            Event::Responded { status, rendering } => {
                if acceptable(status) {
                    (Stage::AwaitingBody, Action::ReadBody)
                } else {
                    (
                        Stage::Closed,
                        Action::Abort {
                            error: CallError::UnacceptableStatus { status, response: rendering },
                        },
                    )
                }
            },
            _ => (Stage::AwaitingResponse, Action::Ignore),
        },
        Stage::AwaitingBody => match event {
            Event::BodyRead { text } => (Stage::Closed, Action::Return { body: text }),
            Event::BodyUnreadable => (Stage::Closed, Action::Return { body: String::new() }),
            _ => (Stage::AwaitingBody, Action::Ignore),
        },
        Stage::Closed => (Stage::Closed, Action::Ignore),
    }
}

} // verus!
