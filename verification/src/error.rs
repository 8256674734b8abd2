//! Why a call was given up, and what the caller is told.

use vstd::prelude::*;
use vstd::string::StringExecFns;
use crate::decimal::{decimal, render};

verus! {

/// A reason to give up a call. Each one is final: nothing is retried and no
/// result is handed out beside it.
#[derive(Clone, Debug, PartialEq, Eq)]
pub enum CallError {
    /// No target was given at all.
    NullUrl,
    /// The method token is none of the four recognised ones.
    UnrecognizedMethod { token: String },
    /// The HTTP client could not be set up; `message` is the client's own.
    ClientConstruction { message: String },
    /// The request could not be carried out; `message` is the transport's own.
    Transport { message: String },
    /// A response came, with a status outside the success band. `response`
    /// is a rendering of that response for the reader of the message.
    UnacceptableStatus { status: u16, response: String },
}

/// What a [`CallError`] holds, as plain mathematical values.
pub enum Failure {
    NullUrl,
    UnrecognizedMethod { token: Seq<char> },
    ClientConstruction { message: Seq<char> },
    Transport { message: Seq<char> },
    UnacceptableStatus { status: u16, response: Seq<char> },
}

impl View for CallError {
    type V = Failure;

    open spec fn view(&self) -> Failure {
        match self {
            CallError::NullUrl => Failure::NullUrl,
            CallError::UnrecognizedMethod { token } => Failure::UnrecognizedMethod { token: token@ },
            CallError::ClientConstruction { message } => Failure::ClientConstruction {
                message: message@,
            },
            CallError::Transport { message } => Failure::Transport { message: message@ },
            CallError::UnacceptableStatus { status, response } => Failure::UnacceptableStatus {
                status: *status,
                response: response@,
            },
        }
    }
}

/// The message that reports `failure`. Messages of the client and of the
/// transport are passed on word for word.
pub open spec fn message_of(failure: Failure) -> Seq<char> {
    match failure {
        Failure::NullUrl => "url is null"@,
        Failure::UnrecognizedMethod { token } => "unrecognized HTTP method: "@ + token,
        Failure::ClientConstruction { message } => message,
        Failure::Transport { message } => message,
        Failure::UnacceptableStatus { status, response } =>
            "unexpected http response code from remote server.  code="@ + decimal(status as nat)
                + ", response="@ + response,
    }
}

impl CallError {
    /// The message that reports this failure.
    pub fn message(&self) -> (text: String)
        ensures
            text@ == message_of(self@),
    {
        match self {
            CallError::NullUrl => String::from_str("url is null"),
            CallError::UnrecognizedMethod { token } => String::from_str(
                "unrecognized HTTP method: ",
            ).concat(token.as_str()),
            CallError::ClientConstruction { message } => message.clone(),
            CallError::Transport { message } => message.clone(),
            CallError::UnacceptableStatus { status, response } => {
                let code = render(*status);
                String::from_str("unexpected http response code from remote server.  code=")
                    .concat(code.as_str())
                    .concat(", response=")
                    .concat(response.as_str())
            },
        }
    }
}

/// Whether `part` occurs in `whole` as a run of neighbouring characters.
pub open spec fn mentions(whole: Seq<char>, part: Seq<char>) -> bool {
    exists|at: int| 0 <= at && at + part.len() <= whole.len()
        && #[trigger] whole.subrange(at, at + part.len()) == part
}

/// The message for an unrecognised method ends with the token as it was given.
pub proof fn lemma_method_message_mentions_token(token: Seq<char>)
    ensures
        mentions(message_of(Failure::UnrecognizedMethod { token }), token),
{
    let lead = "unrecognized HTTP method: "@;
    let whole = lead + token;
    assert(whole.subrange(lead.len() as int, (lead.len() + token.len()) as int) =~= token);
}

/// The message for a refused status holds the status as a decimal numeral.
pub proof fn lemma_status_message_mentions_code(status: u16, response: Seq<char>)
    ensures
        mentions(message_of(Failure::UnacceptableStatus { status, response }), decimal(status as nat)),
{
    let lead = "unexpected http response code from remote server.  code="@;
    let code = decimal(status as nat);
    let whole = lead + code + ", response="@ + response;
    assert(whole.subrange(lead.len() as int, (lead.len() + code.len()) as int) =~= code);
}

} // verus!
