//! What holds of every run of the machine, whatever the driver reports.

use vstd::prelude::*;
use vstd::utf8::encode_utf8;
use crate::bridge::{checked, opening, planned, step_of, ActionView, EventView, StageView};
use crate::deflate::deflated;
use crate::error::Failure;
use crate::method::{is_recognized, Method};
use crate::request::{config_for, effort_of};
use crate::status::is_acceptable;
use crate::url::effective_target;

verus! {

/// Feeds `events` to the machine one after the other, from `stage` on. The
/// result is the stage reached and the actions answered, one for each event.
pub open spec fn run(stage: StageView, events: Seq<EventView>) -> (StageView, Seq<ActionView>)
    decreases events.len(),
{
    if events.len() == 0 {
        (stage, Seq::empty())
    } else {
        let first = step_of(stage, events[0]);
        let rest = run(first.0, events.drop_first());
        (rest.0, seq![first.1] + rest.1)
    }
}

/// All actions of a whole call: the opening action, then one for each event.
pub open spec fn call_actions(
    method: Seq<char>,
    url: Option<Seq<char>>,
    body: Option<Seq<char>>,
    compression_level: usize,
    events: Seq<EventView>,
) -> Seq<ActionView> {
    let first = opening(method, url, body, compression_level);
    seq![first.1] + run(first.0, events).1
}

/// How many of `actions` ask for a request to be sent.
pub open spec fn sent(actions: Seq<ActionView>) -> nat
    decreases actions.len(),
{
    if actions.len() == 0 {
        0
    } else {
        let here: nat = if actions[0] is Send {
            1
        } else {
            0
        };
        here + sent(actions.drop_first())
    }
}

/// How many of `actions` ask for a client to be set up.
pub open spec fn built(actions: Seq<ActionView>) -> nat
    decreases actions.len(),
{
    if actions.len() == 0 {
        0
    } else {
        let here: nat = if actions[0] is BuildClient {
            1
        } else {
            0
        };
        here + built(actions.drop_first())
    }
}

/// How many of `actions` end the call with a result.
pub open spec fn returned(actions: Seq<ActionView>) -> nat
    decreases actions.len(),
{
    if actions.len() == 0 {
        0
    } else {
        let here: nat = if actions[0] is Return {
            1
        } else {
            0
        };
        here + returned(actions.drop_first())
    }
}

/// How many of `actions` end the call with a failure.
pub open spec fn aborted(actions: Seq<ActionView>) -> nat
    decreases actions.len(),
{
    if actions.len() == 0 {
        0
    } else {
        let here: nat = if actions[0] is Abort {
            1
        } else {
            0
        };
        here + aborted(actions.drop_first())
    }
}

/// Unfolds the four counts for a sequence that starts with `first`.
proof fn lemma_counts_of_cons(first: ActionView, rest: Seq<ActionView>)
    ensures
        sent(seq![first] + rest) == (if first is Send { 1nat } else { 0nat }) + sent(rest),
        built(seq![first] + rest) == (if first is BuildClient { 1nat } else { 0nat }) + built(rest),
        returned(seq![first] + rest) == (if first is Return { 1nat } else { 0nat }) + returned(rest),
        aborted(seq![first] + rest) == (if first is Abort { 1nat } else { 0nat }) + aborted(rest),
{
    let whole = seq![first] + rest;
    assert(whole.drop_first() =~= rest);
    assert(whole[0] == first);
}

/// Every event is answered by exactly one action.
pub proof fn lemma_one_action_per_event(stage: StageView, events: Seq<EventView>)
    ensures
        run(stage, events).1.len() == events.len(),
    decreases events.len(),
{
    if events.len() > 0 {
        lemma_one_action_per_event(step_of(stage, events[0]).0, events.drop_first());
    }
}

/// A closed machine stays closed and asks for nothing, whatever is reported.
pub proof fn lemma_closed_is_final(events: Seq<EventView>)
    ensures
        run(StageView::Closed, events).0 == StageView::Closed,
        run(StageView::Closed, events).1.len() == events.len(),
        forall|i: int|
            0 <= i < events.len() ==> #[trigger] run(StageView::Closed, events).1[i]
                == ActionView::Ignore,
        sent(run(StageView::Closed, events).1) == 0,
        built(run(StageView::Closed, events).1) == 0,
        returned(run(StageView::Closed, events).1) == 0,
        aborted(run(StageView::Closed, events).1) == 0,
    decreases events.len(),
{
    if events.len() > 0 {
        let rest = run(StageView::Closed, events.drop_first());
        lemma_closed_is_final(events.drop_first());
        lemma_counts_of_cons(ActionView::Ignore, rest.1);
        let all = run(StageView::Closed, events).1;
        assert(all == seq![ActionView::Ignore] + rest.1);
        assert forall|i: int| 0 <= i < events.len() implies #[trigger] all[i]
            == ActionView::Ignore by {
            if i > 0 {
                assert(all[i] == rest.1[i - 1]);
            }
        }
    }
}

/// The machine never asks for a client once a call is open: the one client
/// of a call is the one the opening asks for.
pub proof fn lemma_no_client_after_opening(stage: StageView, events: Seq<EventView>)
    ensures
        built(run(stage, events).1) == 0,
    decreases events.len(),
{
    if events.len() > 0 {
        let first = step_of(stage, events[0]);
        lemma_no_client_after_opening(first.0, events.drop_first());
        lemma_counts_of_cons(first.1, run(first.0, events.drop_first()).1);
    }
}

/// A request is sent at most once, and only while the client is awaited.
pub proof fn lemma_at_most_one_send(stage: StageView, events: Seq<EventView>)
    ensures
        sent(run(stage, events).1) <= 1,
        !(stage is AwaitingClient) ==> sent(run(stage, events).1) == 0,
    decreases events.len(),
{
    if events.len() > 0 {
        let first = step_of(stage, events[0]);
        lemma_at_most_one_send(first.0, events.drop_first());
        lemma_counts_of_cons(first.1, run(first.0, events.drop_first()).1);
    }
}

/// A run ends the call at most once: with one result or with one failure,
/// never with both, and a closed machine ends nothing.
pub proof fn lemma_at_most_one_outcome(stage: StageView, events: Seq<EventView>)
    ensures
        returned(run(stage, events).1) + aborted(run(stage, events).1) <= 1,
        returned(run(stage, events).1) + aborted(run(stage, events).1) == 1 ==> run(
            stage,
            events,
        ).0 == StageView::Closed,
        stage == StageView::Closed ==> returned(run(stage, events).1) + aborted(
            run(stage, events).1,
        ) == 0,
    decreases events.len(),
{
    if events.len() > 0 {
        let first = step_of(stage, events[0]);
        lemma_at_most_one_outcome(first.0, events.drop_first());
        lemma_counts_of_cons(first.1, run(first.0, events.drop_first()).1);
        lemma_closed_is_final(events.drop_first());
    }
}

/// A run that hands out a result has sent the request before: exactly once
/// where it began with the client awaited.
pub proof fn lemma_result_needs_exchange(stage: StageView, events: Seq<EventView>)
    requires
        returned(run(stage, events).1) >= 1,
    ensures
        stage != StageView::Closed,
        stage is AwaitingClient ==> sent(run(stage, events).1) == 1,
    decreases events.len(),
{
    if events.len() > 0 {
        let first = step_of(stage, events[0]);
        let rest = run(first.0, events.drop_first());
        lemma_counts_of_cons(first.1, rest.1);
        lemma_closed_is_final(events.drop_first());
        lemma_at_most_one_send(first.0, events.drop_first());
        if returned(rest.1) >= 1 {
            lemma_result_needs_exchange(first.0, events.drop_first());
        }
    }
}

/// A whole call sets up at most one client, sends at most one request and
/// ends at most once. Where it hands out a result, it has set up exactly one
/// client and sent exactly one request, and no failure is reported beside
/// the result.
pub proof fn lemma_call_is_one_exchange(
    method: Seq<char>,
    url: Option<Seq<char>>,
    body: Option<Seq<char>>,
    compression_level: usize,
    events: Seq<EventView>,
)
    ensures
        ({
            let actions = call_actions(method, url, body, compression_level, events);
            &&& built(actions) <= 1
            &&& sent(actions) <= 1
            &&& returned(actions) + aborted(actions) <= 1
            &&& returned(actions) >= 1 ==> built(actions) == 1 && sent(actions) == 1 && aborted(
                actions,
            ) == 0
        }),
{
    let first = opening(method, url, body, compression_level);
    let rest = run(first.0, events);
    lemma_counts_of_cons(first.1, rest.1);
    lemma_no_client_after_opening(first.0, events);
    lemma_at_most_one_send(first.0, events);
    lemma_at_most_one_outcome(first.0, events);
    if returned(rest.1) >= 1 {
        lemma_result_needs_exchange(first.0, events);
    }
}

/// With a recognised method and a target, a response whose status lies in
/// the success band yields the body that was read, character for character.
/// The request that went out is the one laid out for the inputs.
pub proof fn lemma_accepted_response_yields_body(
    method: Seq<char>,
    url: Seq<char>,
    body: Option<Seq<char>>,
    compression_level: usize,
    status: u16,
    rendering: Seq<char>,
    text: Seq<char>,
)
    requires
        is_recognized(method),
        is_acceptable(status),
    ensures
        call_actions(
            method,
            Some(url),
            body,
            compression_level,
            seq![
                EventView::ClientBuilt,
                EventView::Responded { status, rendering },
                EventView::BodyRead { text },
            ],
        ) == seq![
            ActionView::BuildClient { config: config_for(compression_level) },
            ActionView::Send {
                request: planned(
                    checked(method, Some(url))->Ok_0.0,
                    effective_target(url),
                    body,
                    compression_level,
                ),
            },
            ActionView::ReadBody,
            ActionView::Return { body: text },
        ],
{
    let events = seq![
        EventView::ClientBuilt,
        EventView::Responded { status, rendering },
        EventView::BodyRead { text },
    ];
    let first = opening(method, Some(url), body, compression_level);
    let e1 = events.drop_first();
    let e2 = e1.drop_first();
    let e3 = e2.drop_first();
    assert(e3.len() == 0);
    let s1 = step_of(first.0, events[0]);
    let s2 = step_of(s1.0, e1[0]);
    let s3 = step_of(s2.0, e2[0]);
    assert(run(s3.0, e3).1 =~= Seq::<ActionView>::empty());
    assert(run(s2.0, e2).1 =~= seq![s3.1]);
    assert(run(s1.0, e1).1 =~= seq![s2.1, s3.1]);
    assert(run(first.0, events).1 =~= seq![s1.1, s2.1, s3.1]);
    assert(call_actions(method, Some(url), body, compression_level, events) =~= seq![
        first.1,
        s1.1,
        s2.1,
        s3.1,
    ]);
}

/// A body that cannot be read counts as an empty one: the call still
/// succeeds.
pub proof fn lemma_unreadable_body_is_empty()
    ensures
        step_of(StageView::AwaitingBody, EventView::BodyUnreadable) == (
            StageView::Closed,
            ActionView::Return { body: Seq::empty() },
        ),
{
}

/// A response whose status lies outside the success band ends the call with
/// a failure that carries the status, and nothing is read or returned after.
pub proof fn lemma_refused_status_aborts(
    status: u16,
    rendering: Seq<char>,
    later: Seq<EventView>,
)
    requires
        !is_acceptable(status),
    ensures
        step_of(StageView::AwaitingResponse, EventView::Responded { status, rendering }) == (
            StageView::Closed,
            ActionView::Abort { error: Failure::UnacceptableStatus { status, response: rendering } },
        ),
        returned(
            run(
                StageView::AwaitingResponse,
                seq![EventView::Responded { status, rendering }] + later,
            ).1,
        ) == 0,
{
    let events = seq![EventView::Responded { status, rendering }] + later;
    assert(events.drop_first() =~= later);
    let first = step_of(StageView::AwaitingResponse, events[0]);
    lemma_closed_is_final(later);
    lemma_counts_of_cons(first.1, run(first.0, later).1);
}

/// A call without a target is refused at its opening, whatever the method
/// token: no client is set up and nothing is sent, then or later.
pub proof fn lemma_missing_target_refused(
    method: Seq<char>,
    body: Option<Seq<char>>,
    compression_level: usize,
    events: Seq<EventView>,
)
    ensures
        opening(method, None, body, compression_level) == (
            StageView::Closed,
            ActionView::Abort { error: Failure::NullUrl },
        ),
        built(call_actions(method, None, body, compression_level, events)) == 0,
        sent(call_actions(method, None, body, compression_level, events)) == 0,
        returned(call_actions(method, None, body, compression_level, events)) == 0,
{
    let first = opening(method, None, body, compression_level);
    lemma_closed_is_final(events);
    lemma_counts_of_cons(first.1, run(first.0, events).1);
}

/// A call with a target and an unrecognised method token is refused at its
/// opening, with the token in the failure: no client is set up and nothing
/// is sent, then or later.
pub proof fn lemma_unrecognized_method_refused(
    method: Seq<char>,
    url: Seq<char>,
    body: Option<Seq<char>>,
    compression_level: usize,
    events: Seq<EventView>,
)
    requires
        !is_recognized(method),
    ensures
        opening(method, Some(url), body, compression_level) == (
            StageView::Closed,
            ActionView::Abort { error: Failure::UnrecognizedMethod { token: method } },
        ),
        built(call_actions(method, Some(url), body, compression_level, events)) == 0,
        sent(call_actions(method, Some(url), body, compression_level, events)) == 0,
        returned(call_actions(method, Some(url), body, compression_level, events)) == 0,
{
    let first = opening(method, Some(url), body, compression_level);
    lemma_closed_is_final(events);
    lemma_counts_of_cons(first.1, run(first.0, events).1);
}

/// A call is opened, and not refused, exactly when it has a target and a
/// recognised method token.
pub proof fn lemma_opened_iff_valid(
    method: Seq<char>,
    url: Option<Seq<char>>,
    body: Option<Seq<char>>,
    compression_level: usize,
)
    ensures
        opening(method, url, body, compression_level).1 is BuildClient <==> url is Some
            && is_recognized(method),
        opening(method, url, body, compression_level).1 is BuildClient || opening(
            method,
            url,
            body,
            compression_level,
        ).1 is Abort,
{
}

/// The body that is transmitted. For a level above zero it is the deflate
/// stream of the text's UTF-8 bytes, and the request says so in a
/// `Content-Encoding` header; for level zero it is those bytes themselves,
/// and no header of that name is set. Without a body there is neither.
pub proof fn lemma_transmitted_body(
    method: Method,
    url: Seq<char>,
    body: Option<Seq<char>>,
    compression_level: usize,
)
    ensures
        ({
            let request = planned(method, url, body, compression_level);
            let announced = exists|i: int|
                0 <= i < request.headers.len() && (#[trigger] request.headers[i]).0
                    == "Content-Encoding"@;
            &&& request.headers.len() >= 1
            &&& request.headers[0] == ("Content-Type"@, "application/json"@)
            &&& match body {
                Some(text) => if compression_level > 0 {
                    &&& request.body == Some(
                        deflated(encode_utf8(text), effort_of(compression_level)),
                    )
                    &&& request.headers.len() == 2
                    &&& request.headers[1] == ("Content-Encoding"@, "deflate"@)
                    &&& announced
                } else {
                    &&& request.body == Some(encode_utf8(text))
                    &&& !announced
                },
                None => request.body is None && !announced,
            }
        }),
{
    reveal_strlit("Content-Type");
    reveal_strlit("Content-Encoding");
    let request = planned(method, url, body, compression_level);
    assert("Content-Type"@.len() != "Content-Encoding"@.len());
    if body is Some && compression_level > 0 {
        assert(request.headers[1].0 == "Content-Encoding"@);
    }
}

} // verus!
