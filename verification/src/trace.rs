//! Runs of the upload machine: what holds of every sequence of events that
//! a driver can feed to a client, whatever came back from the network.

use vstd::prelude::*;
use crate::client::{ActionView, ClientView, EventView, OutcomeView, Phase, MAX_RETRIES};
use crate::error::ErrorKind;

verus! {

/// The client that `start` has become after `events`, taken in order.
pub open spec fn run(start: ClientView, events: Seq<EventView>) -> ClientView
    decreases events.len(),
{
    if events.len() == 0 {
        start
    } else {
        run(start, events.drop_last()).next(events.last()).0
    }
}

/// The actions that the machine answered with, one for each event.
pub open spec fn actions_of(start: ClientView, events: Seq<EventView>) -> Seq<ActionView>
    decreases events.len(),
{
    if events.len() == 0 {
        Seq::empty()
    } else {
        actions_of(start, events.drop_last()).push(
            run(start, events.drop_last()).next(events.last()).1,
        )
    }
}

/// How many of `actions` ask for a send.
pub open spec fn count_sends(actions: Seq<ActionView>) -> int
    decreases actions.len(),
{
    if actions.len() == 0 {
        0
    } else {
        count_sends(actions.drop_last()) + if actions.last() is Send {
            1int
        } else {
            0int
        }
    }
}

/// How many of `actions` ask for a backoff wait.
pub open spec fn count_waits(actions: Seq<ActionView>) -> int
    decreases actions.len(),
{
    if actions.len() == 0 {
        0
    } else {
        count_waits(actions.drop_last()) + if actions.last() is Wait {
            1int
        } else {
            0int
        }
    }
}

/// How many of `actions` report an outcome.
pub open spec fn count_reports(actions: Seq<ActionView>) -> int
    decreases actions.len(),
{
    if actions.len() == 0 {
        0
    } else {
        count_reports(actions.drop_last()) + if actions.last() is Report {
            1int
        } else {
            0int
        }
    }
}

/// The outcome that `actions` report first, if they report any.
pub open spec fn reported(actions: Seq<ActionView>) -> Option<OutcomeView>
    decreases actions.len(),
{
    if actions.len() == 0 {
        None
    } else {
        match reported(actions.drop_last()) {
            Some(outcome) => Some(outcome),
            None => match actions.last() {
                ActionView::Report(outcome) => Some(outcome),
                _ => None,
            },
        }
    }
}

/// The sends that a client in the state `client` has asked for: none
/// before the start or without a request, one for the first attempt and
/// one after each backoff that is over.
pub open spec fn sends_made(client: ClientView) -> int {
    match client.phase {
        Phase::Idle => 0,
        Phase::Retrying => client.attempt,
        Phase::Sending | Phase::Succeeded => client.attempt + 1,
        Phase::Failed => if client.request is Some {
            client.attempt + 1
        } else {
            0
        },
    }
}

/// Whether `outcome` is what a client that ended in the state `client`
/// owes its caller.
///
/// After a success it is a success under the client's part number. After a
/// failure it is one of two failures under that number: `InvalidRequest`,
/// with no send failure to name; or `RetriesExhausted`, which needs a
/// request, `MAX_RETRIES` retries made, and names the failure of the last
/// send. Without a request only the first can be.
pub open spec fn outcome_fits(client: ClientView, outcome: OutcomeView) -> bool {
    match client.phase {
        Phase::Succeeded => outcome matches OutcomeView::Success { part_number, .. }
            && part_number == client.part_number,
        Phase::Failed => {
            ||| outcome == client.unbuildable()
            ||| {
                &&& client.request is Some
                &&& client.attempt == MAX_RETRIES
                &&& client.last_error matches Some(last)
                &&& outcome == client.exhausted(last)
            }
        },
        _ => false,
    }
}

/// A transition keeps a client well formed, and changes neither its part
/// number nor its request.
pub proof fn lemma_next_keeps_wf(client: ClientView, event: EventView)
    requires
        client.wf(),
    ensures
        client.next(event).0.wf(),
        client.next(event).0.part_number == client.part_number,
        client.next(event).0.request == client.request,
{
}

/// The two final phases are final: once an upload has succeeded or failed,
/// no event changes the client, and the machine asks for nothing more.
pub proof fn lemma_terminal_is_final(client: ClientView, event: EventView)
    requires
        client.phase.is_terminal(),
    ensures
        client.next(event) == (client, ActionView::Nothing),
{
}

/// One more event adds one transition to a run.
pub proof fn lemma_run_push(start: ClientView, events: Seq<EventView>, event: EventView)
    ensures
        run(start, events.push(event)) == run(start, events).next(event).0,
        actions_of(start, events.push(event)) == actions_of(start, events).push(
            run(start, events).next(event).1,
        ),
{
    assert(events.push(event).drop_last() =~= events);
}

/// What holds after every run from an idle client, whatever the events:
///
/// - the client is well formed, with the part number and the request that
///   it began with;
/// - the backoff waits asked for are as many as the retry counter says, so
///   never more than `MAX_RETRIES`;
/// - the sends asked for are the first one and one for each backoff that
///   is over, so never more than `MAX_RETRIES + 1`;
/// - an outcome was reported exactly once if the upload is over, and not at
///   all if it is not; it is the outcome that the final state tells of.
pub proof fn lemma_run_accounts(start: ClientView, events: Seq<EventView>)
    requires
        start.wf(),
        start.phase == Phase::Idle,
    ensures
        run(start, events).wf(),
        run(start, events).part_number == start.part_number,
        run(start, events).request == start.request,
        actions_of(start, events).len() == events.len(),
        count_waits(actions_of(start, events)) == run(start, events).attempt,
        count_waits(actions_of(start, events)) <= MAX_RETRIES,
        count_sends(actions_of(start, events)) == sends_made(run(start, events)),
        count_sends(actions_of(start, events)) <= MAX_RETRIES + 1,
        count_reports(actions_of(start, events)) == if run(start, events).phase.is_terminal() {
            1int
        } else {
            0int
        },
        run(start, events).phase.is_terminal() <==> reported(actions_of(start, events)) is Some,
        reported(actions_of(start, events)) matches Some(outcome) ==> outcome_fits(
            run(start, events),
            outcome,
        ),
    decreases events.len(),
{
    if events.len() > 0 {
        let before = events.drop_last();
        lemma_run_accounts(start, before);
        let client = run(start, before);
        let actions = actions_of(start, before);
        let step = client.next(events.last());
        assert(actions.push(step.1).drop_last() =~= actions);
    }
}

/// An upload that fails reports why, under the part number that it began
/// with, and the two failures are told apart by what went before.
///
/// `RetriesExhausted` comes after exactly `MAX_RETRIES` backoff waits and
/// `MAX_RETRIES + 1` sends, and names the failure of the last send.
/// `InvalidRequest` names none; where the client has no request it is the
/// only failure, and comes before anything was sent or waited for.
pub proof fn lemma_failure_accounts(start: ClientView, events: Seq<EventView>)
    requires
        start.wf(),
        start.phase == Phase::Idle,
        run(start, events).phase == Phase::Failed,
    ensures
        reported(actions_of(start, events)) matches Some(
            OutcomeView::Failure { part_number, kind, last_error },
        ) && {
            &&& part_number == start.part_number
            &&& kind == ErrorKind::RetriesExhausted || kind == ErrorKind::InvalidRequest
            &&& kind == ErrorKind::RetriesExhausted ==> {
                &&& start.request is Some
                &&& count_waits(actions_of(start, events)) == MAX_RETRIES
                &&& count_sends(actions_of(start, events)) == MAX_RETRIES + 1
                &&& last_error matches Some(last)
                &&& last.is_transient()
            }
            &&& kind == ErrorKind::InvalidRequest ==> last_error is None
            &&& start.request is None ==> {
                &&& kind == ErrorKind::InvalidRequest
                &&& count_waits(actions_of(start, events)) == 0
                &&& count_sends(actions_of(start, events)) == 0
            }
        },
{
    lemma_run_accounts(start, events);
}

/// A first send that is answered with an ETag ends the upload at once: the
/// machine asks for the send, reports the success with that ETag, and never
/// asks for a wait.
pub proof fn lemma_success_on_first_send(start: ClientView, etag: Seq<char>)
    requires
        start.wf(),
        start.phase == Phase::Idle,
        start.request is Some,
    ensures
        ({
            let events = seq![EventView::Start, EventView::ResponseWithEtag { etag }];
            &&& run(start, events).phase == Phase::Succeeded
            &&& actions_of(start, events) == seq![
                ActionView::Send,
                ActionView::Report(
                    OutcomeView::Success { part_number: start.part_number, etag },
                ),
            ]
            &&& count_waits(actions_of(start, events)) == 0
        }),
{
    let none = Seq::<EventView>::empty();
    let first = none.push(EventView::Start);
    let events = first.push(EventView::ResponseWithEtag { etag });
    lemma_run_push(start, none, EventView::Start);
    lemma_run_push(start, first, EventView::ResponseWithEtag { etag });
    assert(events =~= seq![EventView::Start, EventView::ResponseWithEtag { etag }]);
    assert(actions_of(start, events) =~= seq![
        ActionView::Send,
        ActionView::Report(OutcomeView::Success { part_number: start.part_number, etag }),
    ]);
    lemma_run_accounts(start, events);
}

/// Whether `event` reports a send that failed: in transport, or by a
/// response without an ETag.
pub open spec fn is_failed_send(event: EventView) -> bool {
    event is TransportFailed || event is ResponseWithoutEtag
}

/// The failure kind of a failed send.
pub open spec fn failure_kind(event: EventView) -> ErrorKind {
    if event is TransportFailed {
        ErrorKind::NetworkError
    } else {
        ErrorKind::MissingETag
    }
}

/// The events of an upload whose sends fail one after the other, as
/// `failures` tell: the start, the first failure, and for each further
/// failure the end of the backoff and then that failure.
pub open spec fn failing_upload(failures: Seq<EventView>) -> Seq<EventView>
    decreases failures.len(),
{
    if failures.len() == 0 {
        seq![EventView::Start]
    } else if failures.len() == 1 {
        seq![EventView::Start, failures[0]]
    } else {
        failing_upload(failures.drop_last()).push(EventView::BackoffElapsed).push(
            failures.last(),
        )
    }
}

/// An upload whose every send fails goes through `MAX_RETRIES` backoffs
/// and then gives up. While at most `MAX_RETRIES` sends have failed, the
/// client waits to retry, and its counter tells how many failed. When the
/// send after the last backoff fails too, the upload ends as failed with
/// `RetriesExhausted` and the kind of that last failure, after exactly
/// `MAX_RETRIES` waits: no wait follows the last failure.
pub proof fn lemma_failing_upload(start: ClientView, failures: Seq<EventView>)
    requires
        start.wf(),
        start.phase == Phase::Idle,
        start.request is Some,
        1 <= failures.len() <= MAX_RETRIES + 1,
        forall|i: int| 0 <= i < failures.len() ==> is_failed_send(#[trigger] failures[i]),
    ensures
        failures.len() <= MAX_RETRIES ==> {
            &&& run(start, failing_upload(failures)).phase == Phase::Retrying
            &&& run(start, failing_upload(failures)).attempt == failures.len()
            &&& actions_of(start, failing_upload(failures)).last() is Wait
        },
        failures.len() == MAX_RETRIES + 1 ==> {
            &&& run(start, failing_upload(failures)).phase == Phase::Failed
            &&& count_waits(actions_of(start, failing_upload(failures))) == MAX_RETRIES
            &&& count_sends(actions_of(start, failing_upload(failures))) == MAX_RETRIES + 1
            &&& actions_of(start, failing_upload(failures)).last() == ActionView::Report(
                OutcomeView::Failure {
                    part_number: start.part_number,
                    kind: ErrorKind::RetriesExhausted,
                    last_error: Some(failure_kind(failures.last())),
                },
            )
        },
    decreases failures.len(),
{
    let events = failing_upload(failures);
    if failures.len() == 1 {
        let none = Seq::<EventView>::empty();
        let first = none.push(EventView::Start);
        lemma_run_push(start, none, EventView::Start);
        lemma_run_push(start, first, failures[0]);
        assert(events =~= first.push(failures[0]));
    } else {
        let earlier = failures.drop_last();
        let before = failing_upload(earlier);
        assert(failures.len() >= 2);
        assert forall|i: int| 0 <= i < earlier.len() implies is_failed_send(
            #[trigger] earlier[i],
        ) by {
            assert(earlier[i] == failures[i]);
        }
        lemma_failing_upload(start, earlier);
        let resumed = before.push(EventView::BackoffElapsed);
        lemma_run_push(start, before, EventView::BackoffElapsed);
        lemma_run_push(start, resumed, failures.last());
        lemma_run_accounts(start, events);
    }
}

} // verus!
