//! What holds of whole runs: whatever the caller reports, and in whatever
//! order, the actions of a run come in one fixed order and end once.

use crate::config::{BindPolicy, ConfigView};
use crate::entry::EntryView;
use crate::failure::{PipelineError, StoreFault};
use crate::pipeline::{react, start, ActionView, EventView, PipelineView, StageView};
use crate::projection::{project_all, RecordView};
use crate::request::{bind_for, search_for, target_for};
use vstd::prelude::*;

verus! {

/// The run after a sequence of events.
pub open spec fn run_after(run: PipelineView, events: Seq<EventView>) -> PipelineView
    decreases events.len(),
{
    if events.len() == 0 {
        run
    } else {
        run_after(react(run, events.first()).0, events.drop_first())
    }
}

/// The actions that a run answers a sequence of events with, one per event.
pub open spec fn actions_on(run: PipelineView, events: Seq<EventView>) -> Seq<ActionView>
    decreases events.len(),
{
    if events.len() == 0 {
        Seq::empty()
    } else {
        seq![react(run, events.first()).1] + actions_on(
            react(run, events.first()).0,
            events.drop_first(),
        )
    }
}

/// The place of an action in the order of a run; a failure has none.
pub open spec fn place(action: ActionView) -> Option<int> {
    match action {
        ActionView::FetchSecret(_) => Some(0),
        ActionView::Connect(_) => Some(1),
        ActionView::Bind(_) => Some(2),
        ActionView::Search(_) => Some(3),
        ActionView::Deliver(_) => Some(4),
        ActionView::Fail(_) => None,
    }
}

/// The place of the action that a stage waits on the outcome of. A finished
/// run waits for nothing; it stands behind the last place.
pub open spec fn reached(stage: StageView) -> int {
    match stage {
        StageView::AwaitingSecret(_) => 0,
        StageView::AwaitingConnection(_) => 1,
        StageView::AwaitingBind => 2,
        StageView::AwaitingSearch => 3,
        StageView::Finished => 4,
    }
}

/// There is one action per event.
pub proof fn one_action_per_event(run: PipelineView, events: Seq<EventView>)
    ensures
        actions_on(run, events).len() == events.len(),
    decreases events.len(),
{
    if events.len() > 0 {
        one_action_per_event(react(run, events.first()).0, events.drop_first());
    }
}

/// The answer to event `i` is the step of the run as it stands after the
/// events before it.
pub proof fn answer_at(run: PipelineView, events: Seq<EventView>, i: int)
    requires
        0 <= i < events.len(),
    ensures
        actions_on(run, events).len() == events.len(),
        actions_on(run, events)[i] == react(run_after(run, events.take(i)), events[i]).1,
    decreases events.len(),
{
    one_action_per_event(run, events);
    let next = react(run, events.first()).0;
    let rest = events.drop_first();
    one_action_per_event(next, rest);
    if i == 0 {
        assert(events.take(0) =~= Seq::<EventView>::empty());
    } else {
        answer_at(next, rest, i - 1);
        assert(events.take(i).first() == events.first());
        assert(events.take(i).drop_first() =~= rest.take(i - 1));
        assert(actions_on(run, events)[i] == actions_on(next, rest)[i - 1]);
    }
}

/// Configuration, endpoint and filter are fixed for the run: no event
/// changes them.
pub proof fn plan_is_fixed(run: PipelineView, events: Seq<EventView>)
    ensures
        run_after(run, events).config == run.config,
        run_after(run, events).target == run.target,
        run_after(run, events).filter == run.filter,
    decreases events.len(),
{
    if events.len() > 0 {
        plan_is_fixed(react(run, events.first()).0, events.drop_first());
    }
}

/// From any stage on, an action that is not a failure stands at its place:
/// the answer to event `i` of a run that has reached place `r` is the action
/// of place `r + i + 1`, or a failure.
pub proof fn actions_keep_their_place(run: PipelineView, events: Seq<EventView>)
    ensures
        actions_on(run, events).len() == events.len(),
        forall|i: int|
            0 <= i < events.len() ==> (#[trigger] place(actions_on(run, events)[i]) matches Some(
                k,
            ) ==> k == reached(run.stage) + i + 1),
    decreases events.len(),
{
    one_action_per_event(run, events);
    if events.len() > 0 {
        let next = react(run, events.first()).0;
        let rest = events.drop_first();
        actions_keep_their_place(next, rest);
        let trace = actions_on(run, events);
        assert forall|i: int| 0 <= i < events.len() implies (#[trigger] place(trace[i]) matches Some(
            k,
        ) ==> k == reached(run.stage) + i + 1) by {
            if i > 0 {
                assert(trace[i] == actions_on(next, rest)[i - 1]);
            }
        }
    }
}

/// The operations of a run come strictly in sequence: the secret is asked
/// for at the start, and the answer to the report number `i` is the action
/// of place `i + 1` (connect, bind, search, deliver, in this order) or a
/// failure. Nothing is asked for twice, and nothing out of turn.
pub proof fn actions_come_in_order(
    config: ConfigView,
    filter: Seq<char>,
    endpoint: Option<Seq<char>>,
    username: Seq<char>,
    events: Seq<EventView>,
)
    ensures
        place(start(config, filter, endpoint, username).1) == Some(0int),
        actions_on(start(config, filter, endpoint, username).0, events).len() == events.len(),
        forall|i: int|
            0 <= i < events.len() ==> (#[trigger] place(
                actions_on(start(config, filter, endpoint, username).0, events)[i],
            ) matches Some(k) ==> k == i + 1),
{
    actions_keep_their_place(start(config, filter, endpoint, username).0, events);
}

/// A run that is over stays over: it answers every further event with
/// `SignatureMismatch`, so that records are delivered at most once, and
/// never after a failure.
pub proof fn finished_run_rejects_events(run: PipelineView, events: Seq<EventView>)
    requires
        run.stage is Finished,
    ensures
        run_after(run, events) == run,
        actions_on(run, events).len() == events.len(),
        forall|i: int|
            0 <= i < events.len() ==> #[trigger] actions_on(run, events)[i] == ActionView::Fail(
                PipelineError::SignatureMismatch,
            ),
    decreases events.len(),
{
    one_action_per_event(run, events);
    if events.len() > 0 {
        let rest = events.drop_first();
        assert(react(run, events.first()).0 == run);
        finished_run_rejects_events(run, rest);
        let trace = actions_on(run, events);
        assert forall|i: int| 0 <= i < events.len() implies #[trigger] trace[i] == ActionView::Fail(
            PipelineError::SignatureMismatch,
        ) by {
            if i > 0 {
                assert(trace[i] == actions_on(run, rest)[i - 1]);
            }
        }
    }
}

/// A run ends once: after records were delivered or a failure was reported,
/// every further event is answered with `SignatureMismatch`. So one run
/// reports one outcome, and never records after a failure.
pub proof fn run_ends_once(run: PipelineView, events: Seq<EventView>, i: int, j: int)
    requires
        0 <= i < j < events.len(),
        actions_on(run, events)[i] is Fail || actions_on(run, events)[i] is Deliver,
    ensures
        actions_on(run, events)[j] == ActionView::Fail(PipelineError::SignatureMismatch),
    decreases events.len(),
{
    let next = react(run, events.first()).0;
    let rest = events.drop_first();
    one_action_per_event(run, events);
    one_action_per_event(next, rest);
    assert(actions_on(run, events)[j] == actions_on(next, rest)[j - 1]);
    if i == 0 {
        assert(next.stage is Finished);
        finished_run_rejects_events(next, rest);
    } else {
        assert(actions_on(run, events)[i] == actions_on(next, rest)[i - 1]);
        run_ends_once(next, rest, i - 1, j - 1);
    }
}

/// A run in which every operation succeeds asks for the connection to the
/// chosen endpoint, for the bind as the configured account with the secret
/// that was read, for the search with the caller's filter, and then delivers
/// the projection of the entries that were found: one record per entry, in
/// the order of the entries, and none where none was found.
pub proof fn successful_run_delivers_projection(
    config: ConfigView,
    filter: Seq<char>,
    endpoint: Option<Seq<char>>,
    username: Seq<char>,
    secret: Seq<char>,
    entries: Seq<EntryView>,
)
    ensures
        actions_on(
            start(config, filter, endpoint, username).0,
            seq![
                EventView::Lookup(Ok(secret)),
                EventView::Connected,
                EventView::BindAccepted,
                EventView::SearchCompleted(entries),
            ],
        ) == seq![
            ActionView::Connect(target_for(config, endpoint)),
            ActionView::Bind(bind_for(config, secret)),
            ActionView::Search(search_for(config, filter)),
            ActionView::Deliver(project_all(entries)),
        ],
        project_all(entries).len() == entries.len(),
{
    let run = start(config, filter, endpoint, username).0;
    let events = seq![
        EventView::Lookup(Ok(secret)),
        EventView::Connected,
        EventView::BindAccepted,
        EventView::SearchCompleted(entries),
    ];
    let after_lookup = events.drop_first();
    let after_connect = after_lookup.drop_first();
    let after_bind = after_connect.drop_first();
    assert(after_bind.drop_first().len() == 0);
    reveal_with_fuel(actions_on, 5);
    assert(actions_on(run, events) =~= seq![
        ActionView::Connect(target_for(config, endpoint)),
        ActionView::Bind(bind_for(config, secret)),
        ActionView::Search(search_for(config, filter)),
        ActionView::Deliver(project_all(entries)),
    ]);
}

/// Where the credential store has no secret for the key, the run fails with
/// `CredentialUnavailable` and no connection is ever asked for, whatever is
/// reported afterwards.
pub proof fn failed_lookup_never_connects(
    config: ConfigView,
    filter: Seq<char>,
    endpoint: Option<Seq<char>>,
    username: Seq<char>,
    fault: StoreFault,
    later: Seq<EventView>,
)
    ensures
        ({
            let (run, first) = start(config, filter, endpoint, username);
            let events = seq![EventView::Lookup(Err(fault))] + later;
            let trace = actions_on(run, events);
            &&& first is FetchSecret
            &&& trace.len() == later.len() + 1
            &&& trace[0] == ActionView::Fail(PipelineError::CredentialUnavailable(fault))
            &&& forall|i: int| 0 <= i < trace.len() ==> #[trigger] trace[i] is Fail
        }),
{
    let (run, first) = start(config, filter, endpoint, username);
    let events = seq![EventView::Lookup(Err(fault))] + later;
    let trace = actions_on(run, events);
    let stopped = react(run, events.first()).0;
    assert(events.drop_first() =~= later);
    finished_run_rejects_events(stopped, later);
    assert forall|i: int| 0 <= i < trace.len() implies #[trigger] trace[i] is Fail by {
        if i > 0 {
            assert(trace[i] == actions_on(stopped, later)[i - 1]);
        }
    }
}

/// Under the policy that a rejected bind ends the run, a search is asked for
/// only in answer to an accepted bind.
pub proof fn search_needs_accepted_bind(run: PipelineView, event: EventView)
    requires
        run.config.on_bind_failure == BindPolicy::Abort,
        react(run, event).1 is Search,
    ensures
        run.stage is AwaitingBind,
        event is BindAccepted,
{
}

/// A rejected bind ends the run with `AuthenticationFailed` under the one
/// policy, and is passed over under the other.
pub proof fn rejected_bind_follows_policy(run: PipelineView)
    requires
        run.stage is AwaitingBind,
    ensures
        run.config.on_bind_failure == BindPolicy::Abort ==> react(run, EventView::BindRejected).1
            == ActionView::Fail(PipelineError::AuthenticationFailed),
        run.config.on_bind_failure == BindPolicy::Proceed ==> react(run, EventView::BindRejected)
            == react(run, EventView::BindAccepted),
{
}

/// Records are delivered only in answer to a completed search, and then they
/// are the projection of all its entries: a failed search delivers nothing,
/// and a search without entries delivers the empty sequence, not a failure.
pub proof fn delivery_is_all_or_nothing(run: PipelineView, event: EventView)
    ensures
        react(run, event).1 matches ActionView::Deliver(records) ==> (run.stage is AwaitingSearch
            && (event matches EventView::SearchCompleted(entries) && records == project_all(
            entries,
        ))),
        run.stage is AwaitingSearch ==> react(run, EventView::SearchFailed).1 == ActionView::Fail(
            PipelineError::SearchError,
        ),
        run.stage is AwaitingSearch ==> react(run, EventView::SearchCompleted(Seq::empty())).1
            == ActionView::Deliver(Seq::<RecordView>::empty()),
{
    assert(project_all(Seq::empty()) =~= Seq::<RecordView>::empty());
}

} // verus!
