//! What holds of every run of the flow that gets a random game.
//!
//! A run is a flow, the events it is told of in turn, and the position
//! that is drawn if the run gets as far as drawing one.

use crate::exchange::{ActionView, Awaiting, Event};
use crate::failure::Failure;
use crate::flow::{Phase, RandomGameView};
use crate::http::{get_of, success_status, USER_AGENT};
use crate::model::Game;
use crate::query::{detail_url_text, list_url_text};
use vstd::prelude::*;

verus! {

/// The flow after it has been told of all `events`.
pub open spec fn run(flow: RandomGameView, events: Seq<Event>, idx: int) -> RandomGameView
    decreases events.len(),
{
    if events.len() == 0 {
        flow
    } else {
        run(flow, events.drop_last(), idx).step(events.last(), idx).0
    }
}

/// The flow after it has been told of the first `k` events.
pub open spec fn after(flow: RandomGameView, events: Seq<Event>, idx: int, k: int) -> RandomGameView {
    run(flow, events.take(k), idx)
}

/// What the flow answers to the event at position `k`.
pub open spec fn answer(flow: RandomGameView, events: Seq<Event>, idx: int, k: int) -> ActionView<
    Game,
> {
    after(flow, events, idx, k).step(events[k], idx).1
}

/// How many requests the flow sends in answer to `events`.
pub open spec fn requests(flow: RandomGameView, events: Seq<Event>, idx: int) -> nat
    decreases events.len(),
{
    if events.len() == 0 {
        0
    } else {
        let sent: nat = if run(flow, events.drop_last(), idx).step(events.last(), idx).1 is Send {
            1
        } else {
            0
        };
        requests(flow, events.drop_last(), idx) + sent
    }
}

/// How many calls lie behind a flow in a phase: none while it counts, one
/// while it resolves, two from then on. The call that counts is the one
/// that starts a flow.
pub open spec fn calls_behind(phase: Phase) -> int {
    if phase.rank() <= 2 {
        phase.rank()
    } else {
        2
    }
}

/// Whether an event reports a status that is not a success.
pub open spec fn refusal(event: Event) -> bool {
    event matches Event::Status(status) && !success_status(status)
}

/// Whether an event reports a status that is a success.
pub open spec fn acceptance(event: Event) -> bool {
    event matches Event::Status(status) && success_status(status)
}

/// The failure with which a flow answers a refusal.
pub open spec fn refused(event: Event) -> ActionView<Game> {
    match event {
        Event::Status(status) => ActionView::Fail(Failure::UpstreamStatus(status)),
        _ => ActionView::Fail(Failure::Unexpected),
    }
}

/// The flow before any event is the flow itself, and each further event
/// is one step.
pub proof fn lemma_after_unfolds(flow: RandomGameView, events: Seq<Event>, idx: int, k: int)
    requires
        0 <= k < events.len(),
    ensures
        after(flow, events, idx, 0) == flow,
        after(flow, events, idx, k + 1) == after(flow, events, idx, k).step(events[k], idx).0,
{
    assert(events.take(k + 1).drop_last() =~= events.take(k));
    assert(events.take(k + 1).last() == events[k]);
}

/// The requests sent in answer to the first `k + 1` events are those sent
/// in answer to the first `k`, and one more where the answer to the next
/// event is a request.
pub proof fn lemma_requests_unfold(flow: RandomGameView, events: Seq<Event>, idx: int, k: int)
    requires
        0 <= k < events.len(),
    ensures
        requests(flow, events.take(0), idx) == 0,
        requests(flow, events.take(k + 1), idx) == requests(flow, events.take(k), idx) + (if answer(
            flow,
            events,
            idx,
            k,
        ) is Send {
            1nat
        } else {
            0nat
        }),
{
    assert(events.take(k + 1).drop_last() =~= events.take(k));
    assert(events.take(k + 1).last() == events[k]);
}

/// Where no answer from position `k` up to position `n` is a request, as
/// many requests have been sent after `n` events as after `k`.
pub proof fn lemma_requests_rest(flow: RandomGameView, events: Seq<Event>, idx: int, k: int, n: int)
    requires
        0 <= k <= n <= events.len(),
        forall|j: int| k <= j < n ==> !(#[trigger] answer(flow, events, idx, j) is Send),
    ensures
        requests(flow, events.take(n), idx) == requests(flow, events.take(k), idx),
    decreases n - k,
{
    if k < n {
        lemma_requests_rest(flow, events, idx, k, n - 1);
        lemma_requests_unfold(flow, events, idx, n - 1);
    }
}

/// A flow never goes back: the phase after a step stands no earlier in
/// the order of phases than the phase before it.
pub proof fn law_no_step_goes_back(flow: RandomGameView, event: Event, idx: int)
    ensures
        flow.step(event, idx).0.phase.rank() >= flow.phase.rank(),
{
}

/// A flow that has ended stays as it is, whatever it is told of, and asks
/// for nothing more.
pub proof fn law_end_is_final(flow: RandomGameView, events: Seq<Event>, idx: int)
    requires
        flow.phase.is_terminal(),
    ensures
        run(flow, events, idx) == flow,
        forall|k: int| 0 <= k < events.len() ==> #[trigger] answer(flow, events, idx, k) == ActionView::<Game>::Idle,
    decreases events.len(),
{
    if events.len() > 0 {
        law_end_is_final(flow, events.drop_last(), idx);
    }
    assert forall|k: int| 0 <= k < events.len() implies #[trigger] answer(flow, events, idx, k)
        == ActionView::<Game>::Idle by {
        law_end_is_final(flow, events.take(k), idx);
    }
}

/// Once a flow has ended after `k` events, it answers every later event
/// with nothing to do: no request follows a failure or a delivery.
pub proof fn law_nothing_follows_the_end(
    flow: RandomGameView,
    events: Seq<Event>,
    idx: int,
    k: int,
    j: int,
)
    requires
        0 <= k <= j < events.len(),
        after(flow, events, idx, k).phase.is_terminal(),
    ensures
        after(flow, events, idx, j) == after(flow, events, idx, k),
        answer(flow, events, idx, j) == ActionView::<Game>::Idle,
    decreases j - k,
{
    if k < j {
        law_nothing_follows_the_end(flow, events, idx, k, j - 1);
        lemma_after_unfolds(flow, events, idx, j - 1);
    }
}

/// Where a flow draws, the position that it asks for next is the one
/// drawn, and it lies in the catalog that was counted: it is at least zero
/// and below the count, so that a catalog of one game is always asked for
/// its first position.
pub proof fn law_drawn_position_is_asked_for(flow: RandomGameView, event: Event, idx: int)
    requires
        flow.draws(event),
        flow.may_draw(event, idx),
    ensures
        0 <= idx < RandomGameView::counted(event),
        RandomGameView::counted(event) == 1 ==> idx == 0,
        flow.step(event, idx) == (
            flow.at(Phase::IndexResolve),
            ActionView::<Game>::Send(get_of(list_url_text(flow.api, flow.token, 1, idx))),
        ),
{
}

/// Every request that a flow sends carries the fixed agent.
pub proof fn law_every_request_names_the_agent(flow: RandomGameView, event: Event, idx: int)
    ensures
        flow.step(event, idx).1 matches ActionView::Send(request) ==> request.user_agent
            == USER_AGENT@,
{
}

/// A flow asks for a body to be decoded only when it has just been told
/// of a success status: the status is judged before the body is read.
pub proof fn law_status_is_judged_first(flow: RandomGameView, event: Event, idx: int)
    ensures
        flow.step(event, idx).1 is Decode ==> flow.awaiting == Awaiting::Status && acceptance(
            event,
        ),
        !flow.phase.is_terminal() && flow.awaiting == Awaiting::Status && refusal(event)
            ==> flow.step(event, idx) == flow.fail(Failure::UpstreamStatus(event->Status_0)),
{
}

/// Nothing is tried again: whatever a flow is told of, each request that
/// it sends takes it one call further, and no further than the last of
/// its three calls.
pub proof fn law_no_call_is_repeated(flow: RandomGameView, events: Seq<Event>, idx: int)
    ensures
        calls_behind(flow.phase) + requests(flow, events, idx) <= calls_behind(
            run(flow, events, idx).phase,
        ),
        requests(RandomGameView::begin(flow.token, flow.api), events, idx) <= 2,
    decreases events.len(),
{
    let start = RandomGameView::begin(flow.token, flow.api);
    if events.len() > 0 {
        law_no_call_is_repeated(flow, events.drop_last(), idx);
        law_no_call_is_repeated(start, events.drop_last(), idx);
    }
}

/// Where the call that counts the catalog is refused, or does not get
/// through, the flow fails at once, and it sends no request at all, then
/// or later: neither is the position resolved nor a game fetched.
pub proof fn law_count_failure_ends_the_flow(
    token: Seq<char>,
    api: Seq<char>,
    events: Seq<Event>,
    idx: int,
)
    requires
        events.len() >= 1,
        refusal(events[0]) || events[0] is Unreachable,
    ensures
        refusal(events[0]) ==> answer(RandomGameView::begin(token, api), events, idx, 0)
            == refused(events[0]),
        events[0] is Unreachable ==> answer(RandomGameView::begin(token, api), events, idx, 0)
            == ActionView::<Game>::Fail(Failure::Transport),
        run(RandomGameView::begin(token, api), events, idx).phase == Phase::Failed,
        forall|k: int|
            0 <= k < events.len() ==> !(#[trigger] answer(
                RandomGameView::begin(token, api),
                events,
                idx,
                k,
            ) is Send),
        requests(RandomGameView::begin(token, api), events, idx) == 0,
{
    let flow = RandomGameView::begin(token, api);
    lemma_after_unfolds(flow, events, idx, 0);
    assert forall|k: int| 0 <= k < events.len() implies !(#[trigger] answer(flow, events, idx, k)
        is Send) by {
        if k >= 1 {
            law_nothing_follows_the_end(flow, events, idx, 1, k);
        }
    }
    assert(events.take(events.len() as int) =~= events);
    lemma_requests_unfold(flow, events, idx, 0);
    lemma_requests_rest(flow, events, idx, 0, events.len() as int);
    if events.len() >= 2 {
        law_nothing_follows_the_end(flow, events, idx, 1, events.len() - 1);
        lemma_after_unfolds(flow, events, idx, events.len() - 1);
    }
}

/// Whether the first two events are those of a count that succeeds: a
/// success status, then a list that counts at least one game.
pub open spec fn counted_well(events: Seq<Event>) -> bool {
    &&& events.len() >= 2
    &&& acceptance(events[0])
    &&& events[1] is List
    &&& RandomGameView::counted(events[1]) >= 1
}

/// Where the catalog counts no game, the flow fails without a draw,
/// whatever position is at hand, and it sends no request at all, then or
/// later.
pub proof fn law_empty_catalog_ends_the_flow(
    token: Seq<char>,
    api: Seq<char>,
    events: Seq<Event>,
    idx: int,
)
    requires
        events.len() >= 2,
        acceptance(events[0]),
        events[1] is List,
        RandomGameView::counted(events[1]) < 1,
    ensures
        !after(RandomGameView::begin(token, api), events, idx, 1).draws(events[1]),
        answer(RandomGameView::begin(token, api), events, idx, 1) == ActionView::<Game>::Fail(
            Failure::EmptyCatalog,
        ),
        run(RandomGameView::begin(token, api), events, idx).phase == Phase::Failed,
        requests(RandomGameView::begin(token, api), events, idx) == 0,
{
    let flow = RandomGameView::begin(token, api);
    lemma_after_unfolds(flow, events, idx, 0);
    lemma_after_unfolds(flow, events, idx, 1);
    lemma_requests_unfold(flow, events, idx, 0);
    lemma_requests_unfold(flow, events, idx, 1);
    assert forall|k: int| 2 <= k < events.len() implies !(#[trigger] answer(flow, events, idx, k)
        is Send) by {
        law_nothing_follows_the_end(flow, events, idx, 2, k);
    }
    assert(events.take(events.len() as int) =~= events);
    lemma_requests_rest(flow, events, idx, 2, events.len() as int);
    if events.len() >= 3 {
        law_nothing_follows_the_end(flow, events, idx, 2, events.len() - 1);
        lemma_after_unfolds(flow, events, idx, events.len() - 1);
    }
}

/// Whether the first four events are those of a count and a resolution
/// that both succeed.
pub open spec fn resolved_well(events: Seq<Event>) -> bool {
    &&& counted_well(events)
    &&& events.len() >= 4
    &&& acceptance(events[2])
    &&& events[3] is List
}

/// Where the catalog has been counted, the flow asks for the game at the
/// drawn position: its first request after the one that started it.
pub proof fn law_count_leads_to_resolution(
    token: Seq<char>,
    api: Seq<char>,
    events: Seq<Event>,
    idx: int,
)
    requires
        counted_well(events),
    ensures
        answer(RandomGameView::begin(token, api), events, idx, 1) == ActionView::<Game>::Send(
            get_of(list_url_text(api, token, 1, idx)),
        ),
        after(RandomGameView::begin(token, api), events, idx, 2) == RandomGameView::begin(
            token,
            api,
        ).at(Phase::IndexResolve),
        requests(RandomGameView::begin(token, api), events.take(2), idx) == 1,
{
    let flow = RandomGameView::begin(token, api);
    lemma_after_unfolds(flow, events, idx, 0);
    lemma_after_unfolds(flow, events, idx, 1);
    lemma_requests_unfold(flow, events, idx, 0);
    lemma_requests_unfold(flow, events, idx, 1);
}

/// Where the catalog has been counted but the call that resolves the drawn
/// position is refused, or does not get through, the flow fails, and no
/// request follows: the request that resolves is the only one it has
/// sent, and the game is never fetched.
pub proof fn law_resolution_failure_ends_the_flow(
    token: Seq<char>,
    api: Seq<char>,
    events: Seq<Event>,
    idx: int,
)
    requires
        counted_well(events),
        events.len() >= 3,
        refusal(events[2]) || events[2] is Unreachable,
    ensures
        refusal(events[2]) ==> answer(RandomGameView::begin(token, api), events, idx, 2)
            == refused(events[2]),
        events[2] is Unreachable ==> answer(RandomGameView::begin(token, api), events, idx, 2)
            == ActionView::<Game>::Fail(Failure::Transport),
        run(RandomGameView::begin(token, api), events, idx).phase == Phase::Failed,
        forall|k: int|
            2 <= k < events.len() ==> !(#[trigger] answer(
                RandomGameView::begin(token, api),
                events,
                idx,
                k,
            ) is Send),
        requests(RandomGameView::begin(token, api), events, idx) == 1,
{
    let flow = RandomGameView::begin(token, api);
    law_count_leads_to_resolution(token, api, events, idx);
    lemma_after_unfolds(flow, events, idx, 2);
    assert forall|k: int| 2 <= k < events.len() implies !(#[trigger] answer(flow, events, idx, k)
        is Send) by {
        if k >= 3 {
            law_nothing_follows_the_end(flow, events, idx, 3, k);
        }
    }
    assert(events.take(events.len() as int) =~= events);
    lemma_requests_rest(flow, events, idx, 2, events.len() as int);
    if events.len() >= 4 {
        law_nothing_follows_the_end(flow, events, idx, 3, events.len() - 1);
        lemma_after_unfolds(flow, events, idx, events.len() - 1);
    }
}

/// Where the position has been resolved, the flow asks for the game at
/// the address that the resolution gave: the address of the first record,
/// or the empty address where the list came back empty.
pub proof fn law_resolution_leads_to_detail(
    token: Seq<char>,
    api: Seq<char>,
    events: Seq<Event>,
    idx: int,
)
    requires
        resolved_well(events),
    ensures
        answer(RandomGameView::begin(token, api), events, idx, 3) == ActionView::<Game>::Send(
            get_of(detail_url_text(events[3]->List_0.first_uri(), token)),
        ),
        after(RandomGameView::begin(token, api), events, idx, 4) == RandomGameView::begin(
            token,
            api,
        ).at(Phase::DetailFetch),
        requests(RandomGameView::begin(token, api), events.take(4), idx) == 2,
{
    let flow = RandomGameView::begin(token, api);
    law_count_leads_to_resolution(token, api, events, idx);
    lemma_after_unfolds(flow, events, idx, 2);
    lemma_after_unfolds(flow, events, idx, 3);
    lemma_requests_unfold(flow, events, idx, 2);
    lemma_requests_unfold(flow, events, idx, 3);
}

/// Where count and resolution have succeeded but the call that fetches
/// the game is refused, or does not get through, the flow fails, and no
/// request follows.
pub proof fn law_detail_failure_ends_the_flow(
    token: Seq<char>,
    api: Seq<char>,
    events: Seq<Event>,
    idx: int,
)
    requires
        resolved_well(events),
        events.len() >= 5,
        refusal(events[4]) || events[4] is Unreachable,
    ensures
        refusal(events[4]) ==> answer(RandomGameView::begin(token, api), events, idx, 4)
            == refused(events[4]),
        events[4] is Unreachable ==> answer(RandomGameView::begin(token, api), events, idx, 4)
            == ActionView::<Game>::Fail(Failure::Transport),
        run(RandomGameView::begin(token, api), events, idx).phase == Phase::Failed,
        forall|k: int|
            4 <= k < events.len() ==> !(#[trigger] answer(
                RandomGameView::begin(token, api),
                events,
                idx,
                k,
            ) is Send),
        requests(RandomGameView::begin(token, api), events, idx) == 2,
{
    let flow = RandomGameView::begin(token, api);
    law_resolution_leads_to_detail(token, api, events, idx);
    lemma_after_unfolds(flow, events, idx, 4);
    assert forall|k: int| 4 <= k < events.len() implies !(#[trigger] answer(flow, events, idx, k)
        is Send) by {
        if k >= 5 {
            law_nothing_follows_the_end(flow, events, idx, 5, k);
        }
    }
    assert(events.take(events.len() as int) =~= events);
    lemma_requests_rest(flow, events, idx, 4, events.len() as int);
    if events.len() >= 6 {
        law_nothing_follows_the_end(flow, events, idx, 5, events.len() - 1);
        lemma_after_unfolds(flow, events, idx, events.len() - 1);
    }
}

/// Where all three calls succeed, the flow delivers the game of the
/// detail answer, as it was decoded: nothing is added to it and nothing
/// taken away, so a field that was absent is absent in what is delivered.
pub proof fn law_success_delivers_the_game(
    token: Seq<char>,
    api: Seq<char>,
    events: Seq<Event>,
    idx: int,
)
    requires
        resolved_well(events),
        events.len() == 6,
        acceptance(events[4]),
        events[5] is Detail,
    ensures
        answer(RandomGameView::begin(token, api), events, idx, 5) == ActionView::Deliver(
            events[5]->Detail_0.results,
        ),
        run(RandomGameView::begin(token, api), events, idx).phase == Phase::Done,
        requests(RandomGameView::begin(token, api), events, idx) == 2,
{
    let flow = RandomGameView::begin(token, api);
    law_resolution_leads_to_detail(token, api, events, idx);
    lemma_after_unfolds(flow, events, idx, 4);
    lemma_after_unfolds(flow, events, idx, 5);
    assert(events.take(6) =~= events);
    lemma_requests_rest(flow, events, idx, 4, 6);
}

} // verus!
