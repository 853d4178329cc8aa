//! What holds of the loop that handles events, from its first turn to its last. Between two turns
//! the state of the player may change in any way, and a step may be answered in any way.
use crate::event::Event;
use crate::handler::{follows, takes_up, HandlerAction};
use crate::request::Step;
use crate::state::PlayerState;
use vstd::prelude::*;

verus! {

/// A turn of the loop, with the action that it led to.
pub enum Turn {
    /// Something was received: an event, or nothing once no more events can come. The event began
    /// with the step.
    Received {
        before: PlayerState,
        now: u64,
        received: Option<Event>,
        after: PlayerState,
        step: Step,
        action: HandlerAction,
    },
    /// A step was carried out, and its answer led to another.
    Performed { performed: Step, step: Step, action: HandlerAction },
}

impl Turn {
    /// What the loop does next.
    pub open spec fn action(self) -> HandlerAction {
        match self {
            Turn::Received { action, .. } => action,
            Turn::Performed { action, .. } => action,
        }
    }

    /// The step that the turn led to.
    pub open spec fn step(self) -> Step {
        match self {
            Turn::Received { step, .. } => step,
            Turn::Performed { step, .. } => step,
        }
    }

    /// Whether the turn found that no more events can come.
    pub open spec fn finds_the_end(self) -> bool {
        self matches Turn::Received { received, .. } && received is None
    }
}

/// Whether a turn of the loop is what the action before it asks for. The loop begins with
/// receiving.
pub open spec fn turn_follows(run: Seq<Turn>, i: int) -> bool {
    let asked = if i == 0 {
        HandlerAction::Receive { update_playback: false, warning: None }
    } else {
        run[i - 1].action()
    };
    match (asked, run[i]) {
        (
            HandlerAction::Receive { .. },
            Turn::Received { before, now, received, after, step, action },
        ) => takes_up(before, now, received, after, step, action),
        (HandlerAction::Perform(asked), Turn::Performed { performed, step, action }) => {
            &&& performed == asked
            &&& follows(step, action)
        },
        _ => false,
    }
}

/// Whether turns are those of the loop, one after the other.
pub open spec fn runs(run: Seq<Turn>) -> bool {
    forall|i: int| 0 <= i < run.len() ==> #[trigger] turn_follows(run, i)
}

/// The events that the turns took up, in order.
pub open spec fn taken_up(run: Seq<Turn>) -> Seq<Event>
    decreases run.len(),
{
    if run.len() == 0 {
        Seq::empty()
    } else {
        match run.last() {
            Turn::Received { received: Some(event), .. } => taken_up(run.drop_last()).push(event),
            _ => taken_up(run.drop_last()),
        }
    }
}

/// What is received from a queue of events, once some of them have been taken from it.
pub open spec fn next_of(events: Seq<Event>, taken: nat) -> Option<Event> {
    if taken < events.len() {
        Some(events[taken as int])
    } else {
        None
    }
}

/// Whether a turn, if it receives, receives what comes next in a queue.
pub open spec fn turn_receives_from(run: Seq<Turn>, events: Seq<Event>, i: int) -> bool {
    run[i] matches Turn::Received { received, .. } ==> received == next_of(
        events,
        taken_up(run.take(i)).len(),
    )
}

/// Whether the turns receive the events of a queue one by one, and find its end behind the last.
pub open spec fn receives_from(run: Seq<Turn>, events: Seq<Event>) -> bool {
    forall|i: int| 0 <= i < run.len() ==> #[trigger] turn_receives_from(run, events, i)
}

/// The loop stops exactly where it finds that no more events can come, and there it has no further
/// turn. A failure does not stop it.
pub proof fn loop_stops_at_the_end_alone(run: Seq<Turn>, i: int)
    requires
        runs(run),
        0 <= i < run.len(),
    ensures
        run[i].action() == HandlerAction::Stop <==> run[i].finds_the_end(),
        run[i].finds_the_end() ==> i == run.len() - 1,
        run[i].step() is Failed && !run[i].finds_the_end() ==> run[i].action() is Receive,
{
    assert(turn_follows(run, i));
    if i < run.len() - 1 {
        assert(turn_follows(run, i + 1));
    }
}

/// An event is handled to its end before the next one is taken up: before the loop receives again,
/// it has come to a step that says the event is handled or has failed.
pub proof fn event_ends_before_the_next(run: Seq<Turn>, i: int)
    requires
        runs(run),
        0 < i < run.len(),
    ensures
        run[i] is Received <==> run[i - 1].step() is Done || run[i - 1].step() is Failed,
        run[i] matches Turn::Performed { performed, .. } ==> performed == run[i - 1].step(),
{
    assert(turn_follows(run, i - 1));
    assert(turn_follows(run, i));
}

proof fn lemma_taken_up(run: Seq<Turn>, events: Seq<Event>)
    requires
        runs(run),
        receives_from(run, events),
    ensures
        taken_up(run).len() <= events.len(),
        taken_up(run) == events.take(taken_up(run).len() as int),
        run.len() > 0 && run.last().finds_the_end() ==> taken_up(run) == events,
    decreases run.len(),
{
    if run.len() == 0 {
        assert(events.take(0) =~= Seq::empty());
    } else {
        let n = run.len() - 1;
        let rest = run.drop_last();
        assert forall|i: int| 0 <= i < rest.len() implies #[trigger] turn_follows(rest, i) by {
            assert(turn_follows(run, i));
        }
        assert forall|i: int| 0 <= i < rest.len() implies #[trigger] turn_receives_from(
            rest,
            events,
            i,
        ) by {
            assert(turn_receives_from(run, events, i));
            assert(rest.take(i) =~= run.take(i));
        }
        lemma_taken_up(rest, events);
        assert(turn_receives_from(run, events, n));
        assert(run.take(n) =~= rest);
        let taken = taken_up(rest).len() as int;
        if taken < events.len() {
            assert(events.take(taken + 1) =~= events.take(taken).push(events[taken]));
        } else {
            assert(events.take(taken) =~= events);
        }
    }
}

/// Every event of a queue is taken up once, in the order of the queue, whatever the events before
/// it came to. The loop stops only when all of them have been taken up.
pub proof fn every_event_is_taken_up_in_order(run: Seq<Turn>, events: Seq<Event>)
    requires
        runs(run),
        receives_from(run, events),
    ensures
        taken_up(run).is_prefix_of(events),
        run.len() > 0 && run.last().action() == HandlerAction::Stop ==> taken_up(run) == events,
{
    lemma_taken_up(run, events);
    if run.len() > 0 {
        loop_stops_at_the_end_alone(run, run.len() - 1);
    }
}

} // verus!
