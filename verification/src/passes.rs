//! The passes of a thread that watches the player: it carries out the actions of a pass one after
//! the other, and ends for good with the first event that cannot be sent.
use vstd::prelude::*;

verus! {

/// What a thread does next in a pass.
#[derive(Debug, PartialEq, Eq)]
pub enum PassStep<A> {
    /// Carries out an action.
    Perform(A),
    /// Ends the pass, as all its actions are carried out.
    End,
    /// Ends the thread, as an event could not be sent.
    Stop,
}

/// What comes next in a pass, given the actions that are left, and whether the one before was
/// carried out.
pub open spec fn next_of_pass<A>(left: Seq<A>, carried_out: bool) -> PassStep<A> {
    if !carried_out {
        PassStep::Stop
    } else if left.len() > 0 {
        PassStep::Perform(left[0])
    } else {
        PassStep::End
    }
}

/// The actions that are left of a pass after that.
pub open spec fn left_of_pass<A>(left: Seq<A>, carried_out: bool) -> Seq<A> {
    if carried_out && left.len() > 0 {
        left.drop_first()
    } else {
        left
    }
}

/// Goes on with a pass, given the actions that are left of it, and whether the action before was
/// carried out. At the beginning of a pass there is none that was not.
pub fn next_in_pass<A>(left: &mut Vec<A>, carried_out: bool) -> (step: PassStep<A>)
    ensures
        step == next_of_pass(old(left)@, carried_out),
        final(left)@ == left_of_pass(old(left)@, carried_out),
{
    if !carried_out {
        PassStep::Stop
    } else if left.len() > 0 {
        let action: A = left.remove(0);
        assert(left@ =~= old(left)@.drop_first());
        PassStep::Perform(action)
    } else {
        PassStep::End
    }
}

/// How long a thread waits before the next pass, in milliseconds, if there is to be one.
pub open spec fn wait_after_pass(all_sent: bool, delay_in_ms: u64) -> Option<u64> {
    if all_sent {
        Some(delay_in_ms)
    } else {
        None
    }
}

/// Goes on after a pass: with a wait and another pass, or with neither where an event could not be
/// sent.
pub fn next_pass(all_sent: bool, delay_in_ms: u64) -> (wait: Option<u64>)
    ensures
        wait == wait_after_pass(all_sent, delay_in_ms),
{
    if all_sent {
        Some(delay_in_ms)
    } else {
        None
    }
}

/// A pass as it goes: whether the action before each step was carried out, the steps, and the
/// actions that are left after each.
pub struct Pass<A> {
    pub carried_out: Seq<bool>,
    pub steps: Seq<PassStep<A>>,
    pub left: Seq<Seq<A>>,
}

impl<A> Pass<A> {
    /// Whether a step is the one that the pass goes on with.
    pub open spec fn follows(self, actions: Seq<A>, i: int) -> bool {
        let left = if i == 0 {
            actions
        } else {
            self.left[i - 1]
        };
        &&& i == 0 ==> self.carried_out[i]
        &&& i > 0 ==> self.steps[i - 1] is Perform
        &&& self.steps[i] == next_of_pass(left, self.carried_out[i])
        &&& self.left[i] == left_of_pass(left, self.carried_out[i])
    }

    /// Whether the pass goes through some actions, step by step.
    pub open spec fn goes_through(self, actions: Seq<A>) -> bool {
        &&& self.carried_out.len() == self.steps.len()
        &&& self.left.len() == self.steps.len()
        &&& forall|i: int| 0 <= i < self.steps.len() ==> #[trigger] self.follows(actions, i)
    }
}

proof fn lemma_pass<A>(pass: Pass<A>, actions: Seq<A>, i: int)
    requires
        pass.goes_through(actions),
        0 <= i < pass.steps.len(),
    ensures
        i <= actions.len(),
        pass.steps[i] is Perform ==> i < actions.len() && pass.left[i] == actions.skip(i + 1),
        i > 0 ==> pass.steps[i - 1] is Perform && pass.left[i - 1] == actions.skip(i),
    decreases i,
{
    assert(pass.follows(actions, i));
    if i == 0 {
        assert(actions.drop_first() =~= actions.skip(1));
    } else {
        lemma_pass(pass, actions, i - 1);
        if i < actions.len() {
            assert(actions.skip(i).drop_first() =~= actions.skip(i + 1));
        }
    }
}

/// The actions of a pass are carried out in order, each once. The pass ends when all of them are
/// carried out.
pub proof fn actions_are_carried_out_in_order<A>(pass: Pass<A>, actions: Seq<A>, i: int)
    requires
        pass.goes_through(actions),
        0 <= i < pass.steps.len(),
    ensures
        pass.steps[i] matches PassStep::Perform(action) ==> i < actions.len() && action
            == actions[i],
        pass.steps[i] is End ==> i == actions.len() && pass.carried_out[i],
        pass.carried_out[i] && i < actions.len() ==> pass.steps[i] is Perform,
{
    lemma_pass(pass, actions, i);
    assert(pass.follows(actions, i));
}

/// No action behind an event that could not be sent is carried out: the pass stops there, and has
/// no further step.
pub proof fn nothing_is_done_after_a_failed_send<A>(pass: Pass<A>, actions: Seq<A>, i: int)
    requires
        pass.goes_through(actions),
        0 <= i < pass.steps.len(),
    ensures
        !pass.carried_out[i] <==> pass.steps[i] is Stop,
        !pass.carried_out[i] ==> i == pass.steps.len() - 1,
{
    assert(pass.follows(actions, i));
    if i < pass.steps.len() - 1 {
        assert(pass.follows(actions, i + 1));
    }
}

/// Whether the pass behind another is one that the thread goes on with.
pub open spec fn pass_follows(all_sent: Seq<bool>, delay_in_ms: u64, j: int) -> bool {
    wait_after_pass(all_sent[j - 1], delay_in_ms) is Some
}

/// Whether passes, of each of which it is known whether all its events were sent, are those of a
/// thread.
pub open spec fn passes(all_sent: Seq<bool>, delay_in_ms: u64) -> bool {
    forall|j: int| 1 <= j < all_sent.len() ==> #[trigger] pass_follows(all_sent, delay_in_ms, j)
}

/// A thread waits for the same time between any two passes, and a pass in which an event could not
/// be sent is its last.
pub proof fn thread_ends_with_the_first_failed_pass(all_sent: Seq<bool>, delay_in_ms: u64, j: int)
    requires
        passes(all_sent, delay_in_ms),
        0 <= j < all_sent.len(),
    ensures
        j < all_sent.len() - 1 ==> wait_after_pass(all_sent[j], delay_in_ms) == Some(delay_in_ms),
        !all_sent[j] ==> j == all_sent.len() - 1 && wait_after_pass(all_sent[j], delay_in_ms)
            is None,
{
    if j < all_sent.len() - 1 {
        assert(pass_follows(all_sent, delay_in_ms, j + 1));
    }
}

/// While actions are carried out, the first that is left comes next, and only it is taken from what
/// is left. After one that was not carried out, nothing more is taken.
pub proof fn next_action_is_the_first_left<A>(left: Seq<A>)
    ensures
        left.len() > 0 ==> next_of_pass(left, true) == PassStep::Perform(left[0]) && left_of_pass(
            left,
            true,
        ) == left.drop_first(),
        left.len() == 0 ==> next_of_pass(left, true) is End && left_of_pass(left, true).len() == 0,
        next_of_pass(left, false) is Stop,
        left_of_pass(left, false) == left,
{
}

/// After a pass in which all was sent, a thread waits for exactly the delay that is set.
pub proof fn wait_is_as_long_as_set(delay_in_ms: u64)
    ensures
        wait_after_pass(true, delay_in_ms) == Some(delay_in_ms),
        wait_after_pass(false, delay_in_ms) is None,
{
}

} // verus!
