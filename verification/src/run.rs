//! Whole runs of a driver: the steps from its first poll on, with
//! whatever the actor's code does to the context in between.

use crate::context::{ActorState, ContextView};
use crate::execution::{Action, DriverView, Event, Outcome, Stage, StepError};
use vstd::prelude::*;

verus! {

/// One step of a run: the driver and the context as they stand when the
/// step is taken, and the event that is reported.
pub struct Turn<V> {
    pub driver: DriverView<V>,
    pub ctx: ContextView<V>,
    pub event: Event,
}

impl<V> Turn<V> {
    /// What the step leaves behind and answers.
    pub open spec fn outcome(self) -> Outcome<V> {
        self.driver.step(self.ctx, self.event)
    }

    /// What the step asks the caller to do, or why it asks nothing.
    pub open spec fn answer(self) -> Result<Action, StepError> {
        self.outcome().result
    }

    /// Whether this step can follow `before` in a run. The driver is at
    /// the stage at which `before` left it; its items may have been
    /// polled in the meantime, and more may have been merged in, but
    /// none has left. The context is in a state that the actor's code
    /// can have brought about since, by asking to stop or by
    /// terminating; what it has queued is left open.
    pub open spec fn follows(self, before: Turn<V>) -> bool {
        &&& self.driver.stage == before.outcome().driver.stage
        &&& self.driver.wait.len() >= before.outcome().driver.wait.len()
        &&& self.driver.spawn.len() >= before.outcome().driver.spawn.len()
        &&& before.outcome().ctx.state_leads_to(self.ctx)
    }

    /// Whether the step leaves a running actor with the driver waiting
    /// for a wait item, at its poll or suspended on it.
    pub open spec fn held_by_wait(self) -> bool {
        &&& self.outcome().ctx.state == ActorState::Running
        &&& self.outcome().driver.wait.len() > 0
        &&& self.outcome().driver.stage == Stage::Waiting || self.outcome().driver.stage
            == Stage::Idle
    }
}

/// Whether the steps of `turns` from the second up to step `k` leave
/// the wait items of the startup hook pending: the second step reports
/// the return of the hook, with a wait item queued; no later one
/// reports a wait item as done, and the actor is neither asked to stop
/// nor terminated.
pub open spec fn startup_wait_pending<V>(turns: Seq<Turn<V>>, k: int) -> bool {
    &&& 1 <= k < turns.len()
    &&& turns[1].event == Event::Started
    &&& turns[1].ctx.wait.len() > 0
    &&& forall|j: int|
        1 < j <= k ==> (#[trigger] turns[j]).event != Event::WaitPolled(true) && turns[j].ctx.state
            != ActorState::Stopping && turns[j].ctx.state != ActorState::Stopped
}

/// Whether `turns` is a run: it begins with the first poll of a driver
/// whose actor has not started, and each step follows the one before.
pub open spec fn is_run<V>(turns: Seq<Turn<V>>) -> bool {
    &&& turns.len() > 0 ==> {
        &&& turns[0].driver.stage == Stage::Idle
        &&& turns[0].ctx.state == ActorState::Started
        &&& turns[0].event == Event::Polled
    }
    &&& forall|i: int| 0 < i < turns.len() ==> (#[trigger] turns[i]).follows(turns[i - 1])
}

proof fn lemma_started_for_good<V>(turns: Seq<Turn<V>>, i: int)
    requires
        is_run(turns),
        0 < i < turns.len(),
    ensures
        turns[i].driver.stage == Stage::Starting || turns[i].ctx.state != ActorState::Started,
    decreases i,
{
    assert(turns[i].follows(turns[i - 1]));
    if i > 1 {
        lemma_started_for_good(turns, i - 1);
    }
}

proof fn lemma_done_for_good<V>(turns: Seq<Turn<V>>, i: int, j: int)
    requires
        is_run(turns),
        0 <= i < j < turns.len(),
        turns[i].outcome().driver.stage == Stage::Done,
    ensures
        turns[j].driver.stage == Stage::Done,
    decreases j - i,
{
    assert(turns[j].follows(turns[j - 1]));
    if j > i + 1 {
        lemma_done_for_good(turns, i, j - 1);
    }
}

proof fn lemma_held_while_pending<V>(turns: Seq<Turn<V>>, k: int)
    requires
        is_run(turns),
        startup_wait_pending(turns, k),
    ensures
        turns[k].held_by_wait(),
    decreases k,
{
    assert(turns[k].follows(turns[k - 1]));
    if k > 1 {
        lemma_held_while_pending(turns, k - 1);
    }
}

/// A wait item of the startup hook holds everything back until it is
/// done. In a run in which the hook has queued a wait item, as long as
/// no wait item is reported done and the actor is neither asked to stop
/// nor terminated, every step asks for the poll of the wait item or
/// suspends on it, or turns its event down: the mailbox is not polled,
/// no spawned item is polled, and the actor does not come to its end.
pub proof fn lemma_startup_wait_holds_back<V>(turns: Seq<Turn<V>>, k: int)
    requires
        is_run(turns),
        startup_wait_pending(turns, k),
    ensures
        turns[k].outcome().ctx.state == ActorState::Running,
        turns[k].outcome().driver.wait.len() > 0,
        ({
            let answer = turns[k].answer();
            ||| answer == Ok::<Action, StepError>(Action::PollWait)
            ||| answer == Ok::<Action, StepError>(Action::Suspend)
            ||| answer == Err::<Action, StepError>(StepError::OutOfTurn)
        }),
{
    lemma_held_while_pending(turns, k);
    assert(turns[k].follows(turns[k - 1]));
    if k > 1 {
        lemma_held_while_pending(turns, k - 1);
    }
}

/// In any run the startup hook is asked for by the first step and by no
/// other.
pub proof fn lemma_startup_hook_once<V>(turns: Seq<Turn<V>>, i: int)
    requires
        is_run(turns),
        0 <= i < turns.len(),
    ensures
        turns[i].answer() == Ok::<Action, StepError>(Action::Start) <==> i == 0,
{
    if i > 0 {
        lemma_started_for_good(turns, i);
    }
}

/// In any run the cleanup hook comes last: the step that asks for it is
/// not the first, so the startup hook came before it, and every step
/// after it is turned down because the driver has resolved. So it is
/// asked for at most once.
pub proof fn lemma_cleanup_hook_last<V>(turns: Seq<Turn<V>>, i: int, j: int)
    requires
        is_run(turns),
        0 <= i < j < turns.len(),
        turns[i].answer() == Ok::<Action, StepError>(Action::Finish),
    ensures
        i > 0,
        turns[0].answer() == Ok::<Action, StepError>(Action::Start),
        turns[j].answer() == Err::<Action, StepError>(StepError::Resolved),
{
    lemma_done_for_good(turns, i, j);
}

} // verus!
