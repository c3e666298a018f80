//! The driver of one actor.
//!
//! Work that only the surrounding runtime can do (running the actor's
//! hooks, polling a work item or the mailbox, waking the task) is asked
//! for as an [`Action`]; what came of it is handed back as an
//! [`Event`]. Every decision in between is taken here.

use crate::context::{ActorState, Context, ContextView};
use crate::storage::FutureSet;
use vstd::prelude::*;

verus! {

/// What the driver is waiting to hear.
#[derive(Clone, Copy, Debug, PartialEq, Eq, Structural)]
pub enum Stage {
    /// Suspended, until the scheduler polls again.
    Idle,
    /// The startup hook is running.
    Starting,
    /// The head of the wait queue is being polled.
    Waiting,
    /// The mailbox is being polled.
    Dispatching,
    /// The spawned item at this position is being polled.
    Spawning(usize),
    /// The mailbox is being asked whether anyone can still send.
    Probing,
    /// The actor is being asked whether it agrees to stop.
    Deciding,
    /// Resolved: the actor has stopped.
    Done,
}

/// What the caller reports to the driver.
#[derive(Clone, Copy, Debug, PartialEq, Eq, Structural)]
pub enum Event {
    /// The scheduler polls the driver.
    Polled,
    /// The startup hook has returned.
    Started,
    /// The head of the wait queue was polled; `true` when it is done.
    WaitPolled(bool),
    /// The mailbox was polled and what was ready has been handled.
    Dispatched,
    /// The spawned item was polled; `true` when it is done.
    SpawnPolled(bool),
    /// Whether anyone can still send to the mailbox.
    Connected(bool),
    /// The actor's answer to the question of stopping; `true` to stop.
    Decided(bool),
}

/// What the caller is to do next.
#[derive(Clone, Copy, Debug, PartialEq, Eq, Structural)]
pub enum Action {
    /// Run the startup hook; report [`Event::Started`].
    Start,
    /// Poll the head of the wait queue; report [`Event::WaitPolled`].
    PollWait,
    /// Poll the mailbox; report [`Event::Dispatched`].
    PollMailbox,
    /// Poll the spawned item at this position; report
    /// [`Event::SpawnPolled`].
    PollSpawn(usize),
    /// Ask the mailbox whether it is connected; report
    /// [`Event::Connected`].
    CheckMailbox,
    /// Ask the actor whether it agrees to stop; report
    /// [`Event::Decided`].
    AskStopping,
    /// Run the cleanup hook and resolve.
    Finish,
    /// Ask to be polled again and suspend.
    Yield,
    /// Suspend; the pending wait item will wake the task.
    Suspend,
}

/// Why the driver turned an event down.
#[derive(Clone, Copy, Debug, PartialEq, Eq, Structural)]
pub enum StepError {
    /// The event does not answer what the driver asked for.
    OutOfTurn,
    /// The driver has resolved and takes no more events.
    Resolved,
}

/// What a driver holds, as plain values.
pub struct DriverView<V> {
    pub stage: Stage,
    /// The wait items in the order in which they will be polled.
    pub wait: Seq<V>,
    /// The spawned items in the order of a round.
    pub spawn: Seq<V>,
}

/// A driver and a context after a step, and what the step answered.
pub struct Outcome<V> {
    pub driver: DriverView<V>,
    pub ctx: ContextView<V>,
    pub result: Result<Action, StepError>,
}

impl<V> DriverView<V> {
    /// A driver that has not been polled yet.
    pub open spec fn fresh() -> Self {
        DriverView { stage: Stage::Idle, wait: Seq::empty(), spawn: Seq::empty() }
    }

    /// The same queues at another stage.
    pub open spec fn at(self, stage: Stage) -> Self {
        DriverView { stage, ..self }
    }

    /// The driver after it has taken over what `ctx` had queued: the new
    /// items stand behind the old ones, in the order of their queueing.
    pub open spec fn merged(self, ctx: ContextView<V>) -> Self {
        DriverView { wait: self.wait + ctx.wait, spawn: self.spawn + ctx.spawn, ..self }
    }

    /// Whether a wait item holds everything else back.
    pub open spec fn blocked(self, ctx: ContextView<V>) -> bool {
        self.wait.len() > 0 && ctx.state == ActorState::Running
    }

    /// Whether the actor still has a reason to run: someone can send to
    /// it, or work of its own is pending.
    pub open spec fn alive(self, connected: bool) -> bool {
        connected || self.spawn.len() > 0 || self.wait.len() > 0
    }

    /// The driver without the head of its wait queue.
    pub open spec fn popped(self) -> Self {
        if self.wait.len() > 0 {
            DriverView { wait: self.wait.drop_first(), ..self }
        } else {
            self
        }
    }

    /// The driver without the spawned item at `index`.
    pub open spec fn without(self, index: usize) -> Self {
        if index < self.spawn.len() {
            DriverView { spawn: self.spawn.remove(index as int), ..self }
        } else {
            self
        }
    }

    /// The position behind `index` in a round over the spawned items.
    pub open spec fn behind(self, index: usize) -> usize {
        if index < self.spawn.len() {
            (index + 1) as usize
        } else {
            index
        }
    }

    /// The top of a round: a wait item that holds everything back is
    /// polled, and nothing else; without one the mailbox is polled.
    pub open spec fn round(self, ctx: ContextView<V>) -> Outcome<V> {
        if self.blocked(ctx) {
            Outcome { driver: self.at(Stage::Waiting), ctx, result: Ok(Action::PollWait) }
        } else {
            Outcome { driver: self.at(Stage::Dispatching), ctx, result: Ok(Action::PollMailbox) }
        }
    }

    /// The end of a round. A stopping actor is asked whether it agrees
    /// to stop; of a running one the mailbox is asked first whether
    /// anyone can still send; in any other state the driver yields.
    /// No question is put to an actor that has stopped.
    pub open spec fn closing(self, ctx: ContextView<V>) -> Outcome<V> {
        match ctx.state {
            ActorState::Stopping => Outcome {
                driver: self.at(Stage::Deciding),
                ctx,
                result: Ok(Action::AskStopping),
            },
            ActorState::Running => Outcome {
                driver: self.at(Stage::Probing),
                ctx,
                result: Ok(Action::CheckMailbox),
            },
            _ => Outcome { driver: self.at(Stage::Idle), ctx, result: Ok(Action::Yield) },
        }
    }

    /// The round over the spawned items, at position `index`: while the
    /// actor is running each item is polled in turn; behind the last
    /// one, or once the actor is no longer running, the round closes.
    pub open spec fn spawn_round(self, ctx: ContextView<V>, index: usize) -> Outcome<V> {
        if index < self.spawn.len() && ctx.state == ActorState::Running {
            Outcome {
                driver: self.at(Stage::Spawning(index)),
                ctx,
                result: Ok(Action::PollSpawn(index)),
            }
        } else {
            self.closing(ctx)
        }
    }

    /// What follows the mailbox's word on whether anyone can still send.
    /// A running actor that is no longer alive is asked whether it
    /// agrees to stop, and one that is alive goes on; an actor that is
    /// no longer running is treated as at the end of any round.
    pub open spec fn probed(self, ctx: ContextView<V>, connected: bool) -> Outcome<V> {
        if ctx.state != ActorState::Running {
            self.closing(ctx)
        } else if self.alive(connected) {
            Outcome { driver: self.at(Stage::Idle), ctx, result: Ok(Action::Yield) }
        } else {
            Outcome { driver: self.at(Stage::Deciding), ctx, result: Ok(Action::AskStopping) }
        }
    }

    /// What follows a merge: new wait items come before everything
    /// else; without them the spawned items go on from `index`.
    pub open spec fn resumed(self, ctx: ContextView<V>, index: usize) -> Outcome<V> {
        if self.blocked(ctx) {
            self.round(ctx)
        } else {
            self.spawn_round(ctx, index)
        }
    }

    /// One step of the driver: the driver and the context as `event`
    /// leaves them, and what the caller is to do next. An event that
    /// the driver did not ask for changes nothing.
    pub open spec fn step(self, ctx: ContextView<V>, event: Event) -> Outcome<V> {
        match (self.stage, event) {
            (Stage::Done, _) => Outcome { driver: self, ctx, result: Err(StepError::Resolved) },
            (Stage::Idle, Event::Polled) => if ctx.state == ActorState::Started {
                Outcome { driver: self.at(Stage::Starting), ctx, result: Ok(Action::Start) }
            } else {
                self.round(ctx)
            },
            (Stage::Starting, Event::Started) => {
                let running = ctx.in_state(ActorState::Running);
                self.merged(running).round(running.drained())
            },
            (Stage::Waiting, Event::WaitPolled(done)) => if done {
                self.popped().round(ctx)
            } else {
                Outcome { driver: self.at(Stage::Idle), ctx, result: Ok(Action::Suspend) }
            },
            (Stage::Dispatching, Event::Dispatched) => self.merged(ctx).resumed(ctx.drained(), 0),
            (Stage::Spawning(index), Event::SpawnPolled(done)) => if done {
                self.without(index).merged(ctx).resumed(ctx.drained(), index)
            } else {
                self.merged(ctx).resumed(ctx.drained(), self.behind(index))
            },
            (Stage::Probing, Event::Connected(connected)) => self.probed(ctx, connected),
            (Stage::Deciding, Event::Decided(stop)) => if stop {
                Outcome {
                    driver: self.at(Stage::Done),
                    ctx: ctx.in_state(ActorState::Stopped),
                    result: Ok(Action::Finish),
                }
            } else {
                Outcome { driver: self.at(Stage::Idle), ctx, result: Ok(Action::Yield) }
            },
            _ => Outcome { driver: self, ctx, result: Err(StepError::OutOfTurn) },
        }
    }

    /// Whether the queues hold what the stage speaks of: the item whose
    /// poll the driver waits to hear of. A driver that has not been
    /// polled is consistent, and a step keeps it so.
    pub open spec fn consistent(self) -> bool {
        match self.stage {
            Stage::Waiting => self.wait.len() > 0,
            Stage::Spawning(index) => index < self.spawn.len(),
            _ => true,
        }
    }
}

/// Wait items come first: the mailbox or a spawned item is polled only
/// when no wait item is pending in the driver's queue, or the actor is
/// no longer running.
pub proof fn lemma_wait_comes_first<V>(driver: DriverView<V>, ctx: ContextView<V>, event: Event)
    ensures
        ({
            let after = driver.step(ctx, event);
            (after.result == Ok::<Action, StepError>(Action::PollMailbox)
                || after.result matches Ok(Action::PollSpawn(_))) ==> !after.driver.blocked(
                after.ctx,
            )
        }),
{
}

/// The question of stopping is put only to an actor that is stopping,
/// or to a running one that has no wait item, no spawned item and no
/// one left who could send to it; never to one that has stopped.
pub proof fn lemma_pending_work_defers_stopping<V>(
    driver: DriverView<V>,
    ctx: ContextView<V>,
    event: Event,
)
    ensures
        ({
            let after = driver.step(ctx, event);
            after.result == Ok::<Action, StepError>(Action::AskStopping) ==> {
                ||| after.ctx.state == ActorState::Stopping
                ||| (after.ctx.state == ActorState::Running && event == Event::Connected(false)
                    && after.driver.wait.len() == 0 && after.driver.spawn.len() == 0)
            }
        }),
{
}

/// The driver resolves only on the actor's word: the cleanup hook is
/// asked for only in answer to the actor's agreement to stop, and the
/// actor is stopped by then.
pub proof fn lemma_finish_needs_consent<V>(
    driver: DriverView<V>,
    ctx: ContextView<V>,
    event: Event,
)
    ensures
        ({
            let after = driver.step(ctx, event);
            after.result == Ok::<Action, StepError>(Action::Finish) <==> (driver.stage
                == Stage::Deciding && event == Event::Decided(true))
        }),
        driver.step(ctx, event).result == Ok::<Action, StepError>(Action::Finish) ==> driver.step(
            ctx,
            event,
        ).ctx.state == ActorState::Stopped && driver.step(ctx, event).driver.stage == Stage::Done,
{
}

/// Only a wait item suspends the driver without a request to be polled
/// again: that answer is given to the report of a wait item that is not
/// done, and to nothing else.
pub proof fn lemma_only_wait_suspends<V>(driver: DriverView<V>, ctx: ContextView<V>, event: Event)
    ensures
        driver.step(ctx, event).result == Ok::<Action, StepError>(Action::Suspend) <==> (
        driver.stage == Stage::Waiting && event == Event::WaitPolled(false)),
{
}

/// Whether the driver, at `stage`, takes over the work that the context
/// has queued when it hears `event`: after the startup hook, after the
/// mailbox and after each spawned item.
pub open spec fn takes_over(stage: Stage, event: Event) -> bool {
    ||| stage == Stage::Starting && event == Event::Started
    ||| stage == Stage::Dispatching && event == Event::Dispatched
    ||| stage matches Stage::Spawning(_) && event matches Event::SpawnPolled(_)
}

/// What the actor's code queues in its startup hook, in its handlers
/// and in its spawned items stands in the driver's queues before
/// anything else is polled: behind what was there, in the order of its
/// queueing, and the context is left with nothing queued. Of the
/// driver's own items only a spawned item that is done has left.
pub proof fn lemma_hand_over_in_order<V>(driver: DriverView<V>, ctx: ContextView<V>, event: Event)
    requires
        takes_over(driver.stage, event),
    ensures
        ({
            let after = driver.step(ctx, event);
            let kept = if let (Stage::Spawning(index), Event::SpawnPolled(true)) = (
                driver.stage,
                event,
            ) {
                driver.without(index)
            } else {
                driver
            };
            &&& after.result is Ok
            &&& after.driver.wait == kept.wait + ctx.wait
            &&& after.driver.spawn == kept.spawn + ctx.spawn
            &&& kept.wait == driver.wait
            &&& after.ctx.wait == Seq::<V>::empty()
            &&& after.ctx.spawn == Seq::<V>::empty()
        }),
{
}

/// A step keeps the queues in line with the stage: where the driver
/// waits for a wait item or for a spawned item, that item is there.
pub proof fn lemma_step_keeps_consistent<V>(
    driver: DriverView<V>,
    ctx: ContextView<V>,
    event: Event,
)
    requires
        driver.consistent(),
    ensures
        driver.step(ctx, event).driver.consistent(),
{
}

/// The driver's side of one actor: the queues that are actually polled,
/// and the point that the polling has reached.
pub struct ContextFut<V> {
    stage: Stage,
    wait: FutureSet<V>,
    spawn: FutureSet<V>,
}

impl<V> View for ContextFut<V> {
    type V = DriverView<V>;

    closed spec fn view(&self) -> DriverView<V> {
        DriverView { stage: self.stage, wait: self.wait@, spawn: self.spawn@ }
    }
}

impl<V> ContextFut<V> {
    /// A driver with nothing queued, waiting for its first poll.
    pub fn new() -> (driver: Self)
        ensures
            driver@ == DriverView::<V>::fresh(),
    {
        ContextFut { stage: Stage::Idle, wait: FutureSet::default(), spawn: FutureSet::default() }
    }

    /// What the driver is waiting to hear.
    pub fn stage(&self) -> (stage: Stage)
        ensures
            stage == self@.stage,
    {
        self.stage
    }

    /// Takes over what `ctx` has queued since the last merge.
    pub fn merge(&mut self, ctx: &mut Context<V>)
        ensures
            final(self)@ == old(self)@.merged(old(ctx)@),
            final(ctx)@ == old(ctx)@.drained(),
    {
        ctx.hand_over(&mut self.wait, &mut self.spawn);
    }

    /// Whether the actor still has a reason to run: `connected` says
    /// whether anyone can still send to its mailbox; beside that, any
    /// wait item or spawned item in the driver's queues keeps it alive.
    pub fn alive(&self, connected: bool) -> (alive: bool)
        ensures
            alive == self@.alive(connected),
    {
        connected || !self.spawn.is_empty() || !self.wait.is_empty()
    }

    fn round(&mut self, ctx: &Context<V>) -> (action: Action)
        ensures
            (Outcome { driver: final(self)@, ctx: ctx@, result: Ok(action) }) == old(self)@.round(
                ctx@,
            ),
    {
        if !self.wait.is_empty() && ctx.state() == ActorState::Running {
            self.stage = Stage::Waiting;
            Action::PollWait
        } else {
            self.stage = Stage::Dispatching;
            Action::PollMailbox
        }
    }

    fn closing(&mut self, ctx: &Context<V>) -> (action: Action)
        ensures
            (Outcome { driver: final(self)@, ctx: ctx@, result: Ok(action) }) == old(
                self,
            )@.closing(ctx@),
    {
        match ctx.state() {
            ActorState::Stopping => {
                self.stage = Stage::Deciding;
                Action::AskStopping
            },
            ActorState::Running => {
                self.stage = Stage::Probing;
                Action::CheckMailbox
            },
            _ => {
                self.stage = Stage::Idle;
                Action::Yield
            },
        }
    }

    fn spawn_round(&mut self, ctx: &Context<V>, index: usize) -> (action: Action)
        ensures
            (Outcome { driver: final(self)@, ctx: ctx@, result: Ok(action) }) == old(
                self,
            )@.spawn_round(ctx@, index),
    {
        if index < self.spawn.len() && ctx.state() == ActorState::Running {
            self.stage = Stage::Spawning(index);
            Action::PollSpawn(index)
        } else {
            self.closing(ctx)
        }
    }

    fn resumed(&mut self, ctx: &Context<V>, index: usize) -> (action: Action)
        ensures
            (Outcome { driver: final(self)@, ctx: ctx@, result: Ok(action) }) == old(
                self,
            )@.resumed(ctx@, index),
    {
        if !self.wait.is_empty() && ctx.state() == ActorState::Running {
            self.round(ctx)
        } else {
            self.spawn_round(ctx, index)
        }
    }

    /// Takes `event` and says what the caller is to do next.
    ///
    /// The first poll of a context that has not started asks for the
    /// startup hook. After that each round polls the wait items one by
    /// one from the head, as long as the actor is running, and suspends
    /// on the first that is not done; then the mailbox; then, unless new
    /// wait items have come, each spawned item once, dropping those that
    /// are done. Whatever the context has queued is taken over after the
    /// startup hook, after the mailbox and after each spawned item. At
    /// the end of a round the actor may be asked whether it agrees to
    /// stop, and the driver resolves when it does.
    pub fn step(&mut self, ctx: &mut Context<V>, event: Event) -> (result: Result<
        Action,
        StepError,
    >)
        ensures
            (Outcome { driver: final(self)@, ctx: final(ctx)@, result }) == old(self)@.step(
                old(ctx)@,
                event,
            ),
    {
        match (self.stage, event) {
            (Stage::Done, _) => Err(StepError::Resolved),
            (Stage::Idle, Event::Polled) => {
                if ctx.state() == ActorState::Started {
                    self.stage = Stage::Starting;
                    Ok(Action::Start)
                } else {
                    Ok(self.round(ctx))
                }
            },
            (Stage::Starting, Event::Started) => {
                ctx.enter(ActorState::Running);
                self.merge(ctx);
                Ok(self.round(ctx))
            },
            (Stage::Waiting, Event::WaitPolled(done)) => {
                if done {
                    let _head: Option<V> = self.wait.pop();
                    Ok(self.round(ctx))
                } else {
                    self.stage = Stage::Idle;
                    Ok(Action::Suspend)
                }
            },
            (Stage::Dispatching, Event::Dispatched) => {
                self.merge(ctx);
                Ok(self.resumed(ctx, 0))
            },
            (Stage::Spawning(index), Event::SpawnPolled(done)) => {
                let next: usize = if done {
                    let _item: Option<V> = self.spawn.remove(index);
                    index
                } else if index < self.spawn.len() {
                    index + 1
                } else {
                    index
                };
                self.merge(ctx);
                Ok(self.resumed(ctx, next))
            },
            (Stage::Probing, Event::Connected(connected)) => {
                if ctx.state() != ActorState::Running {
                    Ok(self.closing(ctx))
                } else if self.alive(connected) {
                    self.stage = Stage::Idle;
                    Ok(Action::Yield)
                } else {
                    self.stage = Stage::Deciding;
                    Ok(Action::AskStopping)
                }
            },
            (Stage::Deciding, Event::Decided(stop)) => {
                if stop {
                    ctx.enter(ActorState::Stopped);
                    self.stage = Stage::Done;
                    Ok(Action::Finish)
                } else {
                    self.stage = Stage::Idle;
                    Ok(Action::Yield)
                }
            },
            _ => Err(StepError::OutOfTurn),
        }
    }

    /// The head of the wait queue, for polling.
    pub fn wait_head_mut(&mut self) -> (head: Option<&mut V>)
        ensures
            old(self)@.wait.len() == 0 ==> head.is_none() && final(self)@ == old(self)@,
            old(self)@.wait.len() > 0 ==> head.is_some() && *head.unwrap() == old(self)@.wait[0]
                && final(self)@ == (DriverView {
                wait: old(self)@.wait.update(0, *final(head.unwrap())),
                ..old(self)@
            }),
    {
        self.wait.next_mut()
    }

    /// The spawned item at `index`, for polling.
    pub fn spawn_item_mut(&mut self, index: usize) -> (item: Option<&mut V>)
        ensures
            index >= old(self)@.spawn.len() ==> item.is_none() && final(self)@ == old(self)@,
            index < old(self)@.spawn.len() ==> item.is_some() && *item.unwrap() == old(
                self,
            )@.spawn[index as int] && final(self)@ == (DriverView {
                spawn: old(self)@.spawn.update(index as int, *final(item.unwrap())),
                ..old(self)@
            }),
    {
        self.spawn.get_mut(index)
    }
}

} // verus!
