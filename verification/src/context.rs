//! The per-actor context: the lifecycle state and the work that the
//! actor's own code has queued and the driver has not yet taken over.

use crate::storage::FutureSet;
use actix::SpawnHandle;
use vstd::prelude::*;

verus! {

/// `actix::SpawnHandle`, the handle by which spawned work is to be
/// named. Nothing of what it holds is visible here.
#[verifier::external_type_specification]
#[verifier::external_body]
pub struct ExSpawnHandle(actix::SpawnHandle);

/// `SpawnHandle::default`: the handle that stands for "no particular
/// item". Nothing is claimed of the value.
#[verifier::external_body]
fn placeholder_handle() -> SpawnHandle {
    SpawnHandle::default()
}

/// Where an actor stands in its life.
#[derive(Clone, Copy, Debug, PartialEq, Eq, Structural)]
pub enum ActorState {
    /// Created; the startup hook has not run yet.
    Started,
    /// In normal operation.
    Running,
    /// A stop was asked for and is not yet final.
    Stopping,
    /// At its end.
    Stopped,
}

/// What a context holds, as plain values.
pub struct ContextView<V> {
    pub state: ActorState,
    /// Work that must finish before another message is handled.
    pub wait: Seq<V>,
    /// Work that runs beside the handling of messages.
    pub spawn: Seq<V>,
}

impl<V> ContextView<V> {
    /// The context of an actor that has just been created.
    pub open spec fn fresh() -> Self {
        ContextView { state: ActorState::Started, wait: Seq::empty(), spawn: Seq::empty() }
    }

    /// Whether work is pending that holds back the next message.
    pub open spec fn waiting(self) -> bool {
        self.wait.len() > 0 && self.state != ActorState::Stopping && self.state
            != ActorState::Stopped
    }

    /// The state after a request to stop.
    pub open spec fn stop_requested(self) -> Self {
        if self.state == ActorState::Running {
            ContextView { state: ActorState::Stopping, ..self }
        } else {
            self
        }
    }

    /// The same context with both queues emptied.
    pub open spec fn drained(self) -> Self {
        ContextView { wait: Seq::empty(), spawn: Seq::empty(), ..self }
    }

    /// The same context in another state.
    pub open spec fn in_state(self, state: ActorState) -> Self {
        ContextView { state, ..self }
    }

    /// Whether the state of `next` can come from the state of this
    /// context by requests to stop and to terminate: the state stays,
    /// goes from running to stopping, or becomes stopped.
    pub open spec fn state_leads_to(self, next: Self) -> bool {
        next.state == self.state || next.state == ActorState::Stopped || (self.state
            == ActorState::Running && next.state == ActorState::Stopping)
    }
}

/// The state of one actor and the work that its code has queued.
pub struct Context<V> {
    state: ActorState,
    wait: FutureSet<V>,
    spawn: FutureSet<V>,
}

impl<V> View for Context<V> {
    type V = ContextView<V>;

    closed spec fn view(&self) -> ContextView<V> {
        ContextView { state: self.state, wait: self.wait@, spawn: self.spawn@ }
    }
}

impl<V> Default for Context<V> {
    fn default() -> (ctx: Self)
        ensures
            ctx@ == ContextView::<V>::fresh(),
    {
        Context {
            state: ActorState::Started,
            wait: FutureSet::default(),
            spawn: FutureSet::default(),
        }
    }
}

impl<V> Context<V> {
    /// A context for an actor that has not started yet.
    pub fn new() -> (ctx: Self)
        ensures
            ctx@ == ContextView::<V>::fresh(),
    {
        Context {
            state: ActorState::Started,
            wait: FutureSet::default(),
            spawn: FutureSet::default(),
        }
    }

    /// Asks a running actor to stop. In any other state nothing happens.
    pub fn stop(&mut self)
        ensures
            final(self)@ == old(self)@.stop_requested(),
    {
        if self.state == ActorState::Running {
            self.state = ActorState::Stopping;
        }
    }

    /// Ends the actor at once, whatever its state.
    pub fn terminate(&mut self)
        ensures
            final(self)@ == old(self)@.in_state(ActorState::Stopped),
    {
        self.state = ActorState::Stopped;
    }

    /// The current state.
    pub fn state(&self) -> (state: ActorState)
        ensures
            state == self@.state,
    {
        self.state
    }

    /// Queues work that runs beside the handling of messages. The handle
    /// is a placeholder and names no item.
    pub fn spawn(&mut self, item: V) -> (handle: SpawnHandle)
        ensures
            final(self)@ == (ContextView { spawn: old(self)@.spawn.push(item), ..old(self)@ }),
    {
        let _slot: usize = self.spawn.insert(item);
        placeholder_handle()
    }

    /// Queues work that must finish before another message is handled.
    pub fn wait(&mut self, item: V)
        ensures
            final(self)@ == (ContextView { wait: old(self)@.wait.push(item), ..old(self)@ }),
    {
        let _slot: usize = self.wait.insert(item);
    }

    /// Whether work is pending that holds back the next message: only
    /// while the actor is neither stopping nor stopped.
    pub fn waiting(&self) -> (waiting: bool)
        ensures
            waiting == self@.waiting(),
    {
        !self.wait.is_empty() && self.state != ActorState::Stopping && self.state
            != ActorState::Stopped
    }

    /// Puts the actor into `state`. Only the driver moves an actor
    /// forward in this way.
    pub(crate) fn enter(&mut self, state: ActorState)
        ensures
            final(self)@ == old(self)@.in_state(state),
    {
        self.state = state;
    }

    /// Moves all queued work to the tails of `wait` and `spawn`, in the
    /// order in which it was queued.
    pub(crate) fn hand_over(&mut self, wait: &mut FutureSet<V>, spawn: &mut FutureSet<V>)
        ensures
            final(self)@ == old(self)@.drained(),
            final(wait)@ == old(wait)@ + old(self)@.wait,
            final(spawn)@ == old(spawn)@ + old(self)@.spawn,
    {
        wait.append(&mut self.wait);
        spawn.append(&mut self.spawn);
    }
}

} // verus!
