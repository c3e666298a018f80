pub mod context;
pub mod execution;
pub mod run;
pub mod storage;

pub use context::{ActorState, Context, ContextView};
pub use execution::{Action, ContextFut, DriverView, Event, Outcome, Stage, StepError};
pub use storage::FutureSet;
