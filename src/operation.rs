//! One poll of a task that waits on a native operation of the audio server,
//! or on the connection of a context.

use vstd::prelude::*;

verus! {

/// How many source notifications may wait in the queue before new ones are
/// dropped; the notification callback never blocks.
pub const SUBSCRIPTION_CAPACITY: usize = 32;

/// The state a native operation reports.
#[derive(Clone, Copy, PartialEq, Eq, Structural, Debug)]
pub enum OpState {
    Running,
    Done,
    Cancelled,
}

/// What to do after checking whether an awaited value is there.
#[derive(Clone, Copy, PartialEq, Eq, Structural, Debug)]
pub enum OpStep {
    /// The value is there: detach the completion callback and resume.
    Complete,
    /// The operation was cancelled and will never deliver: stop the runtime.
    Halt,
    /// Install a completion callback that wakes the task, and suspend.
    Suspend,
}

/// The step for a value that is or is not there yet, and the operation's state.
pub open spec fn op_step_for(ready: bool, state: OpState) -> OpStep {
    if ready {
        OpStep::Complete
    } else if state == OpState::Cancelled {
        OpStep::Halt
    } else {
        OpStep::Suspend
    }
}

/// Decides one poll of a task that awaits the result of an operation.
pub fn op_step(ready: bool, state: OpState) -> (r: OpStep)
    ensures
        r == op_step_for(ready, state),
{
    if ready {
        OpStep::Complete
    } else if state == OpState::Cancelled {
        OpStep::Halt
    } else {
        OpStep::Suspend
    }
}

/// The state a context of the audio server reports while it connects.
#[derive(Clone, Copy, PartialEq, Eq, Structural, Debug)]
pub enum ContextState {
    Unconnected,
    Connecting,
    Authorizing,
    SettingName,
    Ready,
    Failed,
    Terminated,
}

/// What to do while waiting for a context to connect.
#[derive(Clone, Copy, PartialEq, Eq, Structural, Debug)]
pub enum ConnectStep {
    /// Connected: detach the state callback and resume.
    Connected,
    /// The connection failed or ended: detach the state callback and report
    /// the context's error.
    Failed,
    /// Install a state callback that wakes the task, and suspend.
    Suspend,
}

/// The step for a context state.
pub open spec fn connect_step_for(state: ContextState) -> ConnectStep {
    match state {
        ContextState::Ready => ConnectStep::Connected,
        ContextState::Failed | ContextState::Terminated => ConnectStep::Failed,
        _ => ConnectStep::Suspend,
    }
}

/// Decides one poll of a task that waits for its context to connect.
pub fn connect_step(state: ContextState) -> (r: ConnectStep)
    ensures
        r == connect_step_for(state),
{
    match state {
        ContextState::Ready => ConnectStep::Connected,
        ContextState::Failed | ContextState::Terminated => ConnectStep::Failed,
        _ => ConnectStep::Suspend,
    }
}

} // verus!
