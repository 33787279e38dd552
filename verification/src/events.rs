use vstd::prelude::*;

verus! {

/// A lifecycle event delivered by the embedding application shell.
#[derive(Clone, Copy, Debug, PartialEq, Eq, Structural)]
pub enum AppEvent {
    /// The application has finished its setup and the window is ready.
    Ready,
    /// The application was asked to close.
    CloseRequested,
    /// A window of the application was destroyed.
    WindowDestroyed,
}

/// What the embedding shell is to do next on the manager's behalf.
#[derive(Clone, Copy, Debug, PartialEq, Eq, Structural)]
pub enum WorkerCommand {
    /// Attempt to create the worker process and report the outcome through
    /// `LifecycleManager::record_spawn`.
    Spawn,
    /// Send a termination signal to the worker process with this id.
    Signal(u64),
    /// No action is needed.
    Nothing,
}

} // verus!
