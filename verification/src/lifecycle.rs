use vstd::prelude::*;

use crate::events::{AppEvent, WorkerCommand};

verus! {

/// Decision half of `ensure_started`: a spawn attempt is requested exactly
/// when no worker is tracked.
pub open spec fn spawn_decision(w: Option<u64>) -> WorkerCommand {
    if w is None {
        WorkerCommand::Spawn
    } else {
        WorkerCommand::Nothing
    }
}

/// Decision of `terminate`: the tracked worker, if any, is to be signalled.
pub open spec fn terminate_decision(w: Option<u64>) -> WorkerCommand {
    match w {
        Some(id) => WorkerCommand::Signal(id),
        None => WorkerCommand::Nothing,
    }
}

/// The command the manager issues for one shell event, given the currently
/// tracked worker.
pub open spec fn event_command(w: Option<u64>, e: AppEvent) -> WorkerCommand {
    match e {
        AppEvent::Ready => spawn_decision(w),
        AppEvent::CloseRequested => terminate_decision(w),
        AppEvent::WindowDestroyed => terminate_decision(w),
    }
}

/// The tracked worker after one shell event, where `outcome` is what the
/// shell reports for a spawn attempt made while handling it (`Some(id)` on
/// success, `None` on failure). Only a spawn attempt changes the state;
/// termination never clears it.
pub open spec fn step_worker(w: Option<u64>, e: AppEvent, outcome: Option<u64>) -> Option<u64> {
    if event_command(w, e) is Spawn {
        outcome
    } else {
        w
    }
}

/// Tracks the single optional worker process that backs the application
/// window. The manager only decides; the embedding shell owns the OS-level
/// process, performs the commands, and serializes access under its lock.
pub struct LifecycleManager {
    worker: Option<u64>,
}

impl LifecycleManager {
    /// The id of the worker the manager tracks, if one was spawned.
    pub closed spec fn worker_id(&self) -> Option<u64> {
        self.worker
    }

    /// A fresh manager tracks no worker.
    pub fn new() -> (m: Self)
        ensures
            m.worker_id() is None,
    {
        LifecycleManager { worker: None }
    }

    /// The tracked worker id, for callers outside ghost code.
    pub fn tracked_worker(&self) -> (r: Option<u64>)
        ensures
            r == self.worker_id(),
    {
        self.worker
    }

    /// `ensure_started`, decision half: ask the shell for a spawn attempt
    /// exactly when no worker is tracked; with one tracked the call is an
    /// idempotent no-op. The shell reports the attempt's outcome through
    /// `record_spawn`.
    pub fn ensure_started(&self) -> (c: WorkerCommand)
        ensures
            c == spawn_decision(self.worker_id()),
    {
        match self.worker {
            None => WorkerCommand::Spawn,
            Some(_) => WorkerCommand::Nothing,
        }
    }

    /// `ensure_started`, completion half: record the outcome of the spawn
    /// attempt that was requested. A tracked worker is never replaced, so
    /// recording is only for a manager that tracks none; after a failure
    /// (`None`) the state stays empty and a later call may attempt again.
    pub fn record_spawn(&mut self, outcome: Option<u64>)
        requires
            old(self).worker_id() is None,
        ensures
            final(self).worker_id() == outcome,
    {
        self.worker = outcome;
    }

    /// `terminate`: the tracked worker, if any, is to be signalled. The
    /// state is untouched — the handle is not cleared — so the call is safe
    /// with no worker and repeatable after a signal was already requested.
    pub fn terminate(&self) -> (c: WorkerCommand)
        ensures
            c == terminate_decision(self.worker_id()),
    {
        match self.worker {
            Some(id) => WorkerCommand::Signal(id),
            None => WorkerCommand::Nothing,
        }
    }

    /// Route one shell event: readiness asks for a spawn when one is
    /// needed; either shutdown event asks for termination.
    pub fn handle_event(&self, e: &AppEvent) -> (c: WorkerCommand)
        ensures
            c == event_command(self.worker_id(), *e),
    {
        match e {
            AppEvent::Ready => self.ensure_started(),
            AppEvent::CloseRequested => self.terminate(),
            AppEvent::WindowDestroyed => self.terminate(),
        }
    }
}

/// Shutdown entry point: the close-requested and the window-destroyed
/// handlers both funnel here and request termination of the tracked worker.
pub fn kill_backend(m: &LifecycleManager) -> (c: WorkerCommand)
    ensures
        c == terminate_decision(m.worker_id()),
{
    m.terminate()
}

/// The tracked worker after a whole sequence of shell events. Each entry of
/// the trace pairs the event delivered with the outcome the shell reports
/// for a spawn attempt made while handling it.
pub open spec fn run_worker(w: Option<u64>, t: Seq<(AppEvent, Option<u64>)>) -> Option<u64>
    decreases t.len(),
{
    if t.len() == 0 {
        w
    } else {
        step_worker(run_worker(w, t.drop_last()), t.last().0, t.last().1)
    }
}

/// How many spawn attempts a sequence of shell events requests.
pub open spec fn spawn_attempts(w: Option<u64>, t: Seq<(AppEvent, Option<u64>)>) -> nat
    decreases t.len(),
{
    if t.len() == 0 {
        0
    } else {
        spawn_attempts(w, t.drop_last()) + (if event_command(
            run_worker(w, t.drop_last()),
            t.last().0,
        ) is Spawn {
            1nat
        } else {
            0nat
        })
    }
}

/// How many of those spawn attempts succeed.
pub open spec fn successful_spawns(w: Option<u64>, t: Seq<(AppEvent, Option<u64>)>) -> nat
    decreases t.len(),
{
    if t.len() == 0 {
        0
    } else {
        successful_spawns(w, t.drop_last()) + (if event_command(
            run_worker(w, t.drop_last()),
            t.last().0,
        ) is Spawn && t.last().1 is Some {
            1nat
        } else {
            0nat
        })
    }
}

/// A tracked worker is never replaced: once the manager tracks one, no
/// later event requests a spawn and the tracked id never changes.
pub proof fn lemma_worker_never_replaced(w: Option<u64>, t: Seq<(AppEvent, Option<u64>)>)
    requires
        w is Some,
    ensures
        run_worker(w, t) == w,
        spawn_attempts(w, t) == 0,
    decreases t.len(),
{
    if t.len() > 0 {
        lemma_worker_never_replaced(w, t.drop_last());
    }
}

/// At most one worker process is ever created: over any sequence of shell
/// events, at most one spawn attempt succeeds — however often the shell
/// repeats its events, and in whichever order its lock serializes racing
/// callers.
pub proof fn lemma_at_most_one_worker(w: Option<u64>, t: Seq<(AppEvent, Option<u64>)>)
    ensures
        successful_spawns(w, t) <= 1,
        run_worker(w, t) is None ==> successful_spawns(w, t) == 0,
        w is Some ==> successful_spawns(w, t) == 0,
    decreases t.len(),
{
    if t.len() > 0 {
        lemma_at_most_one_worker(w, t.drop_last());
        if w is Some {
            lemma_worker_never_replaced(w, t.drop_last());
        }
    }
}

/// `ensure_started` is idempotent: on a manager with no worker the first
/// call requests a spawn; once that attempt succeeds, a repeated call — in
/// sequence or as a racing caller serialized after it — requests nothing
/// and leaves the tracked worker as it is.
pub proof fn lemma_ensure_started_idempotent(id: u64, o2: Option<u64>)
    ensures
        spawn_decision(None::<u64>) is Spawn,
        step_worker(None::<u64>, AppEvent::Ready, Some(id)) == Some(id),
        event_command(Some(id), AppEvent::Ready) is Nothing,
        step_worker(Some(id), AppEvent::Ready, o2) == Some(id),
        successful_spawns(None::<u64>, seq![(AppEvent::Ready, Some(id)), (AppEvent::Ready, o2)])
            == 1,
        spawn_attempts(None::<u64>, seq![(AppEvent::Ready, Some(id)), (AppEvent::Ready, o2)])
            == 1,
{
    let t = seq![(AppEvent::Ready, Some(id)), (AppEvent::Ready, o2)];
    let t1 = seq![(AppEvent::Ready, Some(id))];
    let t0 = Seq::<(AppEvent, Option<u64>)>::empty();
    assert(t.drop_last() =~= t1);
    assert(t1.drop_last() =~= t0);
    assert(t1.last() == (AppEvent::Ready, Some(id)));
    assert(run_worker(None::<u64>, t0) == None::<u64>);
    assert(run_worker(None::<u64>, t1) == Some(id));
    assert(t.last() == (AppEvent::Ready, o2));
    assert(successful_spawns(None::<u64>, t0) == 0);
    assert(successful_spawns(None::<u64>, t1) == 1);
    assert(successful_spawns(None::<u64>, t) == 1);
    assert(spawn_attempts(None::<u64>, t0) == 0);
    assert(spawn_attempts(None::<u64>, t1) == 1);
    assert(spawn_attempts(None::<u64>, t) == 1);
}

/// `terminate` before any start is a safe no-op: with no worker tracked it
/// requests nothing and changes nothing.
pub proof fn lemma_terminate_before_start(o: Option<u64>)
    ensures
        terminate_decision(None::<u64>) is Nothing,
        step_worker(None::<u64>, AppEvent::CloseRequested, o) == None::<u64>,
        step_worker(None::<u64>, AppEvent::WindowDestroyed, o) == None::<u64>,
{
}

/// `terminate` is idempotent: it never changes the tracked worker, so a
/// repeated call requests exactly the same signal to the same, still
/// tracked, id — never a signal to a handle that was invalidated.
pub proof fn lemma_terminate_idempotent(w: Option<u64>, o: Option<u64>)
    ensures
        step_worker(w, AppEvent::CloseRequested, o) == w,
        step_worker(w, AppEvent::WindowDestroyed, o) == w,
        terminate_decision(step_worker(w, AppEvent::CloseRequested, o)) == terminate_decision(w),
        terminate_decision(step_worker(w, AppEvent::WindowDestroyed, o)) == terminate_decision(w),
        w matches Some(id) ==> terminate_decision(w) == WorkerCommand::Signal(id),
{
}

} // verus!
