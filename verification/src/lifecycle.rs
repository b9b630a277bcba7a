//! Engine lifecycle: idempotent start-up, implicit start, shutdown.
//!
//! The engine is started at most once per process: an explicit set-up call
//! spawns the dedicated worker thread that hosts the dispatcher, and every
//! later set-up call is a no-op.  Each command enqueue first makes sure the
//! engine is running, retrying the start a bounded number of times before
//! giving up, so a permanently failing start surfaces quickly instead of
//! spinning forever.

use vstd::prelude::*;

verus! {

/// How many times an enqueue will try to start the engine before giving up.
pub const MAX_START_TRIES: u32 = 10;

/// The flat lifecycle state of the bridge engine.
#[derive(Debug, Copy, Clone, PartialEq, Eq, Structural)]
pub enum EngineState {
    /// No worker thread has been started.
    NotStarted,
    /// The worker thread and its dispatcher are serving commands.
    Running,
    /// A quit command is draining the registries.
    Quitting,
    /// The dispatcher loop has exited and the worker thread is gone.
    Stopped,
}

/// What the host layer must do after a set-up request was examined.
#[derive(Debug, Copy, Clone, PartialEq, Eq, Structural)]
pub enum SetupAction {
    /// The engine was not running: spawn the worker thread and block the
    /// caller until the dispatcher signals readiness.
    StartWorker,
    /// The engine already runs: do nothing.
    AlreadyRunning,
}

/// The process-wide lifecycle record: the engine state together with the
/// instance counter the start protocol keeps.
pub struct EngineLifecycle {
    state: EngineState,
    instances: i64,
}

/// The lifecycle after one set-up request, with the action the host must
/// perform.  Starting an engine that is not running makes it run and bumps
/// the instance counter; every other state is left exactly as it was.
pub open spec fn spec_setup(l: EngineLifecycle) -> (EngineLifecycle, SetupAction) {
    if l.spec_state() == EngineState::NotStarted {
        (EngineLifecycle::spec_with(EngineState::Running, l.spec_instances() + 1), SetupAction::StartWorker)
    } else {
        (l, SetupAction::AlreadyRunning)
    }
}

impl EngineLifecycle {
    /// The current engine state.
    pub closed spec fn spec_state(self) -> EngineState {
        self.state
    }

    /// How many times the engine has been set up.
    pub closed spec fn spec_instances(self) -> int {
        self.instances as int
    }

    /// The lifecycle value with the given state and counter; used only to
    /// state transitions.
    pub closed spec fn spec_with(state: EngineState, instances: int) -> EngineLifecycle {
        EngineLifecycle { state, instances: instances as i64 }
    }

    /// A well-formed lifecycle: the instance counter counts starts, and it
    /// is positive exactly when the engine has been started.
    pub open spec fn wf(self) -> bool {
        &&& 0 <= self.spec_instances() < i64::MAX
        &&& (self.spec_instances() > 0 <==> self.spec_state() != EngineState::NotStarted)
    }

    /// The lifecycle of a process that has not touched the engine.
    pub fn new() -> (l: EngineLifecycle)
        ensures
            l.wf(),
            l.spec_state() == EngineState::NotStarted,
            l.spec_instances() == 0,
    {
        EngineLifecycle { state: EngineState::NotStarted, instances: 0 }
    }

    /// Requests that the engine be set up.  A first request asks the host
    /// to start the worker; any later request is a no-op, which makes
    /// set-up idempotent.
    pub fn setup(&mut self) -> (a: SetupAction)
        requires
            old(self).wf(),
        ensures
            final(self).wf(),
            (*final(self), a) == spec_setup(*old(self)),
            final(self).spec_state() == EngineState::Running || final(self).spec_state()
                == old(self).spec_state(),
    {
        if self.instances == 0 {
            self.instances = self.instances + 1;
            self.state = EngineState::Running;
            SetupAction::StartWorker
        } else {
            SetupAction::AlreadyRunning
        }
    }

    /// True when the engine has been set up and not yet shut down by the
    /// process; the enqueue path uses this to decide whether an implicit
    /// start is needed.
    pub fn running(&self) -> (r: bool)
        ensures
            r == (self.spec_instances() > 0),
    {
        self.instances > 0
    }

    /// Records that the dispatcher received the quit command and is
    /// draining the registries.
    pub fn begin_quit(&mut self)
        requires
            old(self).wf(),
            old(self).spec_state() == EngineState::Running,
        ensures
            final(self).wf(),
            final(self).spec_state() == EngineState::Quitting,
            final(self).spec_instances() == old(self).spec_instances(),
    {
        self.state = EngineState::Quitting;
    }

    /// Records that the dispatcher loop has exited.
    pub fn finish_quit(&mut self)
        requires
            old(self).wf(),
            old(self).spec_state() == EngineState::Quitting,
        ensures
            final(self).wf(),
            final(self).spec_state() == EngineState::Stopped,
            final(self).spec_instances() == old(self).spec_instances(),
    {
        self.state = EngineState::Stopped;
    }
}

/// Whether the event loop has already been set up in this process.
pub fn is_already_setup(l: &EngineLifecycle) -> (r: bool)
    ensures
        r == (l.spec_instances() > 0),
{
    l.instances > 0
}

/// Implicit start idempotence: setting the engine up when it is not
/// running starts it, and a second set-up request changes nothing — the
/// state after two requests is the state after one, and the second request
/// asks the host for no work.
pub proof fn lemma_setup_idempotent(l: EngineLifecycle)
    requires
        l.wf(),
    ensures
        spec_setup(l).0.spec_state() != EngineState::NotStarted ==> spec_setup(spec_setup(l).0)
            == (spec_setup(l).0, SetupAction::AlreadyRunning),
        l.spec_state() == EngineState::NotStarted ==> spec_setup(l).0.spec_state()
            == EngineState::Running,
        l.spec_state() != EngineState::NotStarted ==> spec_setup(l) == (l, SetupAction::AlreadyRunning),
{
}

/// Counts the bounded retries an enqueue performs while the engine is not
/// yet seen as running.
pub struct StartRetries {
    tries: u32,
}

impl StartRetries {
    /// Attempts made so far.
    pub closed spec fn spec_tries(self) -> int {
        self.tries as int
    }

    /// No attempt has been made.
    pub fn new() -> (r: StartRetries)
        ensures
            r.spec_tries() == 0,
    {
        StartRetries { tries: 0 }
    }

    /// Records one more start attempt and says whether the enqueue must
    /// give up: it does exactly when more than [`MAX_START_TRIES`]
    /// attempts have now been made, so a permanently lost start cannot
    /// loop forever.
    pub fn note_attempt(&mut self) -> (give_up: bool)
        requires
            old(self).spec_tries() <= MAX_START_TRIES,
        ensures
            final(self).spec_tries() == old(self).spec_tries() + 1,
            give_up == (final(self).spec_tries() > MAX_START_TRIES),
    {
        self.tries = self.tries + 1;
        self.tries > MAX_START_TRIES
    }
}

} // verus!
