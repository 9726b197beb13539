use vstd::prelude::*;

verus! {

/// The life of a hosted plugin instance.
#[derive(Clone, Copy, Debug, PartialEq, Eq, Structural)]
pub enum SessionState {
    /// No plugin instance yet.
    Unloaded,
    /// An instance was handed over by the loader.
    Loaded,
    /// The instance's one-time `init` has run.
    Initialized,
    /// The instance has been driven by the period callback.
    Active,
    /// The transport is being torn down; no more periods run.
    ShuttingDown,
    /// The instance was shut down; nothing more is called on it.
    Stopped,
}

/// Why a lifecycle call was refused.
#[derive(Clone, Copy, Debug, PartialEq, Eq, Structural)]
pub enum SessionError {
    /// The call is not allowed in the session's current state.
    OutOfOrder,
}

/// What the period callback does with the plugin in one period.
#[derive(Clone, Copy, Debug, PartialEq, Eq, Structural)]
pub enum PeriodPlan {
    /// The plugin is not called; the outputs are silenced.
    Silence,
    /// No events are pending: the plugin only processes the buffers.
    Process,
    /// Events are delivered first, then the plugin processes the buffers.
    DeliverThenProcess,
}

/// A lifecycle step of the session.
#[derive(Clone, Copy, Debug, PartialEq, Eq, Structural)]
pub enum SessionStep {
    Load,
    Init,
    RunPeriod,
    BeginShutdown,
    FinishShutdown,
}

/// The state after `step` in state `s`, or `None` where the step is not
/// allowed there.
pub open spec fn next_state(s: SessionState, step: SessionStep) -> Option<SessionState> {
    match (s, step) {
        (SessionState::Unloaded, SessionStep::Load) => Some(SessionState::Loaded),
        (SessionState::Loaded, SessionStep::Init) => Some(SessionState::Initialized),
        (SessionState::Initialized, SessionStep::RunPeriod) => Some(SessionState::Active),
        (SessionState::Active, SessionStep::RunPeriod) => Some(SessionState::Active),
        (SessionState::Loaded, SessionStep::BeginShutdown) => Some(SessionState::ShuttingDown),
        (SessionState::Initialized, SessionStep::BeginShutdown) => Some(SessionState::ShuttingDown),
        (SessionState::Active, SessionStep::BeginShutdown) => Some(SessionState::ShuttingDown),
        (SessionState::ShuttingDown, SessionStep::FinishShutdown) => Some(SessionState::Stopped),
        _ => None,
    }
}

/// The plan for a period in state `s` with `event_count` pending events,
/// where `bound` tells whether the period's buffers could be bound.
pub open spec fn plan_for(s: SessionState, event_count: nat, bound: bool) -> PeriodPlan {
    if next_state(s, SessionStep::RunPeriod) is None || !bound {
        PeriodPlan::Silence
    } else if event_count == 0 {
        PeriodPlan::Process
    } else {
        PeriodPlan::DeliverThenProcess
    }
}

/// The lifecycle of one plugin instance, owned by the thread that drives it.
pub struct PluginSession {
    state: SessionState,
}

impl PluginSession {
    pub closed spec fn spec_state(&self) -> SessionState {
        self.state
    }

    /// A session with no plugin instance yet.
    pub fn new() -> (r: PluginSession)
        ensures
            r.spec_state() == SessionState::Unloaded,
    {
        PluginSession { state: SessionState::Unloaded }
    }

    pub fn state(&self) -> (r: SessionState)
        ensures
            r == self.spec_state(),
    {
        self.state
    }

    /// Takes `step` if the current state allows it; otherwise refuses it and
    /// stays where it is.
    pub fn advance(&mut self, step: SessionStep) -> (r: Result<SessionState, SessionError>)
        ensures
            next_state(old(self).spec_state(), step) matches Some(s)
                ==> r == Ok::<SessionState, SessionError>(s) && final(self).spec_state() == s,
            next_state(old(self).spec_state(), step) is None
                ==> r == Err::<SessionState, SessionError>(SessionError::OutOfOrder)
                && final(self).spec_state() == old(self).spec_state(),
    {
        let next: Option<SessionState> = match (self.state, step) {
            (SessionState::Unloaded, SessionStep::Load) => Some(SessionState::Loaded),
            (SessionState::Loaded, SessionStep::Init) => Some(SessionState::Initialized),
            (SessionState::Initialized, SessionStep::RunPeriod) => Some(SessionState::Active),
            (SessionState::Active, SessionStep::RunPeriod) => Some(SessionState::Active),
            (SessionState::Loaded, SessionStep::BeginShutdown) => Some(SessionState::ShuttingDown),
            (SessionState::Initialized, SessionStep::BeginShutdown) => Some(SessionState::ShuttingDown),
            (SessionState::Active, SessionStep::BeginShutdown) => Some(SessionState::ShuttingDown),
            (SessionState::ShuttingDown, SessionStep::FinishShutdown) => Some(SessionState::Stopped),
            _ => None,
        };
        match next {
            Some(s) => {
                self.state = s;
                Ok(s)
            },
            None => Err(SessionError::OutOfOrder),
        }
    }

    /// The loader handed over a plugin instance.
    pub fn load(&mut self) -> (r: Result<SessionState, SessionError>)
        ensures
            old(self).spec_state() == SessionState::Unloaded
                ==> r == Ok::<SessionState, SessionError>(SessionState::Loaded)
                && final(self).spec_state() == SessionState::Loaded,
            old(self).spec_state() != SessionState::Unloaded
                ==> r == Err::<SessionState, SessionError>(SessionError::OutOfOrder)
                && final(self).spec_state() == old(self).spec_state(),
    {
        self.advance(SessionStep::Load)
    }

    /// The plugin's one-time `init` is to run.
    pub fn init(&mut self) -> (r: Result<SessionState, SessionError>)
        ensures
            old(self).spec_state() == SessionState::Loaded
                ==> r == Ok::<SessionState, SessionError>(SessionState::Initialized)
                && final(self).spec_state() == SessionState::Initialized,
            old(self).spec_state() != SessionState::Loaded
                ==> r == Err::<SessionState, SessionError>(SessionError::OutOfOrder)
                && final(self).spec_state() == old(self).spec_state(),
    {
        self.advance(SessionStep::Init)
    }

    /// The transport is being torn down: no further period runs.
    pub fn begin_shutdown(&mut self) -> (r: Result<SessionState, SessionError>)
        ensures
            next_state(old(self).spec_state(), SessionStep::BeginShutdown) is Some
                ==> r == Ok::<SessionState, SessionError>(SessionState::ShuttingDown)
                && final(self).spec_state() == SessionState::ShuttingDown,
            next_state(old(self).spec_state(), SessionStep::BeginShutdown) is None
                ==> r == Err::<SessionState, SessionError>(SessionError::OutOfOrder)
                && final(self).spec_state() == old(self).spec_state(),
    {
        self.advance(SessionStep::BeginShutdown)
    }

    /// The plugin's `shutdown` is to run, after the transport is gone.
    pub fn finish_shutdown(&mut self) -> (r: Result<SessionState, SessionError>)
        ensures
            old(self).spec_state() == SessionState::ShuttingDown
                ==> r == Ok::<SessionState, SessionError>(SessionState::Stopped)
                && final(self).spec_state() == SessionState::Stopped,
            old(self).spec_state() != SessionState::ShuttingDown
                ==> r == Err::<SessionState, SessionError>(SessionError::OutOfOrder)
                && final(self).spec_state() == old(self).spec_state(),
    {
        self.advance(SessionStep::FinishShutdown)
    }

    /// Decides what one period does with the plugin, given the number of
    /// pending events and whether the buffers could be bound. A period that
    /// calls the plugin makes the session active; one that cannot call it
    /// leaves the session as it is and asks for silence, never for a stop.
    pub fn plan_period(&mut self, event_count: usize, bound: bool) -> (r: PeriodPlan)
        ensures
            r == plan_for(old(self).spec_state(), event_count as nat, bound),
            r != PeriodPlan::Silence ==> final(self).spec_state() == SessionState::Active,
            r == PeriodPlan::Silence ==> final(self).spec_state() == old(self).spec_state(),
    {
        if !bound {
            return PeriodPlan::Silence;
        }
        match self.advance(SessionStep::RunPeriod) {
            Ok(_) => {
                if event_count == 0 {
                    PeriodPlan::Process
                } else {
                    PeriodPlan::DeliverThenProcess
                }
            },
            Err(_) => PeriodPlan::Silence,
        }
    }
}

/// Opens the plugin's editor at most once, and only while the plugin
/// instance is initialized or active, never during load or teardown.
pub struct EditorGate {
    opened: bool,
}

impl EditorGate {
    pub closed spec fn spec_opened(&self) -> bool {
        self.opened
    }

    pub fn new() -> (r: EditorGate)
        ensures
            !r.spec_opened(),
    {
        EditorGate { opened: false }
    }

    pub fn is_open(&self) -> (r: bool)
        ensures
            r == self.spec_opened(),
    {
        self.opened
    }

    /// Whether the editor is to be opened now with the window handle at
    /// hand; once it says yes it never says yes again.
    pub fn try_open(&mut self, session: &PluginSession) -> (r: bool)
        ensures
            r == (!old(self).spec_opened() && (session.spec_state() == SessionState::Initialized
                || session.spec_state() == SessionState::Active)),
            final(self).spec_opened() == (old(self).spec_opened() || r),
    {
        if self.opened {
            return false;
        }
        let s = session.state();
        let ok = match s {
            SessionState::Initialized => true,
            SessionState::Active => true,
            _ => false,
        };
        if ok {
            self.opened = true;
        }
        ok
    }
}

} // verus!
