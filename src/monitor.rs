use vstd::prelude::*;

use crate::event::PowerState;
use crate::translate::{
    translation, PBT_APMRESUMEAUTOMATIC, PBT_APMSUSPEND, WM_POWERBROADCAST,
};

verus! {

/// Failure to create the notification endpoint.
#[derive(Clone, Copy, Debug, PartialEq, Eq)]
pub enum EndpointError {
    /// No usable endpoint handle was produced, or it failed its liveness check.
    CreationFailed,
}

/// Failure of one of the two registration steps.
#[derive(Clone, Copy, Debug, PartialEq, Eq)]
pub enum RegistrationError {
    /// Registration for suspend/resume notifications failed.
    SuspendResumeFailed,
    /// Registration for session-change notifications failed; suspend/resume
    /// registration stays active.
    SessionChangeFailed,
}

/// One of the two OS registration calls.
#[derive(Clone, Copy, Debug, PartialEq, Eq)]
pub enum RegistrationStep {
    /// Register the endpoint for suspend/resume notifications.
    SuspendResume,
    /// Register the endpoint for session-change notifications of the current
    /// session.
    SessionChange,
}

/// Where a monitor stands in its registration lifecycle.
#[derive(Clone, Copy, Debug, PartialEq, Eq, Structural)]
pub enum RegistrationPhase {
    /// Endpoint created, nothing registered yet.
    Created,
    /// The suspend/resume registration call has been requested.
    AwaitingSuspendResume,
    /// Suspend/resume is registered; the session-change call has been requested.
    AwaitingSessionChange,
    /// Both registrations succeeded.
    FullyRegistered,
    /// Suspend/resume is registered, session-change registration failed.
    PartiallyRegistered,
    /// Suspend/resume registration failed; nothing is registered.
    Unregistered,
}

/// What the caller must do next while the monitor starts listening.
#[derive(Clone, Copy, Debug, PartialEq, Eq)]
pub enum ListenAction {
    /// Make this registration call for the endpoint, then report whether it
    /// succeeded.
    Register { step: RegistrationStep, endpoint: isize },
    /// Listening has been set up as far as it goes; this is its outcome.
    Finished(Result<(), RegistrationError>),
}

/// The abstract state of a monitor.
pub struct MonitorState {
    pub endpoint: isize,
    pub phase: RegistrationPhase,
    pub suspend_resume_registered: bool,
    pub session_change_registered: bool,
}

/// Owner of the notification endpoint and of its two registrations.
pub struct PowerMonitor {
    endpoint: isize,
    phase: RegistrationPhase,
    suspend_resume_registered: bool,
    session_change_registered: bool,
}

impl View for PowerMonitor {
    type V = MonitorState;

    closed spec fn view(&self) -> MonitorState {
        MonitorState {
            endpoint: self.endpoint,
            phase: self.phase,
            suspend_resume_registered: self.suspend_resume_registered,
            session_change_registered: self.session_change_registered,
        }
    }
}

/// A phase in which a registration call is outstanding.
pub open spec fn awaiting(p: RegistrationPhase) -> bool {
    p == RegistrationPhase::AwaitingSuspendResume || p == RegistrationPhase::AwaitingSessionChange
}

impl MonitorState {
    /// The endpoint is a live handle, and each registration fact holds exactly
    /// in the phases that follow its successful call.
    pub open spec fn wf(self) -> bool {
        &&& self.endpoint != 0
        &&& self.suspend_resume_registered == (self.phase == RegistrationPhase::AwaitingSessionChange
            || self.phase == RegistrationPhase::FullyRegistered || self.phase
            == RegistrationPhase::PartiallyRegistered)
        &&& self.session_change_registered == (self.phase == RegistrationPhase::FullyRegistered)
    }

    /// A freshly created monitor for `endpoint`.
    pub open spec fn created(endpoint: isize) -> MonitorState {
        MonitorState {
            endpoint,
            phase: RegistrationPhase::Created,
            suspend_resume_registered: false,
            session_change_registered: false,
        }
    }

    /// Starting to listen: the suspend/resume call comes first.
    pub open spec fn on_start(self) -> (MonitorState, ListenAction) {
        (
            MonitorState { phase: RegistrationPhase::AwaitingSuspendResume, ..self },
            ListenAction::Register { step: RegistrationStep::SuspendResume, endpoint: self.endpoint },
        )
    }

    /// The outcome of the outstanding registration call. The session-change
    /// call is asked for only after the suspend/resume call succeeded.
    pub open spec fn on_result(self, succeeded: bool) -> (MonitorState, ListenAction) {
        if self.phase == RegistrationPhase::AwaitingSuspendResume {
            if succeeded {
                (
                    MonitorState {
                        phase: RegistrationPhase::AwaitingSessionChange,
                        suspend_resume_registered: true,
                        ..self
                    },
                    ListenAction::Register {
                        step: RegistrationStep::SessionChange,
                        endpoint: self.endpoint,
                    },
                )
            } else {
                (
                    MonitorState { phase: RegistrationPhase::Unregistered, ..self },
                    ListenAction::Finished(Err(RegistrationError::SuspendResumeFailed)),
                )
            }
        } else if succeeded {
            (
                MonitorState {
                    phase: RegistrationPhase::FullyRegistered,
                    session_change_registered: true,
                    ..self
                },
                ListenAction::Finished(Ok(())),
            )
        } else {
            (
                MonitorState { phase: RegistrationPhase::PartiallyRegistered, ..self },
                ListenAction::Finished(Err(RegistrationError::SessionChangeFailed)),
            )
        }
    }
}

impl PowerMonitor {
    /// Takes ownership of a newly created endpoint. `endpoint` is the handle
    /// that endpoint creation produced (0 when it produced none) and `live`
    /// the outcome of its liveness check.
    pub fn new(endpoint: isize, live: bool) -> (r: Result<PowerMonitor, EndpointError>)
        ensures
            r is Ok <==> (endpoint != 0 && live),
            r matches Ok(m) ==> m@ == MonitorState::created(endpoint) && m@.wf(),
            r matches Err(e) ==> e == EndpointError::CreationFailed,
    {
        if endpoint == 0 || !live {
            Err(EndpointError::CreationFailed)
        } else {
            Ok(
                PowerMonitor {
                    endpoint,
                    phase: RegistrationPhase::Created,
                    suspend_resume_registered: false,
                    session_change_registered: false,
                },
            )
        }
    }

    /// Begins listening: asks for the suspend/resume registration of the
    /// endpoint. Each `Register` action is answered by `registration_result`.
    pub fn start_listening(&mut self) -> (r: ListenAction)
        requires
            old(self)@.wf(),
            old(self)@.phase == RegistrationPhase::Created,
        ensures
            (final(self)@, r) == old(self)@.on_start(),
            final(self)@.wf(),
    {
        self.phase = RegistrationPhase::AwaitingSuspendResume;
        ListenAction::Register { step: RegistrationStep::SuspendResume, endpoint: self.endpoint }
    }

    /// Takes the outcome of the registration call last asked for and says
    /// what comes next.
    pub fn registration_result(&mut self, succeeded: bool) -> (r: ListenAction)
        requires
            old(self)@.wf(),
            awaiting(old(self)@.phase),
        ensures
            (final(self)@, r) == old(self)@.on_result(succeeded),
            final(self)@.wf(),
    {
        if self.phase == RegistrationPhase::AwaitingSuspendResume {
            if succeeded {
                self.phase = RegistrationPhase::AwaitingSessionChange;
                self.suspend_resume_registered = true;
                ListenAction::Register { step: RegistrationStep::SessionChange, endpoint: self.endpoint }
            } else {
                self.phase = RegistrationPhase::Unregistered;
                ListenAction::Finished(Err(RegistrationError::SuspendResumeFailed))
            }
        } else if succeeded {
            self.phase = RegistrationPhase::FullyRegistered;
            self.session_change_registered = true;
            ListenAction::Finished(Ok(()))
        } else {
            self.phase = RegistrationPhase::PartiallyRegistered;
            ListenAction::Finished(Err(RegistrationError::SessionChangeFailed))
        }
    }

    /// The endpoint handle this monitor owns.
    pub fn endpoint(&self) -> (r: isize)
        ensures
            r == self@.endpoint,
    {
        self.endpoint
    }

    /// The monitor's registration phase.
    pub fn phase(&self) -> (r: RegistrationPhase)
        ensures
            r == self@.phase,
    {
        self.phase
    }

    /// Whether the suspend/resume registration succeeded.
    pub fn is_registered_for_suspend_resume(&self) -> (r: bool)
        ensures
            r == self@.suspend_resume_registered,
    {
        self.suspend_resume_registered
    }

    /// Whether the session-change registration succeeded.
    pub fn is_registered_for_session_change(&self) -> (r: bool)
        ensures
            r == self@.session_change_registered,
    {
        self.session_change_registered
    }
}

/// The session-change registration is asked for only as the answer to a
/// successful suspend/resume registration: after a failed first step the
/// second is never requested.
pub proof fn lemma_session_change_only_after_suspend_resume(s: MonitorState, succeeded: bool)
    requires
        s.wf(),
        awaiting(s.phase),
        s.on_result(succeeded).1 matches ListenAction::Register { step, .. } && step
            == RegistrationStep::SessionChange,
    ensures
        s.phase == RegistrationPhase::AwaitingSuspendResume,
        succeeded,
{
}

/// Starting a created monitor whose suspend/resume registration fails ends
/// in `SuspendResumeFailed`, with nothing registered and no further call
/// outstanding.
pub proof fn lemma_suspend_resume_failure_stops(s: MonitorState)
    requires
        s.wf(),
        s.phase == RegistrationPhase::Created,
    ensures
        s.on_start().1 == (ListenAction::Register {
            step: RegistrationStep::SuspendResume,
            endpoint: s.endpoint,
        }),
        s.on_start().0.on_result(false).1 == ListenAction::Finished(
            Err(RegistrationError::SuspendResumeFailed),
        ),
        s.on_start().0.on_result(false).0.phase == RegistrationPhase::Unregistered,
        !awaiting(s.on_start().0.on_result(false).0.phase),
        !s.on_start().0.on_result(false).0.suspend_resume_registered,
        !s.on_start().0.on_result(false).0.session_change_registered,
{
}

/// Starting a created monitor whose suspend/resume registration succeeds and
/// whose session-change registration fails ends in `SessionChangeFailed`,
/// with suspend/resume still registered; power broadcasts go on translating
/// as before, since translation does not depend on the registration state.
pub proof fn lemma_session_change_failure_keeps_suspend_resume(s: MonitorState)
    requires
        s.wf(),
        s.phase == RegistrationPhase::Created,
    ensures
        s.on_start().0.on_result(true).1 == (ListenAction::Register {
            step: RegistrationStep::SessionChange,
            endpoint: s.endpoint,
        }),
        s.on_start().0.on_result(true).0.on_result(false).1 == ListenAction::Finished(
            Err(RegistrationError::SessionChangeFailed),
        ),
        s.on_start().0.on_result(true).0.on_result(false).0.phase
            == RegistrationPhase::PartiallyRegistered,
        s.on_start().0.on_result(true).0.on_result(false).0.suspend_resume_registered,
        !s.on_start().0.on_result(true).0.on_result(false).0.session_change_registered,
        translation(WM_POWERBROADCAST, PBT_APMSUSPEND) == Some(PowerState::Suspend),
        translation(WM_POWERBROADCAST, PBT_APMRESUMEAUTOMATIC) == Some(PowerState::Resume),
{
}

/// Both registrations succeeding leaves the monitor fully registered with a
/// successful outcome.
pub proof fn lemma_both_registrations_succeed(s: MonitorState)
    requires
        s.wf(),
        s.phase == RegistrationPhase::Created,
    ensures
        s.on_start().0.on_result(true).0.on_result(true).1 == ListenAction::Finished(Ok(())),
        s.on_start().0.on_result(true).0.on_result(true).0.phase
            == RegistrationPhase::FullyRegistered,
        s.on_start().0.on_result(true).0.on_result(true).0.suspend_resume_registered,
        s.on_start().0.on_result(true).0.on_result(true).0.session_change_registered,
{
}

} // verus!
