use power_events::event::PowerState;
use power_events::monitor::{
    EndpointError, ListenAction, PowerMonitor, RegistrationError, RegistrationPhase,
    RegistrationStep,
};
use power_events::translate::{translate, PBT_APMRESUMEAUTOMATIC, PBT_APMSUSPEND, WM_POWERBROADCAST};

/// A registration facility that answers each step as scripted and records
/// the calls made to it.
struct FakeFacility {
    suspend_resume_ok: bool,
    session_change_ok: bool,
    calls: Vec<(RegistrationStep, isize)>,
}

impl FakeFacility {
    fn new(suspend_resume_ok: bool, session_change_ok: bool) -> Self {
        FakeFacility { suspend_resume_ok, session_change_ok, calls: Vec::new() }
    }

    fn register(&mut self, step: RegistrationStep, endpoint: isize) -> bool {
        self.calls.push((step, endpoint));
        match step {
            RegistrationStep::SuspendResume => self.suspend_resume_ok,
            RegistrationStep::SessionChange => self.session_change_ok,
        }
    }
}

fn listen(monitor: &mut PowerMonitor, facility: &mut FakeFacility) -> Result<(), RegistrationError> {
    let mut action = monitor.start_listening();
    loop {
        match action {
            ListenAction::Register { step, endpoint } => {
                let ok = facility.register(step, endpoint);
                action = monitor.registration_result(ok);
            }
            ListenAction::Finished(outcome) => return outcome,
        }
    }
}

#[test]
fn new_with_live_endpoint_is_created() {
    let m = PowerMonitor::new(0x1234, true).unwrap();
    assert_eq!(m.endpoint(), 0x1234);
    assert_eq!(m.phase(), RegistrationPhase::Created);
    assert!(!m.is_registered_for_suspend_resume());
    assert!(!m.is_registered_for_session_change());
}

#[test]
fn new_fails_when_endpoint_creation_fails() {
    assert_eq!(PowerMonitor::new(0, false).err(), Some(EndpointError::CreationFailed));
    assert_eq!(PowerMonitor::new(0, true).err(), Some(EndpointError::CreationFailed));
    assert_eq!(PowerMonitor::new(0x1234, false).err(), Some(EndpointError::CreationFailed));
}

#[test]
fn start_listening_registers_both() {
    let mut m = PowerMonitor::new(77, true).unwrap();
    let mut f = FakeFacility::new(true, true);
    assert_eq!(listen(&mut m, &mut f), Ok(()));
    assert_eq!(f.calls, vec![(RegistrationStep::SuspendResume, 77), (RegistrationStep::SessionChange, 77)]);
    assert_eq!(m.phase(), RegistrationPhase::FullyRegistered);
    assert!(m.is_registered_for_suspend_resume());
    assert!(m.is_registered_for_session_change());
}

#[test]
fn suspend_resume_failure_skips_session_change() {
    let mut m = PowerMonitor::new(77, true).unwrap();
    let mut f = FakeFacility::new(false, true);
    assert_eq!(listen(&mut m, &mut f), Err(RegistrationError::SuspendResumeFailed));
    assert_eq!(f.calls, vec![(RegistrationStep::SuspendResume, 77)]);
    assert_eq!(m.phase(), RegistrationPhase::Unregistered);
    assert!(!m.is_registered_for_suspend_resume());
    assert!(!m.is_registered_for_session_change());
}

#[test]
fn session_change_failure_keeps_suspend_resume() {
    let mut m = PowerMonitor::new(77, true).unwrap();
    let mut f = FakeFacility::new(true, false);
    assert_eq!(listen(&mut m, &mut f), Err(RegistrationError::SessionChangeFailed));
    assert_eq!(f.calls, vec![(RegistrationStep::SuspendResume, 77), (RegistrationStep::SessionChange, 77)]);
    assert_eq!(m.phase(), RegistrationPhase::PartiallyRegistered);
    assert!(m.is_registered_for_suspend_resume());
    assert!(!m.is_registered_for_session_change());
    assert_eq!(translate(WM_POWERBROADCAST, PBT_APMSUSPEND), Some(PowerState::Suspend));
    assert_eq!(translate(WM_POWERBROADCAST, PBT_APMRESUMEAUTOMATIC), Some(PowerState::Resume));
}

#[test]
fn start_listening_asks_for_suspend_resume_first() {
    let mut m = PowerMonitor::new(-5, true).unwrap();
    assert_eq!(
        m.start_listening(),
        ListenAction::Register { step: RegistrationStep::SuspendResume, endpoint: -5 }
    );
    assert_eq!(m.phase(), RegistrationPhase::AwaitingSuspendResume);
    assert_eq!(
        m.registration_result(true),
        ListenAction::Register { step: RegistrationStep::SessionChange, endpoint: -5 }
    );
    assert_eq!(m.phase(), RegistrationPhase::AwaitingSessionChange);
    assert!(m.is_registered_for_suspend_resume());
}
