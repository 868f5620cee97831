use driverkit::error::SessionError;
use driverkit::request::{classify, Request};
use driverkit::session::{check_registration, register_call, RegisterCall, Session, SessionState};
use driverkit::DKEvent;

/// A stand-in for the driver: a queue of events and a wait that is cut short once
/// the devices are released.
struct FakeDriver {
    activated: bool,
    grab_status: i32,
    released: bool,
    queue: Vec<DKEvent>,
}

impl FakeDriver {
    fn register(&mut self, call: &RegisterCall) -> bool {
        self.activated && !matches!(call, RegisterCall::ByName(n) if n.is_empty())
    }

    fn release(&mut self) {
        self.released = true;
    }

    fn wait_key(&mut self) -> (i32, DKEvent) {
        if self.released || self.queue.is_empty() {
            (1, DKEvent { value: 0, page: 0, code: 0 })
        } else {
            (0, self.queue.remove(0))
        }
    }
}

fn grabbed_session() -> Session {
    let mut s = Session::new();
    assert_eq!(s.note_activation(true), Ok(()));
    assert_eq!(s.finish_register(true), Ok(()));
    assert_eq!(s.finish_grab(0), Ok(()));
    s
}

#[test]
fn new_session_is_idle() {
    assert_eq!(Session::new().state(), SessionState::Idle);
}

#[test]
fn lifecycle_states() {
    let mut s = Session::new();
    assert_eq!(s.note_activation(true), Ok(()));
    assert_eq!(s.state(), SessionState::Activated);
    assert_eq!(s.finish_register(true), Ok(()));
    assert_eq!(s.state(), SessionState::Registered);
    assert_eq!(s.finish_register(true), Ok(()));
    assert_eq!(s.state(), SessionState::Registered);
    assert_eq!(s.finish_grab(0), Ok(()));
    assert_eq!(s.state(), SessionState::Grabbed);
    s.release();
    assert_eq!(s.state(), SessionState::Idle);
}

#[test]
fn release_twice_from_idle_is_noop() {
    let mut s = Session::new();
    s.release();
    assert_eq!(s.state(), SessionState::Idle);
    s.release();
    assert_eq!(s.state(), SessionState::Idle);
}

#[test]
fn release_from_any_state_is_idle() {
    let mut a = Session::new();
    a.note_activation(true).unwrap();
    a.release();
    assert_eq!(a.state(), SessionState::Idle);

    let mut r = Session::new();
    r.finish_register(true).unwrap();
    r.release();
    assert_eq!(r.state(), SessionState::Idle);

    let mut g = grabbed_session();
    g.release();
    assert_eq!(g.state(), SessionState::Idle);
    g.release();
    assert_eq!(g.state(), SessionState::Idle);
}

#[test]
fn failed_grab_keeps_state() {
    let mut s = Session::new();
    s.finish_register(true).unwrap();
    assert_eq!(s.finish_grab(-1), Err(SessionError::GrabbingFailed));
    assert_eq!(s.state(), SessionState::Registered);
    assert_eq!(s.finish_grab(0), Ok(()));
    assert_eq!(s.state(), SessionState::Grabbed);
}

#[test]
fn inactive_driver() {
    let mut s = Session::new();
    assert_eq!(s.note_activation(false), Err(SessionError::DriverInactive));
    assert_eq!(s.state(), SessionState::Idle);
}

#[test]
fn register_fails_when_driver_inactive() {
    let mut driver = FakeDriver { activated: false, grab_status: 0, released: false, queue: vec![] };
    let mut s = Session::new();
    let request = classify("My Kb").unwrap();
    // Checked here ...
    assert_eq!(check_registration(&request, driver.activated, true), Err(SessionError::DriverInactive));
    // ... or left to the driver, whose refusal is forwarded.
    let call = register_call("My Kb").unwrap();
    assert!(matches!(&call, RegisterCall::ByName(n) if n == "My Kb"));
    let accepted = driver.register(&call);
    assert_eq!(s.finish_register(accepted), Err(SessionError::DriverCallFailed));
    assert_eq!(s.state(), SessionState::Idle);
}

#[test]
fn registration_check_outcomes() {
    let name = Request::Name("Foo".to_string());
    assert_eq!(check_registration(&name, true, false), Err(SessionError::DeviceMismatch));
    assert_eq!(check_registration(&name, true, true), Ok(()));
    assert_eq!(check_registration(&Request::Fingerprint(5), true, false), Err(SessionError::DeviceMismatch));
    assert_eq!(check_registration(&Request::Wildcard, true, false), Ok(()));
    assert_eq!(check_registration(&Request::Wildcard, false, true), Err(SessionError::DriverInactive));
}

#[test]
fn register_call_per_class() {
    assert!(matches!(register_call(""), Ok(RegisterCall::All)));
    assert!(matches!(register_call("0x1A2B"), Ok(RegisterCall::ByFingerprint(0x1A2B))));
    assert!(matches!(register_call("Foo"), Ok(RegisterCall::ByName(ref n)) if n == "Foo"));
    assert!(matches!(register_call("0xQ"), Err(SessionError::MalformedFingerprintRequest)));
}

#[test]
fn register_call_refuses_nul_in_name() {
    assert!(matches!(register_call("My\0Kb"), Err(SessionError::NameContainsNul)));
    assert!(matches!(register_call("\0"), Err(SessionError::NameContainsNul)));
}

#[test]
fn wildcard_takes_register_all_path() {
    let mut driver = FakeDriver { activated: true, grab_status: 0, released: false, queue: vec![] };
    let call = register_call("").unwrap();
    assert!(matches!(call, RegisterCall::All));
    let mut s = Session::new();
    assert_eq!(s.finish_register(driver.register(&call)), Ok(()));
    assert_eq!(s.state(), SessionState::Registered);
}

#[test]
fn events_relayed_unchanged() {
    let e = DKEvent { value: 1, page: 7, code: 4 };
    let mut driver = FakeDriver { activated: true, grab_status: 0, released: false, queue: vec![e] };
    let mut s = Session::new();
    s.finish_register(true).unwrap();
    s.finish_grab(driver.grab_status).unwrap();
    assert_eq!(s.begin_read(), Ok(()));
    let (status, raw) = driver.wait_key();
    assert_eq!(s.relay_event(status, &raw), Ok(DKEvent { value: 1, page: 7, code: 4 }));
}

#[test]
fn failed_wait_is_driver_error() {
    let s = grabbed_session();
    let raw = DKEvent { value: 1, page: 7, code: 4 };
    assert_eq!(s.relay_event(1, &raw), Err(SessionError::DriverCallFailed));
}

#[test]
fn read_requires_grab() {
    let s = Session::new();
    assert_eq!(s.begin_read(), Err(SessionError::NotGrabbed));
    let raw = DKEvent { value: 1, page: 7, code: 4 };
    assert_eq!(s.relay_event(0, &raw), Err(SessionError::NotGrabbed));
}

#[test]
fn release_interrupts_pending_read() {
    let e = DKEvent { value: 1, page: 7, code: 4 };
    let mut driver = FakeDriver { activated: true, grab_status: 0, released: false, queue: vec![e] };
    let mut s = grabbed_session();
    assert_eq!(s.begin_read(), Ok(()));
    // The release arrives while the wait is outstanding.
    s.release();
    driver.release();
    let (status, raw) = driver.wait_key();
    assert_eq!(status, 1);
    assert_eq!(s.relay_event(status, &raw), Err(SessionError::NotGrabbed));
    // Even an event that slipped through is not delivered after the release.
    assert_eq!(s.relay_event(0, &e), Err(SessionError::NotGrabbed));
    assert_eq!(s.state(), SessionState::Idle);
}

#[test]
fn keycode_combines_page_and_code() {
    assert_eq!(DKEvent { value: 0, page: 7, code: 4 }.keycode(), 0x0704);
    assert_eq!(DKEvent { value: 0, page: 0xFF01, code: 0x20 }.keycode(), 0x0120);
    assert_eq!(DKEvent { value: 0, page: 0, code: 0xFFFF_FFFF }.keycode(), 0xFFFF);
}
