//! The session lifecycle: activation, registration, grab, event relay and release.
//!
//! The driver itself is reached by the caller. Each operation here is a step that
//! says which driver call to make, or takes what the driver answered and moves the
//! session to its next state.
use vstd::prelude::*;
use crate::device::{presence_check_of, DeviceData, PresenceCheckView};
use crate::error::SessionError;
use crate::interface::DKEvent;
use crate::request::{classify, classify_spec, contains_nul, driver_accepts, Request, RequestView};

verus! {

/// Where a session stands.
#[derive(Clone, Copy, Debug, PartialEq, Eq, Structural)]
pub enum SessionState {
    Idle,
    Activated,
    Registered,
    Grabbed,
}

/// The registration call to make on the driver for a request.
#[derive(Debug)]
pub enum RegisterCall {
    /// Register every device (the driver is given no name).
    All,
    /// Register the devices with this product name.
    ByName(String),
    /// Register the device with this fingerprint.
    ByFingerprint(u64),
}

/// The mathematical model of a [`RegisterCall`].
pub enum RegisterCallView {
    All,
    ByName(Seq<char>),
    ByFingerprint(u64),
}

impl View for RegisterCall {
    type V = RegisterCallView;

    open spec fn view(&self) -> RegisterCallView {
        match self {
            RegisterCall::All => RegisterCallView::All,
            RegisterCall::ByName(n) => RegisterCallView::ByName(n@),
            RegisterCall::ByFingerprint(h) => RegisterCallView::ByFingerprint(*h),
        }
    }
}

/// The registration call that serves a classified request.
pub open spec fn register_call_of(q: RequestView) -> RegisterCallView {
    match q {
        RequestView::Wildcard => RegisterCallView::All,
        RequestView::Fingerprint(h) => RegisterCallView::ByFingerprint(h),
        RequestView::Name(n) => RegisterCallView::ByName(n),
    }
}

/// The registration call to make for a request string: the wildcard registers all
/// devices, a fingerprint goes to the hash-based call, a name to the name-based one.
/// A name holding a NUL character is refused before it reaches the driver.
pub fn register_call(request: &str) -> (r: Result<RegisterCall, SessionError>)
    ensures
        match classify_spec(request@) {
            Some(q) => if driver_accepts(q) {
                r matches Ok(c) && c@ == register_call_of(q)
            } else {
                r == Err::<RegisterCall, SessionError>(SessionError::NameContainsNul)
            },
            None => r == Err::<RegisterCall, SessionError>(SessionError::MalformedFingerprintRequest),
        },
{
    match classify(request) {
        Ok(Request::Wildcard) => Ok(RegisterCall::All),
        Ok(Request::Fingerprint(h)) => Ok(RegisterCall::ByFingerprint(h)),
        Ok(Request::Name(n)) => {
            if contains_nul(n.as_str()) {
                Err(SessionError::NameContainsNul)
            } else {
                Ok(RegisterCall::ByName(n))
            }
        },
        Err(e) => Err(e),
    }
}

/// The outcome of checking registration's preconditions locally.
pub open spec fn registration_check_spec(q: RequestView, activated: bool, present: bool) -> Result<
    (),
    SessionError,
> {
    if !activated {
        Err(SessionError::DriverInactive)
    } else if !(q is Wildcard) && !present {
        Err(SessionError::DeviceMismatch)
    } else {
        Ok(())
    }
}

/// Checks registration's preconditions from the driver's activation flag and whether
/// the requested device is present. The wildcard needs no device.
pub fn check_registration(request: &Request, activated: bool, present: bool) -> (r: Result<
    (),
    SessionError,
>)
    ensures
        r == registration_check_spec(request@, activated, present),
{
    if !activated {
        Err(SessionError::DriverInactive)
    } else if !present && !(matches!(request, Request::Wildcard)) {
        Err(SessionError::DeviceMismatch)
    } else {
        Ok(())
    }
}

/// The state after the driver reported its activation flag.
pub open spec fn after_activation(s: SessionState, activated: bool) -> SessionState {
    if s == SessionState::Idle && activated {
        SessionState::Activated
    } else {
        s
    }
}

/// The state after the driver answered a registration call.
pub open spec fn after_register(s: SessionState, accepted: bool) -> SessionState {
    if accepted && s != SessionState::Grabbed {
        SessionState::Registered
    } else {
        s
    }
}

/// The state after the driver answered a grab call with `status` (0 is success).
pub open spec fn after_grab(s: SessionState, status: i32) -> SessionState {
    if status == 0 {
        SessionState::Grabbed
    } else {
        s
    }
}

/// The state after a release: always idle.
pub open spec fn after_release(s: SessionState) -> SessionState {
    SessionState::Idle
}

/// What a finished event wait yields: the event itself, unchanged, when the session
/// still holds its grab and the wait reported success (status 0).
pub open spec fn relay_spec(s: SessionState, status: i32, raw: DKEvent) -> Result<DKEvent, SessionError> {
    if s != SessionState::Grabbed {
        Err(SessionError::NotGrabbed)
    } else if status != 0 {
        Err(SessionError::DriverCallFailed)
    } else {
        Ok(raw)
    }
}

/// Releasing is idempotent: a second release in a row leaves the state as the first
/// left it, and a release from idle changes nothing.
pub proof fn lemma_release_twice(s: SessionState)
    ensures
        after_release(after_release(s)) == after_release(s),
        s == SessionState::Idle ==> after_release(s) == s,
{
}

/// After a successful grab the session is grabbed; after a release it is idle,
/// whatever it was before.
pub proof fn lemma_grab_release_states(s: SessionState, status: i32)
    ensures
        status == 0 ==> after_grab(s, status) == SessionState::Grabbed,
        after_release(s) == SessionState::Idle,
{
}

/// Once the session is released, an event wait still in flight yields no event, and
/// no new wait may start, whatever the driver reports.
pub proof fn lemma_release_ends_reads(s: SessionState, status: i32, raw: DKEvent)
    ensures
        relay_spec(after_release(s), status, raw) == Err::<DKEvent, SessionError>(
            SessionError::NotGrabbed,
        ),
        after_release(s) != SessionState::Grabbed,
{
}

/// The empty request is the wildcard: every device matches it, it needs no device to
/// be present and no driver call to check presence, and it registers all devices.
pub proof fn lemma_wildcard_request(d: DeviceData, activated: bool, present: bool)
    ensures
        classify_spec(Seq::<char>::empty()) == Some(RequestView::Wildcard),
        d.matches_spec(RequestView::Wildcard),
        registration_check_spec(RequestView::Wildcard, activated, present) == (if activated {
            Ok::<(), SessionError>(())
        } else {
            Err(SessionError::DriverInactive)
        }),
        presence_check_of(RequestView::Wildcard) == PresenceCheckView::Present,
        register_call_of(RequestView::Wildcard) == RegisterCallView::All,
{
}

/// A session against the driver. Only one should be live against the real driver
/// at a time.
pub struct Session {
    state: SessionState,
}

impl View for Session {
    type V = SessionState;

    closed spec fn view(&self) -> SessionState {
        self.state
    }
}

impl Session {
    /// A new, idle session.
    pub fn new() -> (r: Session)
        ensures
            r@ == SessionState::Idle,
    {
        Session { state: SessionState::Idle }
    }

    /// Where the session stands.
    pub fn state(&self) -> (r: SessionState)
        ensures
            r == self@,
    {
        self.state
    }

    /// Takes the driver's activation flag; an idle session becomes activated.
    pub fn note_activation(&mut self, activated: bool) -> (r: Result<(), SessionError>)
        ensures
            final(self)@ == after_activation(old(self)@, activated),
            r == (if activated {
                Ok::<(), SessionError>(())
            } else {
                Err(SessionError::DriverInactive)
            }),
    {
        if activated {
            if self.state == SessionState::Idle {
                self.state = SessionState::Activated;
            }
            Ok(())
        } else {
            Err(SessionError::DriverInactive)
        }
    }

    /// Takes the driver's answer to a registration call. Registrations add up; a
    /// refusal leaves the state as it was.
    pub fn finish_register(&mut self, accepted: bool) -> (r: Result<(), SessionError>)
        ensures
            final(self)@ == after_register(old(self)@, accepted),
            r == (if accepted {
                Ok::<(), SessionError>(())
            } else {
                Err(SessionError::DriverCallFailed)
            }),
    {
        if accepted {
            if self.state != SessionState::Grabbed {
                self.state = SessionState::Registered;
            }
            Ok(())
        } else {
            Err(SessionError::DriverCallFailed)
        }
    }

    /// Takes the driver's status for a grab call: 0 grabs, anything else is a refusal
    /// that leaves the state as it was.
    pub fn finish_grab(&mut self, status: i32) -> (r: Result<(), SessionError>)
        ensures
            final(self)@ == after_grab(old(self)@, status),
            r == (if status == 0 {
                Ok::<(), SessionError>(())
            } else {
                Err(SessionError::GrabbingFailed)
            }),
    {
        if status == 0 {
            self.state = SessionState::Grabbed;
            Ok(())
        } else {
            Err(SessionError::GrabbingFailed)
        }
    }

    /// Releases the session, which is idle afterwards whatever it was before. The
    /// driver's release call is made from every state, idle included.
    pub fn release(&mut self)
        ensures
            final(self)@ == after_release(old(self)@),
    {
        self.state = SessionState::Idle;
    }

    /// Whether an event wait may start: only while the session holds its grab.
    pub fn begin_read(&self) -> (r: Result<(), SessionError>)
        ensures
            r == (if self@ == SessionState::Grabbed {
                Ok::<(), SessionError>(())
            } else {
                Err(SessionError::NotGrabbed)
            }),
    {
        if self.state == SessionState::Grabbed {
            Ok(())
        } else {
            Err(SessionError::NotGrabbed)
        }
    }

    /// Takes the status and record of a finished event wait and yields the event,
    /// copied without change, or why there is none.
    pub fn relay_event(&self, status: i32, raw: &DKEvent) -> (r: Result<DKEvent, SessionError>)
        ensures
            r == relay_spec(self@, status, *raw),
    {
        if self.state != SessionState::Grabbed {
            Err(SessionError::NotGrabbed)
        } else if status != 0 {
            Err(SessionError::DriverCallFailed)
        } else {
            Ok(*raw)
        }
    }
}

} // verus!
