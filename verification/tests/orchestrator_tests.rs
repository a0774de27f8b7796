use std::cell::{Cell, RefCell};
use std::collections::VecDeque;
use std::rc::Rc;

use lynx_embedded::error::{AuthError, ERR_SERVICE_FAILED};
use lynx_embedded::hal::{AuthService, BusTransport, CountdownTimer, HwFault};
use lynx_embedded::hexkey::SECRET_KEY_SIZE;
use lynx_embedded::pn532::Pn532;
use lynx_embedded::ykhmac::{classify, classify_detection_failure, AuthOutcome, Detection, Orchestrator, PN532_BUF_SIZE, SLOT_2};

/// A transport that replays scripted read chunks.  With
/// `quiet_when_exhausted` set it stops signalling ready once every
/// scripted chunk was consumed, like a controller with nothing to say.
struct ScriptedBus {
    ready: bool,
    quiet_when_exhausted: bool,
    reads: VecDeque<Vec<u8>>,
    writes: Rc<RefCell<Vec<Vec<u8>>>>,
}

impl ScriptedBus {
    fn new(reads: Vec<Vec<u8>>) -> Self {
        ScriptedBus {
            ready: true,
            quiet_when_exhausted: false,
            reads: reads.into(),
            writes: Rc::new(RefCell::new(Vec::new())),
        }
    }
}

impl BusTransport for ScriptedBus {
    fn write(&mut self, frame: &[u8]) -> Result<(), HwFault> {
        self.writes.borrow_mut().push(frame.to_vec());
        Ok(())
    }

    fn wait_ready(&mut self) -> Result<bool, HwFault> {
        if self.quiet_when_exhausted && self.reads.is_empty() {
            return Ok(false);
        }
        Ok(self.ready)
    }

    fn read(&mut self, buf: &mut Vec<u8>) -> Result<(), HwFault> {
        let chunk = self.reads.pop_front().unwrap_or_default();
        for i in 0..buf.len() {
            buf[i] = if i < chunk.len() { chunk[i] } else { 0 };
        }
        Ok(())
    }
}

/// A timer that reports expiry after a fixed number of polls.
struct TickTimer {
    polls_until_expiry: u64,
    left: u64,
}

impl TickTimer {
    fn new(polls_until_expiry: u64) -> Self {
        TickTimer { polls_until_expiry, left: polls_until_expiry }
    }
}

impl CountdownTimer for TickTimer {
    fn start(&mut self, _duration_us: u64) {
        self.left = self.polls_until_expiry;
    }

    fn poll(&mut self) -> bool {
        if self.left == 0 {
            true
        } else {
            self.left -= 1;
            false
        }
    }
}

#[derive(Default)]
struct ServiceState {
    selected_aids: Vec<Vec<u8>>,
    authenticated_slots: Vec<u8>,
    enrolled: Option<[u8; SECRET_KEY_SIZE]>,
    enroll_calls: u32,
}

/// An external authentication service with scripted answers that records
/// every call.
struct MockService {
    select_ok: bool,
    auth_ok: bool,
    enroll_ok: bool,
    state: Rc<RefCell<ServiceState>>,
}

impl MockService {
    fn new(select_ok: bool, auth_ok: bool) -> (Self, Rc<RefCell<ServiceState>>) {
        let state = Rc::new(RefCell::new(ServiceState::default()));
        (MockService { select_ok, auth_ok, enroll_ok: true, state: state.clone() }, state)
    }
}

impl AuthService for MockService {
    fn select(&mut self, application_id: &[u8]) -> bool {
        self.state.borrow_mut().selected_aids.push(application_id.to_vec());
        self.select_ok
    }

    fn authenticate(&mut self, slot_id: u8) -> bool {
        self.state.borrow_mut().authenticated_slots.push(slot_id);
        self.auth_ok
    }

    fn enroll_key(&mut self, secret: &[u8; SECRET_KEY_SIZE]) -> bool {
        let mut s = self.state.borrow_mut();
        s.enroll_calls += 1;
        if self.enroll_ok {
            s.enrolled = Some(*secret);
        }
        self.enroll_ok
    }

    fn version(&self) -> u32 {
        0x0401
    }

    fn serial(&self) -> u32 {
        13371337
    }
}

/// A response frame around `payload` for response code `code`, zero
/// padded to `total` bytes as a full-length bus read would deliver it.
fn response_frame(code: u8, payload: &[u8], total: usize) -> Vec<u8> {
    let mut f = vec![0u8, 0, 0xFF];
    let len = (payload.len() + 2) as u8;
    f.push(len);
    f.push(len.wrapping_neg());
    f.push(0xD5);
    f.push(code);
    f.extend_from_slice(payload);
    let sum = 0xD5u32 + code as u32 + payload.iter().map(|&b| b as u32).sum::<u32>();
    f.push((sum as u8).wrapping_neg());
    f.push(0);
    while f.len() < total {
        f.push(0);
    }
    f
}

const ACK: [u8; 6] = [0x00, 0x00, 0xFF, 0x00, 0xFF, 0x00];

/// Reads that satisfy the whole startup sequence: firmware version, SAM
/// configuration, retry configuration.
fn startup_reads() -> Vec<Vec<u8>> {
    vec![
        ACK.to_vec(),
        response_frame(0x03, &[0x32, 0x01, 0x06, 0x07], 13),
        ACK.to_vec(),
        response_frame(0x15, &[], 9),
        ACK.to_vec(),
        response_frame(0x33, &[], 9),
    ]
}

/// Reads that satisfy one successful detection of a single target.
fn detection_reads() -> Vec<Vec<u8>> {
    vec![
        ACK.to_vec(),
        response_frame(0x4B, &[1, 1, 0x00, 0x04, 0x08, 4, 0xDE, 0xAD, 0xBE, 0xEF], PN532_BUF_SIZE),
    ]
}

fn driver_with(reads: Vec<Vec<u8>>) -> Pn532<ScriptedBus, TickTimer, PN532_BUF_SIZE> {
    Pn532::new(ScriptedBus::new(reads), TickTimer::new(10))
}

#[test]
fn failed_startup_leaves_the_subsystem_unusable() {
    // The controller never signals ready, so the firmware-version query
    // of the startup sequence times out and nothing is committed.
    let mut bus = ScriptedBus::new(vec![]);
    bus.ready = false;
    let driver = Pn532::new(bus, TickTimer::new(5));

    let (service, _state) = MockService::new(true, true);
    let mut orchestrator = Orchestrator::new(service);
    assert_eq!(orchestrator.initialize_pn532(driver), Err(AuthError::TimeoutResponse));

    assert_eq!(orchestrator.authenticate(), AuthOutcome::Error(AuthError::NotInitialized));
    assert_eq!(
        orchestrator.wait_for_yubikey(1_000_000),
        Detection::Error(AuthError::NotInitialized)
    );
    assert!(orchestrator.get_pn532().is_err());
}

#[test]
fn initialization_is_idempotent() {
    let (service, _state) = MockService::new(true, true);
    let mut orchestrator = Orchestrator::new(service);

    let bus = ScriptedBus::new(startup_reads());
    let writes = bus.writes.clone();
    let driver = Pn532::new(bus, TickTimer::new(10));
    assert_eq!(orchestrator.initialize_pn532(driver), Ok(()));
    // The startup sequence is exactly three commands, in order:
    // firmware-version query, SAM configuration, retry configuration.
    {
        let frames = writes.borrow();
        assert_eq!(frames.len(), 3);
        assert_eq!(frames[0][6], 0x02);
        assert_eq!(frames[1][6], 0x14);
        assert_eq!(&frames[1][7..10], &[0x01, 0x00, 0x00]);
        assert_eq!(frames[2][6], 0x32);
        assert_eq!(&frames[2][7..11], &[0x05, 0xFF, 0x01, 0xFF]);
    }

    // A second initialization is a no-op that succeeds: no further
    // command reaches the installed bus, and the fresh driver's bus is
    // never written to either.
    let second_bus = ScriptedBus::new(Vec::new());
    let second_writes = second_bus.writes.clone();
    let second = Pn532::new(second_bus, TickTimer::new(10));
    assert_eq!(orchestrator.initialize_pn532(second), Ok(()));
    assert_eq!(writes.borrow().len(), 3);
    assert_eq!(second_writes.borrow().len(), 0);
}

#[test]
fn granted_when_selection_and_challenge_succeed() {
    let (service, state) = MockService::new(true, true);
    let mut orchestrator = Orchestrator::new(service);
    let mut reads = startup_reads();
    reads.extend(detection_reads());
    assert_eq!(orchestrator.initialize_pn532(driver_with(reads)), Ok(()));

    assert_eq!(orchestrator.wait_for_yubikey(30_000_000), Detection::IsCredential);
    assert_eq!(orchestrator.authenticate(), AuthOutcome::AccessGranted);

    let s = state.borrow();
    assert_eq!(s.selected_aids[0], vec![0xA0, 0x00, 0x00, 0x05, 0x27, 0x20, 0x01]);
    assert_eq!(s.authenticated_slots, vec![SLOT_2]);
}

#[test]
fn denied_when_challenge_response_is_rejected() {
    let (service, state) = MockService::new(true, false);
    let mut orchestrator = Orchestrator::new(service);
    let mut reads = startup_reads();
    reads.extend(detection_reads());
    assert_eq!(orchestrator.initialize_pn532(driver_with(reads)), Ok(()));

    assert_eq!(orchestrator.wait_for_yubikey(30_000_000), Detection::IsCredential);
    assert_eq!(orchestrator.authenticate(), AuthOutcome::AccessDenied);
    assert_eq!(state.borrow().authenticated_slots.len(), 1);
}

#[test]
fn denied_not_error_when_selection_fails() {
    let (service, state) = MockService::new(false, true);
    let mut orchestrator = Orchestrator::new(service);
    let mut reads = startup_reads();
    reads.extend(detection_reads());
    assert_eq!(orchestrator.initialize_pn532(driver_with(reads)), Ok(()));

    assert_eq!(orchestrator.wait_for_yubikey(30_000_000), Detection::IsCredential);
    assert_eq!(orchestrator.authenticate(), AuthOutcome::AccessDenied);
    // The challenge-response is never attempted after a failed selection.
    assert_eq!(state.borrow().authenticated_slots.len(), 0);
}

#[test]
fn absence_of_a_credential_is_not_an_error() {
    let (service, _state) = MockService::new(true, true);
    let mut orchestrator = Orchestrator::new(service);

    // After the startup sequence the controller stays quiet: nothing is
    // presented, detection runs into its budget, and that is a normal
    // outcome, not an error.
    let mut bus = ScriptedBus::new(startup_reads());
    bus.quiet_when_exhausted = true;
    let driver = Pn532::new(bus, TickTimer::new(10));
    assert_eq!(orchestrator.initialize_pn532(driver), Ok(()));

    assert_eq!(orchestrator.wait_for_yubikey(1_000_000), Detection::NotCredential);
}

#[test]
fn enrollment_commits_the_decoded_key() {
    let (service, state) = MockService::new(true, true);
    let mut orchestrator: Orchestrator<ScriptedBus, TickTimer, MockService> =
        Orchestrator::new(service);

    assert_eq!(orchestrator.enroll_key("deadbeef"), Ok(()));
    let s = state.borrow();
    let key = s.enrolled.expect("key must be committed");
    assert_eq!(&key[..4], &[0xDE, 0xAD, 0xBE, 0xEF]);
    assert_eq!(&key[4..], &[0u8; 16][..]);
}

#[test]
fn enrollment_truncates_overlong_keys() {
    let (service, state) = MockService::new(true, true);
    let mut orchestrator: Orchestrator<ScriptedBus, TickTimer, MockService> =
        Orchestrator::new(service);

    let hex = "000102030405060708090a0b0c0d0e0f10111213ffee";
    assert_eq!(orchestrator.enroll_key(hex), Ok(()));
    let s = state.borrow();
    let key = s.enrolled.expect("key must be committed");
    for i in 0..SECRET_KEY_SIZE {
        assert_eq!(key[i] as usize, i);
    }
}

#[test]
fn enrollment_rejects_non_hex_input_before_any_side_effect() {
    let (service, state) = MockService::new(true, true);
    let mut orchestrator: Orchestrator<ScriptedBus, TickTimer, MockService> =
        Orchestrator::new(service);

    assert_eq!(orchestrator.enroll_key("not hex!"), Err(AuthError::InvalidDigit));
    assert_eq!(state.borrow().enroll_calls, 0);
    assert!(state.borrow().enrolled.is_none());
}

#[test]
fn enrollment_surfaces_a_service_failure() {
    let (mut service, state) = MockService::new(true, true);
    service.enroll_ok = false;
    let mut orchestrator: Orchestrator<ScriptedBus, TickTimer, MockService> =
        Orchestrator::new(service);

    assert_eq!(
        orchestrator.enroll_key("0011"),
        Err(AuthError::InterfaceError(ERR_SERVICE_FAILED))
    );
    assert_eq!(state.borrow().enroll_calls, 1);
    assert!(state.borrow().enrolled.is_none());
}

#[test]
fn cached_accessors_forward_the_service_values() {
    let (service, _state) = MockService::new(true, true);
    let orchestrator: Orchestrator<ScriptedBus, TickTimer, MockService> =
        Orchestrator::new(service);
    assert_eq!(orchestrator.get_version(), 0x0401);
    assert_eq!(orchestrator.get_serial(), 13371337);
}

#[test]
fn classification_policy_on_all_result_pairs() {
    assert_eq!(classify(true, true), AuthOutcome::AccessGranted);
    assert_eq!(classify(true, false), AuthOutcome::AccessDenied);
    assert_eq!(classify(false, true), AuthOutcome::AccessDenied);
    assert_eq!(classify(false, false), AuthOutcome::AccessDenied);
}

#[test]
fn only_timeouts_are_absorbed_as_absence() {
    assert_eq!(classify_detection_failure(AuthError::TimeoutResponse), Detection::NotCredential);
    assert_eq!(
        classify_detection_failure(AuthError::BadResponseFrame),
        Detection::Error(AuthError::BadResponseFrame)
    );
    assert_eq!(
        classify_detection_failure(AuthError::InterfaceError(0x107)),
        Detection::Error(AuthError::InterfaceError(0x107))
    );
}

#[test]
fn authentication_leaves_the_detected_target_in_place() {
    // Detect once, authenticate, and the same target still answers a
    // second authentication: no partial credential state leaks between
    // cycles, and a quiet spell does not erase the detection either.
    let (service, state) = MockService::new(true, true);
    let mut orchestrator = Orchestrator::new(service);
    let mut reads = startup_reads();
    reads.extend(detection_reads());
    let mut bus = ScriptedBus::new(reads);
    bus.quiet_when_exhausted = true;
    let driver = Pn532::new(bus, TickTimer::new(10));
    assert_eq!(orchestrator.initialize_pn532(driver), Ok(()));

    assert_eq!(orchestrator.wait_for_yubikey(30_000_000), Detection::IsCredential);
    assert_eq!(orchestrator.authenticate(), AuthOutcome::AccessGranted);
    // The controller stays quiet now: absence of a credential, and the
    // earlier detection is untouched.
    assert_eq!(orchestrator.wait_for_yubikey(1_000_000), Detection::NotCredential);
    assert_eq!(orchestrator.authenticate(), AuthOutcome::AccessGranted);
    assert_eq!(state.borrow().authenticated_slots.len(), 2);
}
