//! Authentication orchestrator: it owns the card-interface driver behind
//! idempotent one-time initialization, runs the detect → select →
//! challenge-response cycle against the external authentication service,
//! classifies the outcome, and provides secret-key enrollment.

use vstd::prelude::*;
use vstd::string::StringSliceAdditionalSpecFns;

use crate::error::{AuthError, ERR_SERVICE_FAILED};
use crate::hal::{AuthService, BusTransport, CountdownTimer};
use crate::hexkey::{all_hex_digits, input_secret_key, secret_key_of, SECRET_KEY_SIZE};
use crate::frame::command_frame;
use crate::pn532::{
    detection_record, is_driver_error, retries_record, sam_normal_record, Pn532, TargetView,
    CMD_GET_FIRMWARE_VERSION, CMD_INLIST_PASSIVE_TARGET, CMD_RF_CONFIGURATION,
    CMD_SAM_CONFIGURATION,
};

verus! {

/// Response buffer capacity of the orchestrator's driver, big enough for
/// every response this subsystem expects.
pub const PN532_BUF_SIZE: usize = 128;

/// Command code of the credential's first challenge-response slot.
pub const SLOT_1: u8 = 0x30;

/// Command code of the credential's second challenge-response slot, the
/// one this subsystem authenticates against.
pub const SLOT_2: u8 = 0x38;

/// The application identifier of the expected credential type.
pub open spec fn yubikey_aid_spec() -> Seq<u8> {
    seq![0xA0u8, 0x00u8, 0x00u8, 0x05u8, 0x27u8, 0x20u8, 0x01u8]
}

/// The application identifier of the expected credential type.
pub fn yubikey_aid() -> (r: [u8; 7])
    ensures
        r@ == yubikey_aid_spec(),
{
    let r: [u8; 7] = [0xA0, 0x00, 0x00, 0x05, 0x27, 0x20, 0x01];
    proof {
        assert(r@ =~= yubikey_aid_spec());
    }
    r
}

/// The outcome of one authentication cycle: a closed set, never
/// silently collapsed into a boolean.
#[derive(Clone, Copy, Debug, PartialEq, Eq, Structural)]
pub enum AuthOutcome {
    /// The credential was selected and its challenge-response matched.
    AccessGranted,
    /// The credential was not recognized as the expected type, or its
    /// challenge-response did not match; the two are indistinguishable
    /// at this layer, by design.
    AccessDenied,
    /// The cycle itself failed before a decision could be made.
    Error(AuthError),
}

/// The outcome of one bounded detection attempt.  Absence of a
/// credential is normal, not an error.
#[derive(Clone, Copy, Debug, PartialEq, Eq, Structural)]
pub enum Detection {
    /// A credential was detected and is now the current target.
    IsCredential,
    /// Nothing was presented within the budget.
    NotCredential,
    /// Detection itself failed.
    Error(AuthError),
}

/// How a selection result and a challenge-response result classify.
/// Failing to select is denied access, not an error: "not recognized as
/// the expected credential type" and "recognized but rejected" are
/// deliberately indistinguishable here.
pub open spec fn classify_outcome(selected: bool, accepted: bool) -> AuthOutcome {
    if selected && accepted {
        AuthOutcome::AccessGranted
    } else {
        AuthOutcome::AccessDenied
    }
}

/// Access is granted exactly when selection succeeded and the
/// challenge-response matched.
pub proof fn lemma_granted_iff_selected_and_accepted(selected: bool, accepted: bool)
    ensures
        classify_outcome(selected, accepted) == AuthOutcome::AccessGranted <==> selected
            && accepted,
        classify_outcome(selected, accepted) == AuthOutcome::AccessDenied <==> !(selected
            && accepted),
{
}

/// A rejected challenge-response is denied access.
pub proof fn lemma_rejected_challenge_denied()
    ensures
        classify_outcome(true, false) == AuthOutcome::AccessDenied,
{
}

/// A failed selection is denied access, not an error.
pub proof fn lemma_failed_selection_denied(accepted: bool)
    ensures
        classify_outcome(false, accepted) == AuthOutcome::AccessDenied,
{
}

/// How a detection failure classifies: the absence of a credential — a
/// timeout — is a normal outcome; every other failure is surfaced
/// unchanged.
pub open spec fn detection_of_failure(e: AuthError) -> Detection {
    if e is TimeoutResponse {
        Detection::NotCredential
    } else {
        Detection::Error(e)
    }
}

/// Only a timeout is absorbed as "no credential": every other detection
/// failure is surfaced unchanged.
pub proof fn lemma_only_timeouts_absorbed(e: AuthError)
    ensures
        detection_of_failure(e) == Detection::NotCredential <==> e is TimeoutResponse,
        !(e is TimeoutResponse) ==> detection_of_failure(e) == Detection::Error(e),
{
}

/// Classifies a detection failure.
pub fn classify_detection_failure(e: AuthError) -> (r: Detection)
    ensures
        r == detection_of_failure(e),
{
    if e.is_timeout() {
        Detection::NotCredential
    } else {
        Detection::Error(e)
    }
}

/// Classifies a selection result and a challenge-response result.
pub fn classify(selected: bool, accepted: bool) -> (r: AuthOutcome)
    ensures
        r == classify_outcome(selected, accepted),
{
    if selected && accepted {
        AuthOutcome::AccessGranted
    } else {
        AuthOutcome::AccessDenied
    }
}

/// The frames of the startup sequence, in the order it issues them:
/// the firmware-version query, the SAM configuration for normal mode
/// with the IRQ pin unused, and the detection retry count set to its
/// maximum.
pub open spec fn startup_frames() -> Seq<Seq<u8>> {
    seq![
        command_frame(CMD_GET_FIRMWARE_VERSION, Seq::empty()),
        command_frame(CMD_SAM_CONFIGURATION, sam_normal_record()),
        command_frame(CMD_RF_CONFIGURATION, retries_record(0xFFu8)),
    ]
}

/// The user-facing authentication policy layer.  It owns the
/// card-interface driver — installed once, then kept for the remainder
/// of the process — and the handle to the external authentication
/// service.
pub struct Orchestrator<I, T, A> {
    driver: Option<Pn532<I, T, PN532_BUF_SIZE>>,
    service: A,
}

impl<I: BusTransport, T: CountdownTimer, A: AuthService> Orchestrator<I, T, A> {
    /// Whether one-time initialization has succeeded.
    pub closed spec fn is_initialized(&self) -> bool {
        self.driver is Some
    }

    /// The key the external service has committed, if any.
    pub closed spec fn service_key(&self) -> Option<Seq<u8>> {
        self.service.enrolled_key()
    }

    /// The most recently detected target, valid until the next
    /// successful detection overwrites it.
    pub closed spec fn detected_target(&self) -> Option<TargetView> {
        match self.driver {
            Some(d) => d.current_target(),
            None => None,
        }
    }

    /// The installed driver's log of transmitted frames, empty before
    /// initialization has succeeded.
    pub closed spec fn driver_bus_writes(&self) -> Seq<Seq<u8>> {
        match self.driver {
            Some(d) => d.bus_writes(),
            None => Seq::empty(),
        }
    }

    /// An orchestrator over the given service, not yet initialized.
    pub fn new(service: A) -> (r: Self)
        ensures
            !r.is_initialized(),
            r.service_key() == service.enrolled_key(),
    {
        Orchestrator { driver: None, service }
    }

    /// One-time installation of the card-interface driver.  On the first
    /// call it runs the startup sequence — firmware-version query, SAM
    /// configuration, maximum detection retries — and commits the driver
    /// only when every step succeeded; on failure the subsystem stays
    /// uninitialized and must be retried with a fresh driver.  Once
    /// initialized, further calls are no-ops that succeed.
    pub fn initialize_pn532(&mut self, pn532: Pn532<I, T, PN532_BUF_SIZE>) -> (r: Result<
        (),
        AuthError,
    >)
        ensures
            final(self).service_key() == old(self).service_key(),
            old(self).is_initialized() ==> r is Ok && *final(self) == *old(self),
            r is Ok <==> final(self).is_initialized(),
            !old(self).is_initialized() && r is Ok ==> final(self).driver_bus_writes()
                == pn532.bus_writes() + startup_frames(),
            r matches Err(e) ==> is_driver_error(e),
    {
        if self.driver.is_some() {
            return Ok(());
        }
        let ghost entry_log = pn532.bus_writes();
        let mut driver = pn532;
        if let Err(e) = driver.get_firmware_version() {
            return Err(e);
        }
        if let Err(e) = driver.sam_config() {
            return Err(e);
        }
        if let Err(e) = driver.set_passive_activation_retries(0xFF) {
            return Err(e);
        }
        proof {
            assert(driver.bus_writes() =~= entry_log + startup_frames());
        }
        self.driver = Some(driver);
        Ok(())
    }

    /// Read-only access to the installed driver; `NotInitialized` before
    /// initialization has succeeded.
    pub fn get_pn532(&self) -> (r: Result<&Pn532<I, T, PN532_BUF_SIZE>, AuthError>)
        ensures
            r is Ok <==> self.is_initialized(),
            r matches Err(e) ==> e == AuthError::NotInitialized,
    {
        match &self.driver {
            Some(d) => Ok(d),
            None => Err(AuthError::NotInitialized),
        }
    }

    /// One bounded detection attempt, not a loop: a timeout means no
    /// credential was presented, which is a normal outcome; every other
    /// failure is surfaced unchanged, and the previously detected target
    /// stays valid until a successful detection overwrites it.
    pub fn wait_for_yubikey(&mut self, timeout_us: u64) -> (r: Detection)
        ensures
            final(self).is_initialized() == old(self).is_initialized(),
            final(self).service_key() == old(self).service_key(),
            !old(self).is_initialized() ==> r == Detection::Error(AuthError::NotInitialized)
                && *final(self) == *old(self),
            old(self).is_initialized() ==> final(self).driver_bus_writes() == old(
                self,
            ).driver_bus_writes().push(
                command_frame(CMD_INLIST_PASSIVE_TARGET, detection_record()),
            ),
            r == Detection::IsCredential ==> final(self).detected_target() is Some,
            r != Detection::IsCredential ==> final(self).detected_target() == old(
                self,
            ).detected_target(),
            r matches Detection::Error(e) ==> (old(self).is_initialized() ==> e is
                BadResponseFrame || e is InterfaceError),
    {
        match &mut self.driver {
            None => Detection::Error(AuthError::NotInitialized),
            Some(d) => {
                match d.inlist_passive_target_timeout(1_000_000, timeout_us) {
                    Ok(()) => Detection::IsCredential,
                    Err(e) => classify_detection_failure(e),
                }
            },
        }
    }

    /// One authentication exchange against an already-detected target:
    /// select the credential's application, then run challenge-response
    /// for the fixed slot, and classify.  A failed selection is denied
    /// access, not an error; before initialization the outcome is
    /// `NotInitialized`; whatever the outcome, no partial credential
    /// state leaks into the next cycle.
    pub fn authenticate(&mut self) -> (r: AuthOutcome)
        ensures
            final(self).is_initialized() == old(self).is_initialized(),
            final(self).service_key() == old(self).service_key(),
            final(self).detected_target() == old(self).detected_target(),
            final(self).driver_bus_writes() == old(self).driver_bus_writes(),
            !old(self).is_initialized() ==> r == AuthOutcome::Error(AuthError::NotInitialized),
            old(self).is_initialized() ==> (r is AccessGranted || r is AccessDenied),
    {
        if self.driver.is_none() {
            return AuthOutcome::Error(AuthError::NotInitialized);
        }
        let aid = yubikey_aid();
        let selected = self.service.select(aid.as_slice());
        let accepted = if selected {
            self.service.authenticate(SLOT_2)
        } else {
            false
        };
        classify(selected, accepted)
    }

    /// Enrolls a secret key: validates that the input is hexadecimal,
    /// decodes it into the fixed-size key — zero-padded or truncated —
    /// and delegates to the external service to commit it into the
    /// secure element and the credential store.  Invalid input is
    /// rejected before anything is touched.
    pub fn enroll_key(&mut self, hex_str: &str) -> (r: Result<(), AuthError>)
        ensures
            final(self).is_initialized() == old(self).is_initialized(),
            final(self).detected_target() == old(self).detected_target(),
            final(self).driver_bus_writes() == old(self).driver_bus_writes(),
            !all_hex_digits(hex_str.spec_bytes()) ==> r == Err::<(), AuthError>(
                AuthError::InvalidDigit,
            ) && *final(self) == *old(self),
            r is Ok ==> final(self).service_key() == Some(
                secret_key_of(hex_str.spec_bytes()),
            ),
            all_hex_digits(hex_str.spec_bytes()) && r is Err ==> r == Err::<(), AuthError>(
                AuthError::InterfaceError(ERR_SERVICE_FAILED),
            ) && final(self).service_key() == old(self).service_key(),
    {
        let mut key: [u8; SECRET_KEY_SIZE] = [0; SECRET_KEY_SIZE];
        if let Err(e) = input_secret_key(hex_str, &mut key) {
            return Err(e);
        }
        if self.service.enroll_key(&key) {
            Ok(())
        } else {
            Err(AuthError::InterfaceError(ERR_SERVICE_FAILED))
        }
    }

    /// Firmware version of the credential, as the external service
    /// cached it; meaningful only after a successful detection cycle.
    pub fn get_version(&self) -> (r: u32) {
        self.service.version()
    }

    /// Serial number of the credential, as the external service cached
    /// it; meaningful only after a successful detection cycle.
    pub fn get_serial(&self) -> (r: u32) {
        self.service.serial()
    }
}

} // verus!
