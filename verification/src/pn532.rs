//! Frame-level card-interface driver: it turns discrete bus transactions
//! into the controller's command/response protocol — issue a command,
//! poll for readiness under a timeout budget, read and check the
//! acknowledge, poll again, read and parse the response — and exposes the
//! operations the orchestrator needs.

use vstd::prelude::*;
use vstd::slice::{slice_subrange, slice_to_vec};

use crate::error::AuthError;
use crate::frame::{
    build_command_frame, command_frame, is_ack_frame, parse_response, response_payload,
    response_well_formed, zero_vec, FRAME_OVERHEAD, MAX_FRAME_DATA,
};
use crate::hal::{BusTransport, CountdownTimer};

verus! {

/// Command code of the firmware-version query.
pub const CMD_GET_FIRMWARE_VERSION: u8 = 0x02;

/// Command code of the SAM configuration command.
pub const CMD_SAM_CONFIGURATION: u8 = 0x14;

/// Command code of the radio-configuration command.
pub const CMD_RF_CONFIGURATION: u8 = 0x32;

/// Command code of passive-target detection.
pub const CMD_INLIST_PASSIVE_TARGET: u8 = 0x4A;

/// Command code of the opaque data exchange with a detected target.
pub const CMD_IN_DATA_EXCHANGE: u8 = 0x40;

/// Radio-configuration item selecting the detection retry counts.
pub const CFG_ITEM_MAX_RETRIES: u8 = 5;

/// Data of the SAM configuration command: normal operating mode, no
/// virtual-card timeout, the IRQ pin unused.
pub open spec fn sam_normal_record() -> Seq<u8> {
    seq![0x01u8, 0x00u8, 0x00u8]
}

/// Data of the retry configuration command: the retry config item, the
/// two default retry sub-fields, and the caller's count.
pub open spec fn retries_record(retries: u8) -> Seq<u8> {
    seq![CFG_ITEM_MAX_RETRIES, 0xFFu8, 0x01u8, retries]
}

/// Data of the detection command: one target, 106 kbps type A.
pub open spec fn detection_record() -> Seq<u8> {
    seq![1u8, 0u8]
}

/// The handle a data exchange addresses: the most recently detected
/// target's, or zero when none is held.
pub open spec fn handle_of(target: Option<TargetView>) -> u8 {
    match target {
        Some(t) => t.index,
        None => 0u8,
    }
}

/// A detected contactless credential: its transient handle, its
/// sense-response and select-acknowledge codes, and its unique
/// identifier.  Valid until the next successful detection overwrites it.
#[derive(Debug, PartialEq, Eq)]
pub struct Target {
    /// Handle naming "the most recently detected target" in a later
    /// data exchange.
    pub index: u8,
    /// Two-byte sense response, high byte first.
    pub sens_res: u16,
    /// One-byte select acknowledge.
    pub sel_res: u8,
    /// Unique identifier, of bounded but variable length.
    pub uid: Vec<u8>,
}

/// Mathematical image of a `Target`.
pub struct TargetView {
    /// Handle naming the target in a later data exchange.
    pub index: u8,
    /// Two-byte sense response, high byte first.
    pub sens_res: u16,
    /// One-byte select acknowledge.
    pub sel_res: u8,
    /// Unique identifier bytes.
    pub uid: Seq<u8>,
}

impl View for Target {
    type V = TargetView;

    open spec fn view(&self) -> TargetView {
        TargetView {
            index: self.index,
            sens_res: self.sens_res,
            sel_res: self.sel_res,
            uid: self.uid@,
        }
    }
}

/// Whether a detection response reports exactly one target and is long
/// enough to carry the fields of the fixed layout: detected count,
/// target handle, two sense-response bytes, the select-acknowledge byte,
/// the identifier length and that many identifier bytes.
pub open spec fn inlist_response_ok(res: Seq<u8>) -> bool {
    &&& res.len() >= 6
    &&& res[0] == 1u8
    &&& 6 + res[5] <= res.len()
}

/// The target a well-formed detection response describes.
pub open spec fn target_of(res: Seq<u8>) -> TargetView {
    TargetView {
        index: res[1],
        sens_res: (res[2] * 256 + res[3]) as u16,
        sel_res: res[4],
        uid: res.subrange(6, 6 + res[5] as int),
    }
}

/// Detection reporting any number of targets other than one is rejected,
/// by design: only a single target is ever tracked.
pub proof fn lemma_multi_target_rejected(res: Seq<u8>)
    requires
        res.len() >= 1,
        res[0] != 1u8,
    ensures
        !inlist_response_ok(res),
{
}

/// Parses the payload of a detection response per the fixed layout.
/// Anything but exactly one well-described target is a
/// `BadResponseFrame`.
pub fn parse_inlist_response(res: &[u8]) -> (r: Result<Target, AuthError>)
    ensures
        r is Ok <==> inlist_response_ok(res@),
        r matches Ok(t) ==> t@ == target_of(res@),
        r matches Err(e) ==> e == AuthError::BadResponseFrame,
{
    if res.len() < 6 {
        return Err(AuthError::BadResponseFrame);
    }
    if res[0] != 1 {
        return Err(AuthError::BadResponseFrame);
    }
    let uid_len = res[5] as usize;
    if uid_len > res.len() - 6 {
        return Err(AuthError::BadResponseFrame);
    }
    let uid = slice_to_vec(slice_subrange(res, 6, 6 + uid_len));
    let sens_res: u16 = (res[2] as u16) * 256 + (res[3] as u16);
    Ok(Target { index: res[1], sens_res, sel_res: res[4], uid })
}

/// Whether an error is among those the driver itself can surface: a
/// timeout, a malformed frame, or a transport fault.
pub open spec fn is_driver_error(e: AuthError) -> bool {
    e is TimeoutResponse || e is BadResponseFrame || e is InterfaceError
}

/// Whether the status nibble of a data-exchange response reports
/// success.
pub open spec fn exchange_status_ok(res: Seq<u8>) -> bool {
    res.len() > 0 && res[0] & 0x3f == 0u8
}

/// How many payload bytes a data exchange hands the caller: the bytes
/// after the status byte, silently truncated to the caller's capacity.
pub open spec fn exchange_copy_len(res: Seq<u8>, cap: nat) -> int {
    if res.len() - 1 <= cap {
        res.len() - 1
    } else {
        cap as int
    }
}

/// A response longer than the caller's buffer is truncated to exactly
/// the buffer's capacity, and that truncated length is what is reported.
pub proof fn lemma_exchange_truncated(res: Seq<u8>, cap: nat)
    requires
        exchange_status_ok(res),
        res.len() > cap + 1,
    ensures
        exchange_copy_len(res, cap) == cap,
{
}

/// Checks the status byte of a data-exchange response and copies its
/// payload into the caller's buffer, truncating silently to the buffer's
/// capacity; returns how many bytes were delivered.
pub fn copy_exchange_payload(res: &[u8], response: &mut Vec<u8>) -> (r: Result<u8, AuthError>)
    requires
        res@.len() <= 256,
        old(response)@.len() <= 255,
    ensures
        final(response)@.len() == old(response)@.len(),
        r is Ok <==> exchange_status_ok(res@),
        r matches Ok(n) ==> n == exchange_copy_len(res@, old(response)@.len()),
        r matches Ok(n) ==> forall|i: int| 0 <= i < n ==> final(response)@[i] == res@[i + 1],
        r matches Ok(n) ==> forall|i: int|
            n <= i < old(response)@.len() ==> final(response)@[i] == old(response)@[i],
        r matches Err(e) ==> e == AuthError::BadResponseFrame && final(response)@ == old(
            response,
        )@,
{
    if res.len() == 0 {
        return Err(AuthError::BadResponseFrame);
    }
    if res[0] & 0x3f != 0 {
        return Err(AuthError::BadResponseFrame);
    }
    let actual = res.len() - 1;
    let cap = response.len();
    let n = if actual <= cap {
        actual
    } else {
        cap
    };

    let mut out: Vec<u8> = Vec::new();
    let mut i: usize = 0;
    while i < n
        invariant
            0 <= i <= n,
            n < res@.len(),
            out@.len() == i,
            forall|j: int| 0 <= j < i ==> out@[j] == res@[j + 1],
        decreases n - i,
    {
        out.push(res[i + 1]);
        i = i + 1;
    }
    let mut j: usize = n;
    while j < cap
        invariant
            n <= j <= cap,
            cap == response@.len(),
            out@.len() == j,
            forall|k: int| 0 <= k < n ==> out@[k] == res@[k + 1],
            forall|k: int| n <= k < j ==> out@[k] == response@[k],
        decreases cap - j,
    {
        out.push(response[j]);
        j = j + 1;
    }
    *response = out;
    Ok(n as u8)
}

/// Packs the four bytes of a firmware-version response, big-endian.
pub open spec fn version_of(s: Seq<u8>) -> u32 {
    (s[0] * 0x1000000 + s[1] * 0x10000 + s[2] * 0x100 + s[3]) as u32
}

/// Interprets a firmware-version response payload: four bytes packed
/// big-endian into one value, anything shorter a malformed response.
pub fn version_from_payload(res: &[u8]) -> (r: Result<u32, AuthError>)
    ensures
        r is Ok <==> res@.len() >= 4,
        r matches Ok(v) ==> v == version_of(res@),
        r matches Err(e) ==> e == AuthError::BadResponseFrame,
{
    if res.len() < 4 {
        return Err(AuthError::BadResponseFrame);
    }
    let version: u32 = (res[0] as u32) * 0x1000000 + (res[1] as u32) * 0x10000 + (res[2] as u32)
        * 0x100 + (res[3] as u32);
    Ok(version)
}

/// States of the ready-polling machine every command runs through.
/// `Idle` is the rest state between transactions; writing a command
/// enters `AwaitingReady`, and each status sample either stays there,
/// reaches `Ready`, or — once the timeout budget is spent — `TimedOut`.
#[derive(Clone, Copy, Debug, PartialEq, Eq, Structural)]
pub enum ReadyPoll {
    /// No transaction in flight.
    Idle,
    /// A command was written; the controller has not signalled yet.
    AwaitingReady,
    /// The controller signalled that a response is available.
    Ready,
    /// The timeout budget was spent before any readiness signal.
    TimedOut,
}

/// Where one status sample takes the ready-polling machine from
/// `AwaitingReady`: the readiness signal wins over expiry.
pub open spec fn ready_poll_step(ready: bool, expired: bool) -> ReadyPoll {
    if ready {
        ReadyPoll::Ready
    } else if expired {
        ReadyPoll::TimedOut
    } else {
        ReadyPoll::AwaitingReady
    }
}

/// One status sample of the ready-polling machine, from `AwaitingReady`.
/// The timer is consulted only while the controller stays silent.
fn ready_poll_step_exec<I: BusTransport, T: CountdownTimer>(
    interface: &mut I,
    timer: &mut T,
) -> (r: Result<ReadyPoll, AuthError>)
    ensures
        final(interface).writes() == old(interface).writes(),
        r matches Ok(s) ==> exists|ready: bool, expired: bool| s == ready_poll_step(ready, expired),
        r matches Ok(s) ==> s != ReadyPoll::Idle,
        r matches Ok(s) ==> (s == ReadyPoll::AwaitingReady ==> final(timer).pending_polls() < old(
            timer,
        ).pending_polls()),
        r matches Err(e) ==> e matches AuthError::InterfaceError(_),
{
    match interface.wait_ready() {
        Ok(true) => {
            proof {
                assert(ReadyPoll::Ready == ready_poll_step(true, false));
            }
            Ok(ReadyPoll::Ready)
        },
        Ok(false) => {
            let expired = timer.poll();
            proof {
                assert(ready_poll_step(false, expired) == if expired {
                    ReadyPoll::TimedOut
                } else {
                    ReadyPoll::AwaitingReady
                });
            }
            if expired {
                Ok(ReadyPoll::TimedOut)
            } else {
                Ok(ReadyPoll::AwaitingReady)
            }
        },
        Err(f) => Err(AuthError::InterfaceError(f.code)),
    }
}

/// Runs the ready-polling machine: starts the timer with the given
/// budget and samples until the machine reaches `Ready` or `TimedOut`.
/// Expiry is a `TimeoutResponse`; a transport fault is an
/// `InterfaceError`.  The wait is bounded: the timer cannot stay pending
/// forever, so the machine cannot stay in `AwaitingReady`.
fn wait_ready_timeout<I: BusTransport, T: CountdownTimer>(
    interface: &mut I,
    timer: &mut T,
    timeout_us: u64,
) -> (r: Result<(), AuthError>)
    ensures
        final(interface).writes() == old(interface).writes(),
        r matches Err(e) ==> (e == AuthError::TimeoutResponse || e matches
            AuthError::InterfaceError(_)),
{
    timer.start(timeout_us);
    loop
        invariant
            interface.writes() == old(interface).writes(),
        decreases timer.pending_polls(),
    {
        match ready_poll_step_exec(interface, timer) {
            Ok(ReadyPoll::Ready) => {
                return Ok(());
            },
            Ok(ReadyPoll::TimedOut) => {
                return Err(AuthError::TimeoutResponse);
            },
            Ok(_) => {},
            Err(e) => {
                return Err(e);
            },
        }
    }
}

/// The card-interface driver.  `N` is the capacity of its response
/// buffer: no read ever goes past it, and callers request at most
/// `N - FRAME_OVERHEAD` bytes of payload.
pub struct Pn532<I, T, const N: usize> {
    interface: I,
    timer: T,
    timeout_us: u64,
    target: Option<Target>,
}

impl<I: BusTransport, T: CountdownTimer, const N: usize> Pn532<I, T, N> {
    /// The most recently detected target — the single slot this driver
    /// tracks, valid until the next successful detection overwrites it.
    pub closed spec fn current_target(&self) -> Option<TargetView> {
        match self.target {
            Some(t) => Some(t@),
            None => None,
        }
    }

    /// The timeout budget, in microseconds, of the simple commands.
    pub closed spec fn timeout_micros(&self) -> u64 {
        self.timeout_us
    }

    /// The transport's log of transmitted frames: what this driver has
    /// handed to the bus, oldest first.
    pub closed spec fn bus_writes(&self) -> Seq<Seq<u8>> {
        self.interface.writes()
    }

    /// A driver over the given transport and timer, with no target
    /// detected and a 50 ms default timeout.
    pub fn new(interface: I, timer: T) -> (r: Self)
        ensures
            r.current_target() is None,
            r.timeout_micros() == 50_000,
            r.bus_writes() == interface.writes(),
    {
        Pn532 { interface, timer, timeout_us: 50_000, target: None }
    }

    /// Sets the timeout budget of the simple commands.
    pub fn set_timeout(&mut self, timeout_us: u64)
        ensures
            final(self).timeout_micros() == timeout_us,
            final(self).current_target() == old(self).current_target(),
            final(self).bus_writes() == old(self).bus_writes(),
    {
        self.timeout_us = timeout_us;
    }

    /// Sends the command frame for `cmd` and `data`, waits for readiness
    /// within `timeout_ack_us`, checks the acknowledge, waits again
    /// within `timeout_response_us`, reads `response_len` payload bytes'
    /// worth of frame and parses it.  Two independent budgets, because
    /// detection legitimately takes far longer than a register read.
    pub fn process(
        &mut self,
        cmd: u8,
        data: &[u8],
        response_len: usize,
        timeout_ack_us: u64,
        timeout_response_us: u64,
    ) -> (r: Result<Vec<u8>, AuthError>)
        requires
            data@.len() <= MAX_FRAME_DATA,
            response_len + FRAME_OVERHEAD <= N,
        ensures
            final(self).current_target() == old(self).current_target(),
            final(self).timeout_micros() == old(self).timeout_micros(),
            final(self).bus_writes() == old(self).bus_writes().push(command_frame(cmd, data@)),
            r matches Ok(p) ==> p@.len() <= response_len,
            r matches Err(e) ==> is_driver_error(e),
    {
        let frame = build_command_frame(cmd, data);
        if let Err(f) = self.interface.write(frame.as_slice()) {
            return Err(AuthError::InterfaceError(f.code));
        }
        if let Err(e) = wait_ready_timeout(&mut self.interface, &mut self.timer, timeout_ack_us) {
            return Err(e);
        }
        let mut ack_buf = zero_vec(6);
        if let Err(f) = self.interface.read(&mut ack_buf) {
            return Err(AuthError::InterfaceError(f.code));
        }
        if !is_ack_frame(ack_buf.as_slice()) {
            return Err(AuthError::BadResponseFrame);
        }
        if let Err(e) = wait_ready_timeout(
            &mut self.interface,
            &mut self.timer,
            timeout_response_us,
        ) {
            return Err(e);
        }
        let mut rbuf = zero_vec(response_len + FRAME_OVERHEAD);
        if let Err(f) = self.interface.read(&mut rbuf) {
            return Err(AuthError::InterfaceError(f.code));
        }
        let expected = cmd.wrapping_add(1);
        let payload = match parse_response(rbuf.as_slice(), expected) {
            Ok(p) => p,
            Err(e) => {
                return Err(e);
            },
        };
        proof {
            assert(response_well_formed(rbuf@, expected));
            assert(payload@ == response_payload(rbuf@));
            assert(payload@.len() == rbuf@[3] - 2);
            assert(6 + rbuf@[3] < rbuf@.len());
        }
        Ok(payload)
    }

    /// Queries the firmware version and packs its four response bytes
    /// big-endian into one value.
    pub fn get_firmware_version(&mut self) -> (r: Result<u32, AuthError>)
        requires
            4 + FRAME_OVERHEAD <= N,
        ensures
            final(self).current_target() == old(self).current_target(),
            final(self).timeout_micros() == old(self).timeout_micros(),
            final(self).bus_writes() == old(self).bus_writes().push(
                command_frame(CMD_GET_FIRMWARE_VERSION, Seq::empty()),
            ),
            r matches Err(e) ==> is_driver_error(e),
    {
        let data: [u8; 0] = [];
        proof {
            assert(data@ =~= Seq::<u8>::empty());
        }
        let timeout = self.timeout_us;
        let res = match self.process(
            CMD_GET_FIRMWARE_VERSION,
            data.as_slice(),
            4,
            timeout,
            timeout,
        ) {
            Ok(res) => res,
            Err(e) => {
                return Err(e);
            },
        };
        version_from_payload(res.as_slice())
    }

    /// Configures normal operating mode with the IRQ pin unused;
    /// fire-and-forget, any failure is surfaced.
    pub fn sam_config(&mut self) -> (r: Result<(), AuthError>)
        requires
            FRAME_OVERHEAD <= N,
        ensures
            final(self).current_target() == old(self).current_target(),
            final(self).timeout_micros() == old(self).timeout_micros(),
            final(self).bus_writes() == old(self).bus_writes().push(
                command_frame(CMD_SAM_CONFIGURATION, sam_normal_record()),
            ),
            r matches Err(e) ==> is_driver_error(e),
    {
        let data: [u8; 3] = [0x01, 0x00, 0x00];
        proof {
            assert(data@ =~= sam_normal_record());
        }
        let timeout = self.timeout_us;
        match self.process(CMD_SAM_CONFIGURATION, data.as_slice(), 0, timeout, timeout) {
            Ok(_) => Ok(()),
            Err(e) => Err(e),
        }
    }

    /// Writes the detection retry configuration record: the retry config
    /// item, the two default retry sub-fields, and the caller's count.
    pub fn set_passive_activation_retries(&mut self, retries: u8) -> (r: Result<(), AuthError>)
        requires
            FRAME_OVERHEAD <= N,
        ensures
            final(self).current_target() == old(self).current_target(),
            final(self).timeout_micros() == old(self).timeout_micros(),
            final(self).bus_writes() == old(self).bus_writes().push(
                command_frame(CMD_RF_CONFIGURATION, retries_record(retries)),
            ),
            r matches Err(e) ==> is_driver_error(e),
    {
        let data: [u8; 4] = [CFG_ITEM_MAX_RETRIES, 0xFF, 0x01, retries];
        proof {
            assert(data@ =~= retries_record(retries));
        }
        let timeout = self.timeout_us;
        match self.process(CMD_RF_CONFIGURATION, data.as_slice(), 0, timeout, timeout) {
            Ok(_) => Ok(()),
            Err(e) => Err(e),
        }
    }

    /// One passive-detection attempt with the given budgets: on success
    /// the parsed target becomes the current one; a failed attempt
    /// leaves the slot as it was, since a target stays valid until the
    /// next successful detection overwrites it.  A timeout is the
    /// expected "no credential presented" outcome, surfaced as
    /// `TimeoutResponse`.
    pub fn inlist_passive_target_timeout(
        &mut self,
        timeout_ack_us: u64,
        timeout_response_us: u64,
    ) -> (r: Result<(), AuthError>)
        requires
            FRAME_OVERHEAD <= N,
        ensures
            final(self).timeout_micros() == old(self).timeout_micros(),
            final(self).bus_writes() == old(self).bus_writes().push(
                command_frame(CMD_INLIST_PASSIVE_TARGET, detection_record()),
            ),
            r is Ok ==> final(self).current_target() is Some,
            r is Err ==> final(self).current_target() == old(self).current_target(),
            r matches Err(e) ==> is_driver_error(e),
    {
        let data: [u8; 2] = [1, 0];
        proof {
            assert(data@ =~= detection_record());
        }
        let res = match self.process(
            CMD_INLIST_PASSIVE_TARGET,
            data.as_slice(),
            N - FRAME_OVERHEAD,
            timeout_ack_us,
            timeout_response_us,
        ) {
            Ok(res) => res,
            Err(e) => {
                return Err(e);
            },
        };
        match parse_inlist_response(res.as_slice()) {
            Ok(t) => {
                self.target = Some(t);
                Ok(())
            },
            Err(e) => Err(e),
        }
    }

    /// One passive-detection attempt with the default budgets: a short
    /// wait for the acknowledge and a long one for a credential to
    /// appear.
    pub fn inlist_passive_target(&mut self) -> (r: Result<(), AuthError>)
        requires
            FRAME_OVERHEAD <= N,
        ensures
            final(self).timeout_micros() == old(self).timeout_micros(),
            final(self).bus_writes() == old(self).bus_writes().push(
                command_frame(CMD_INLIST_PASSIVE_TARGET, detection_record()),
            ),
            r is Ok ==> final(self).current_target() is Some,
            r is Err ==> final(self).current_target() == old(self).current_target(),
            r matches Err(e) ==> is_driver_error(e),
    {
        self.inlist_passive_target_timeout(1_000_000, 30_000_000)
    }

    /// Sends `send` to the most recently detected target, prepending the
    /// target's handle, and copies the response payload into `response`,
    /// silently truncated to its capacity; returns how many bytes were
    /// delivered, never more than the capacity.
    pub fn in_data_exchange(&mut self, send: &[u8], response: &mut Vec<u8>) -> (r: Result<
        u8,
        AuthError,
    >)
        requires
            send@.len() + 1 <= MAX_FRAME_DATA,
            old(response)@.len() <= 255,
            FRAME_OVERHEAD <= N,
            N - FRAME_OVERHEAD <= 256,
        ensures
            final(self).current_target() == old(self).current_target(),
            final(self).timeout_micros() == old(self).timeout_micros(),
            final(self).bus_writes() == old(self).bus_writes().push(
                command_frame(
                    CMD_IN_DATA_EXCHANGE,
                    seq![handle_of(old(self).current_target())] + send@,
                ),
            ),
            final(response)@.len() == old(response)@.len(),
            r matches Ok(n) ==> n <= old(response)@.len(),
            r is Err ==> final(response)@ == old(response)@,
            r matches Err(e) ==> is_driver_error(e),
    {
        let target_byte: u8 = match &self.target {
            Some(t) => t.index,
            None => 0,
        };
        let mut buf: Vec<u8> = Vec::new();
        buf.push(target_byte);
        buf.extend_from_slice(send);
        proof {
            assert(buf@ =~= seq![handle_of(old(self).current_target())] + send@);
        }

        let res = match self.process(
            CMD_IN_DATA_EXCHANGE,
            buf.as_slice(),
            N - FRAME_OVERHEAD,
            1_000_000,
            1_000_000,
        ) {
            Ok(res) => res,
            Err(e) => {
                return Err(e);
            },
        };
        copy_exchange_payload(res.as_slice(), response)
    }
}

} // verus!
