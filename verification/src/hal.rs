//! Boundaries to the hardware collaborators: the raw bus transport, the
//! countdown timer, the flash medium and the external authentication
//! service.  Each is a trait the embedding application implements; the
//! contracts written here are what this subsystem assumes of them, and an
//! implementation is answerable for them.

use vstd::prelude::*;

use crate::hexkey::SECRET_KEY_SIZE;

verus! {

/// The error code of a failed bus or storage transaction.
#[derive(Clone, Copy, Debug, PartialEq, Eq, Structural)]
pub struct HwFault {
    /// Collaborator-specific code identifying the fault.
    pub code: i32,
}

/// Raw synchronous serial transport under the card-interface driver: it
/// moves bytes and samples the controller's status line, and knows
/// nothing of the frame protocol.
pub trait BusTransport {
    /// Ghost log of every frame handed to the transport, oldest first,
    /// whether or not its transaction succeeded.  What the driver
    /// transmits for each command is stated over this log.
    open spec fn writes(&self) -> Seq<Seq<u8>> {
        Seq::empty()
    }

    /// Sends one frame to the controller; the frame joins the write log
    /// even when the transaction fails.
    fn write(&mut self, frame: &[u8]) -> (r: Result<(), HwFault>)
        ensures
            final(self).writes() == old(self).writes().push(frame@),
    ;

    /// Samples the controller's status line once: `Ok(true)` when a
    /// response is available, `Ok(false)` when not yet.  Implementations
    /// leave a short delay between samples so polling starves nothing.
    fn wait_ready(&mut self) -> (r: Result<bool, HwFault>)
        ensures
            final(self).writes() == old(self).writes(),
    ;

    /// Reads the pending frame into `buf`, filling exactly the length
    /// the caller sized it to.
    fn read(&mut self, buf: &mut Vec<u8>) -> (r: Result<(), HwFault>)
        ensures
            final(buf)@.len() == old(buf)@.len(),
            final(self).writes() == old(self).writes(),
    ;
}

/// A monotonic, resettable elapsed-time source for bounded waits.  After
/// `start(d)`, polling must report the countdown elapsed once at least
/// `d` microseconds have passed, and must eventually report it: time
/// advances, so a countdown cannot stay pending forever.
pub trait CountdownTimer {
    /// How many more times `poll` may still report the countdown
    /// pending.  Implementations need not know the number; it only has
    /// to shrink with every pending report, which is what makes every
    /// wait bounded.
    open spec fn pending_polls(&self) -> nat {
        0
    }

    /// Resets the counter to zero and begins counting a duration of
    /// `duration_us` microseconds.
    fn start(&mut self, duration_us: u64);

    /// Returns whether the countdown begun by the last `start` has
    /// elapsed.  Never blocks; the caller decides whether to spin.
    fn poll(&mut self) -> (r: bool)
        ensures
            !r ==> final(self).pending_polls() < old(self).pending_polls(),
    ;
}

/// Byte-addressed persistent storage at a fixed base address.  Reads
/// report the medium's contents faithfully; a write may fail or may
/// corrupt what it stores — the credential store's read-back check
/// guards against exactly that — but the medium's size never changes.
pub trait Flash {
    /// The bytes the medium holds, as reads report them.
    open spec fn contents(&self) -> Seq<u8> {
        Seq::empty()
    }

    /// Number of addressable bytes.
    fn capacity(&self) -> (r: usize)
        ensures
            r == self.contents().len(),
    ;

    /// Writes `data` at `address`.  What the medium holds afterwards is
    /// not promised: the write may have failed or been corrupted.
    fn write(&mut self, address: u32, data: &[u8]) -> (r: Result<(), HwFault>)
        requires
            address + data@.len() <= old(self).contents().len(),
        ensures
            final(self).contents().len() == old(self).contents().len(),
    ;

    /// Reads `buf.len()` bytes at `address` into `buf`, reporting the
    /// contents exactly and changing nothing.
    fn read(&mut self, address: u32, buf: &mut Vec<u8>) -> (r: Result<(), HwFault>)
        requires
            address + old(buf)@.len() <= old(self).contents().len(),
        ensures
            final(self).contents() == old(self).contents(),
            final(buf)@.len() == old(buf)@.len(),
            r is Ok ==> final(buf)@ == old(self).contents().subrange(
                address as int,
                address + old(buf)@.len(),
            ),
    ;
}

/// The opaque external authentication service: it selects the
/// credential's application, runs the challenge-response exchange, and
/// commits an enrolled key into the secure element's storage domain and
/// the credential store.  Entirely synchronous and blocking.
pub trait AuthService {
    /// The key the service has committed, if any.
    open spec fn enrolled_key(&self) -> Option<Seq<u8>> {
        None
    }

    /// Selects the credential application named by `application_id`;
    /// returns whether the credential acknowledged the selection.
    fn select(&mut self, application_id: &[u8]) -> (r: bool)
        ensures
            final(self).enrolled_key() == old(self).enrolled_key(),
    ;

    /// Runs the challenge-response exchange against slot `slot_id`;
    /// returns whether the credential's response matched.
    fn authenticate(&mut self, slot_id: u8) -> (r: bool)
        ensures
            final(self).enrolled_key() == old(self).enrolled_key(),
    ;

    /// Commits `secret` into the secure element's storage domain and the
    /// credential store; returns whether every commitment succeeded.
    fn enroll_key(&mut self, secret: &[u8; SECRET_KEY_SIZE]) -> (r: bool)
        ensures
            r ==> final(self).enrolled_key() == Some(secret@),
            !r ==> final(self).enrolled_key() == old(self).enrolled_key(),
    ;

    /// Firmware version of the credential, as cached by the service
    /// after a successful detection cycle.
    fn version(&self) -> (r: u32);

    /// Serial number of the credential, as cached by the service after a
    /// successful detection cycle.
    fn serial(&self) -> (r: u32);
}

} // verus!
