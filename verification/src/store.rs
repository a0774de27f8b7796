//! Credential store: durable storage of one secret key at fixed offsets
//! above one reserved base address, with mandatory write-then-read-back
//! verification.  The read-back check is what stands between a silently
//! corrupted flash write and an unusable authentication subsystem.

use vstd::prelude::*;

use crate::error::{AuthError, ERR_INVALID_ARG};
use crate::frame::zero_vec;
use crate::hal::Flash;

verus! {

/// Base address of the storage region reserved for this subsystem; every
/// offset is relative to it.
pub const FLASH_ADDR: u32 = 0x9000;

/// Durable, verified storage of one secret key.
pub struct CredentialStore<F: Flash> {
    flash: F,
}

impl<F: Flash> CredentialStore<F> {
    /// The bytes of the medium under the store.
    pub closed spec fn contents(&self) -> Seq<u8> {
        self.flash.contents()
    }

    /// A store over the given medium.
    pub fn new(flash: F) -> (r: Self)
        ensures
            r.contents() == flash.contents(),
    {
        CredentialStore { flash }
    }

    /// Number of addressable bytes of the medium under the store, so a
    /// caller can keep its offsets within bounds.
    pub fn capacity(&self) -> (r: usize)
        ensures
            r == self.contents().len(),
    {
        self.flash.capacity()
    }

    /// Writes `data` at `offset` above the base address, reads the same
    /// region back, and succeeds only when the read-back equals what was
    /// asked for byte for byte.  An empty write is rejected; a mismatch
    /// is `VerificationFailed` and must halt enrollment, never be
    /// retried silently.
    pub fn write_verified(&mut self, data: &[u8], offset: u32) -> (r: Result<(), AuthError>)
        requires
            FLASH_ADDR + offset + data@.len() <= old(self).contents().len(),
            old(self).contents().len() <= u32::MAX,
        ensures
            final(self).contents().len() == old(self).contents().len(),
            data@.len() == 0 ==> r == Err::<(), AuthError>(
                AuthError::InterfaceError(ERR_INVALID_ARG),
            ) && final(self).contents() == old(self).contents(),
            r is Ok ==> final(self).contents().subrange(
                FLASH_ADDR + offset,
                FLASH_ADDR + offset + data@.len(),
            ) == data@,
            r == Err::<(), AuthError>(AuthError::VerificationFailed) ==> final(self).contents()
                .subrange(FLASH_ADDR + offset, FLASH_ADDR + offset + data@.len()) != data@,
            r matches Err(e) ==> (e == AuthError::VerificationFailed || e matches
                AuthError::InterfaceError(_)),
    {
        if data.len() == 0 {
            return Err(AuthError::InterfaceError(ERR_INVALID_ARG));
        }
        let address = FLASH_ADDR + offset;
        if let Err(f) = self.flash.write(address, data) {
            return Err(AuthError::InterfaceError(f.code));
        }
        let mut reread = zero_vec(data.len());
        if let Err(f) = self.flash.read(address, &mut reread) {
            return Err(AuthError::InterfaceError(f.code));
        }
        let ghost stored = self.flash.contents().subrange(
            address as int,
            address + data@.len(),
        );
        let mut i: usize = 0;
        while i < data.len()
            invariant
                0 <= i <= data@.len(),
                address == FLASH_ADDR + offset,
                address + data@.len() <= self.contents().len(),
                self.contents().len() == old(self).contents().len(),
                stored == self.contents().subrange(address as int, address + data@.len()),
                reread@.len() == data@.len(),
                reread@ == stored,
                forall|j: int| 0 <= j < i ==> reread@[j] == data@[j],
            decreases data@.len() - i,
        {
            if reread[i] != data[i] {
                proof {
                    assert(stored[i as int] != data@[i as int]);
                }
                return Err(AuthError::VerificationFailed);
            }
            i = i + 1;
        }
        proof {
            assert(stored =~= data@);
        }
        Ok(())
    }

    /// Plain bounded read of `buf.len()` bytes at `offset` above the
    /// base address; an empty read is rejected.
    pub fn read(&mut self, buf: &mut Vec<u8>, offset: u32) -> (r: Result<(), AuthError>)
        requires
            FLASH_ADDR + offset + old(buf)@.len() <= old(self).contents().len(),
            old(self).contents().len() <= u32::MAX,
        ensures
            final(self).contents() == old(self).contents(),
            final(buf)@.len() == old(buf)@.len(),
            old(buf)@.len() == 0 ==> r == Err::<(), AuthError>(
                AuthError::InterfaceError(ERR_INVALID_ARG),
            ) && final(buf)@ == old(buf)@,
            r is Ok ==> final(buf)@ == old(self).contents().subrange(
                FLASH_ADDR + offset,
                FLASH_ADDR + offset + old(buf)@.len(),
            ),
            r matches Err(e) ==> e matches AuthError::InterfaceError(_),
    {
        if buf.len() == 0 {
            return Err(AuthError::InterfaceError(ERR_INVALID_ARG));
        }
        let address = FLASH_ADDR + offset;
        if let Err(f) = self.flash.read(address, buf) {
            return Err(AuthError::InterfaceError(f.code));
        }
        Ok(())
    }
}

/// A verified write followed immediately by a read of the same offset
/// and size hands back byte-identical data: success of `write_verified`
/// pins the stored bytes to `data`, and `read` reports the stored bytes.
pub proof fn lemma_write_read_roundtrip(
    contents: Seq<u8>,
    data: Seq<u8>,
    start: int,
    readback: Seq<u8>,
)
    requires
        0 <= start,
        start + data.len() <= contents.len(),
        contents.subrange(start, start + data.len() as int) == data,
        readback == contents.subrange(start, start + data.len() as int),
    ensures
        readback == data,
{
}

} // verus!
