//! Opus packet manipulation.
//!
//! A repacketizer merges multiple Opus packets into one, or splits a
//! previously merged packet. It accumulates borrowed packet ranges until
//! it is reset; the native state tracks the accumulated frames, and the
//! worst case size of an emitted packet is [`MAX_FRAME_BYTES`] bytes per
//! accumulated frame.

use vstd::prelude::*;

use crate::mem;
use crate::ErrorCode;

verus! {

/// Worst-case byte size of a single accumulated frame in an emitted
/// packet.
pub const MAX_FRAME_BYTES: usize = 1277;

/// Storage of one native repacketizer state.
#[derive(Debug)]
pub struct Repacketizer {
    inner: mem::Unique,
}

impl Repacketizer {
    /// The repacketizer's storage block.
    pub closed spec fn spec_storage(&self) -> mem::Unique {
        self.inner
    }

    /// A repacketizer is well formed when its storage block is.
    pub open spec fn wf(&self) -> bool {
        self.spec_storage().wf()
    }

    /// Reserves storage for a repacketizer, from the size the native
    /// library reported.
    ///
    /// A reported size of zero is an internal error of the library; a size
    /// beyond the allocation ceiling is an allocation failure.
    pub fn reserve(size: usize) -> (r: Result<Repacketizer, ErrorCode>)
        ensures
            size == 0 ==> r == Result::<Repacketizer, ErrorCode>::Err(ErrorCode::Internal),
            size != 0 && !mem::Unique::spec_fits(size as nat) ==> r == Result::<
                Repacketizer,
                ErrorCode,
            >::Err(ErrorCode::AllocFail),
            size != 0 && mem::Unique::spec_fits(size as nat) ==> r is Ok && r->Ok_0.wf()
                && r->Ok_0.spec_storage().spec_size() == size,
    {
        if size == 0 {
            return Err(ErrorCode::Internal);
        }
        match mem::Unique::new(size) {
            Some(inner) => Ok(Repacketizer { inner }),
            None => Err(ErrorCode::AllocFail),
        }
    }

    /// Grants the native calls access to the storage block.
    pub fn storage_mut(&mut self) -> (r: &mut mem::Unique)
        ensures
            *r == old(self).spec_storage(),
            final(self).spec_storage() == *final(r),
    {
        &mut self.inner
    }

    /// Reads the storage block.
    pub fn storage(&self) -> (r: &mem::Unique)
        ensures
            *r == self.spec_storage(),
    {
        &self.inner
    }
}

} // verus!
