//! The single-stream decoder object.

use vstd::prelude::*;

use crate::mem;
use crate::{Channels, ErrorCode};

verus! {

/// Storage and configuration of one native decoder.
///
/// The channel count is baked into the type: every buffer handed to a
/// decode call is interleaved over `CH` channels, and the frame size is
/// always the buffer length divided by `CH`.
#[derive(Debug)]
pub struct Decoder<const CH: u8> {
    inner: mem::Unique,
}

impl<const CH: u8> Decoder<CH> {
    /// Only mono and stereo are supported; any other count is a
    /// construction-time contract violation.
    pub open spec fn channels_supported() -> bool {
        CH == 1 || CH == 2
    }

    /// The decoder's storage block.
    pub closed spec fn spec_storage(&self) -> mem::Unique {
        self.inner
    }

    /// A decoder is well formed when its storage block is.
    pub open spec fn wf(&self) -> bool {
        Self::channels_supported() && self.spec_storage().wf()
    }

    /// The channel count baked into the type.
    pub fn channels() -> (r: Channels)
        requires
            Self::channels_supported(),
        ensures
            CH == 1 ==> r == Channels::Mono,
            CH == 2 ==> r == Channels::Stereo,
    {
        if CH == 1 {
            Channels::Mono
        } else {
            Channels::Stereo
        }
    }

    /// Reserves storage for a decoder, from the size the native library
    /// reported for this channel configuration.
    ///
    /// A reported size of zero is an internal error of the library; a size
    /// beyond the allocation ceiling is an allocation failure.
    pub fn reserve(size: usize) -> (r: Result<Decoder<CH>, ErrorCode>)
        requires
            Self::channels_supported(),
        ensures
            size == 0 ==> r == Result::<Decoder<CH>, ErrorCode>::Err(ErrorCode::Internal),
            size != 0 && !mem::Unique::spec_fits(size as nat) ==> r == Result::<
                Decoder<CH>,
                ErrorCode,
            >::Err(ErrorCode::AllocFail),
            size != 0 && mem::Unique::spec_fits(size as nat) ==> r is Ok && r->Ok_0.wf()
                && r->Ok_0.spec_storage().spec_size() == size,
    {
        if size == 0 {
            return Err(ErrorCode::Internal);
        }
        match mem::Unique::new(size) {
            Some(inner) => Ok(Decoder { inner }),
            None => Err(ErrorCode::AllocFail),
        }
    }

    /// How many samples per channel a buffer of `buffer_len` interleaved
    /// samples holds.
    pub fn frame_count(buffer_len: usize) -> (r: usize)
        requires
            Self::channels_supported(),
        ensures
            r == buffer_len as int / CH as int,
    {
        buffer_len / (CH as usize)
    }

    /// Grants the native calls access to the storage block.
    pub fn storage_mut(&mut self) -> (r: &mut mem::Unique)
        ensures
            *r == old(self).spec_storage(),
            final(self).spec_storage() == *final(r),
    {
        &mut self.inner
    }

    /// Reads the storage block.
    pub fn storage(&self) -> (r: &mem::Unique)
        ensures
            *r == self.spec_storage(),
    {
        &self.inner
    }
}

} // verus!
