//! The multistream API combines up to 255 elementary Opus streams into a
//! single packet, to carry more than two channels.
//!
//! A multistream object is declared by a configuration: the total channel
//! count `CH`, the number of elementary streams, the number of coupled
//! (stereo) streams, and a mapping table assigning each output channel to
//! a stream slot or marking it silent with the sentinel value 255.

use vstd::prelude::*;

use crate::mem;
use crate::ErrorCode;

verus! {

/// The mapping entry that omits a channel from coding entirely.
pub const MAPPING_SILENT: u8 = 255;

/// Multistream configuration for `CH` input/output channels.
#[derive(Debug)]
pub struct Config<const CH: usize> {
    streams: u8,
    coupled_streams: u8,
    mapping: [u8; CH],
}

impl<const CH: usize> Config<CH> {
    /// The channel count a configuration type can declare.
    pub open spec fn channels_supported() -> bool {
        1 <= CH <= 255
    }

    /// Every mapping entry either silences its channel or addresses one
    /// of the `CH` coded channels.
    pub open spec fn spec_mapping_ok(mapping: Seq<u8>) -> bool {
        forall|i: int|
            0 <= i < mapping.len() ==> mapping[i] == MAPPING_SILENT || (mapping[i] as int) < CH
    }

    /// The constraints a configuration must meet: at least one stream, no
    /// more coupled streams than streams, their sum within the channel
    /// count, and a well-formed mapping table.
    pub open spec fn spec_valid(streams: u8, coupled_streams: u8, mapping: Seq<u8>) -> bool {
        &&& streams != 0
        &&& coupled_streams <= streams
        &&& streams + coupled_streams <= CH
        &&& Self::spec_mapping_ok(mapping)
    }

    /// The configured number of elementary streams.
    pub closed spec fn spec_streams(&self) -> u8 {
        self.streams
    }

    /// The configured number of coupled streams.
    pub closed spec fn spec_coupled_streams(&self) -> u8 {
        self.coupled_streams
    }

    /// The configured mapping table.
    pub closed spec fn spec_mapping(&self) -> Seq<u8> {
        self.mapping@
    }

    /// Creates new config, verifying that the stream counts and the
    /// mapping table fit the `CH` channels.
    ///
    /// Returns no configuration exactly when a constraint fails.
    pub fn try_new(streams: u8, coupled_streams: u8, mapping: [u8; CH]) -> (r: Option<Config<CH>>)
        requires
            Self::channels_supported(),
        ensures
            r is Some <==> Self::spec_valid(streams, coupled_streams, mapping@),
            r is Some ==> r->0.spec_streams() == streams && r->0.spec_coupled_streams()
                == coupled_streams && r->0.spec_mapping() == mapping@,
    {
        if streams == 0 || coupled_streams > streams {
            return None;
        }
        let mut idx: usize = 0;
        while idx < CH
            invariant
                idx <= CH,
                forall|i: int|
                    0 <= i < idx ==> mapping@[i] == MAPPING_SILENT || (mapping@[i] as int) < CH,
            decreases CH - idx,
        {
            let entry = mapping[idx];
            if entry != MAPPING_SILENT && (entry as usize) >= CH {
                return None;
            }
            idx = idx + 1;
        }
        let total: u16 = (streams as u16) + (coupled_streams as u16);
        if total > (CH as u16) {
            return None;
        }
        Some(Config { streams, coupled_streams, mapping })
    }

    /// Creates new config, verifying that the stream counts and the
    /// mapping table fit the `CH` channels.
    ///
    /// A configuration that fails a constraint is a construction-time
    /// contract violation.
    pub fn new(streams: u8, coupled_streams: u8, mapping: [u8; CH]) -> (r: Config<CH>)
        requires
            Self::channels_supported(),
            Self::spec_valid(streams, coupled_streams, mapping@),
        ensures
            r.spec_streams() == streams,
            r.spec_coupled_streams() == coupled_streams,
            r.spec_mapping() == mapping@,
    {
        Config { streams, coupled_streams, mapping }
    }

    /// The configured number of elementary streams.
    pub fn streams(&self) -> (r: u8)
        ensures
            r == self.spec_streams(),
    {
        self.streams
    }

    /// The configured number of coupled streams.
    pub fn coupled_streams(&self) -> (r: u8)
        ensures
            r == self.spec_coupled_streams(),
    {
        self.coupled_streams
    }

    /// Accesses mapping.
    pub fn mapping(&self) -> (r: &[u8; CH])
        ensures
            r@ == self.spec_mapping(),
    {
        &self.mapping
    }

    /// Accesses mapping.
    pub fn mapping_mut(&mut self) -> (r: &mut [u8; CH])
        ensures
            r@ == old(self).spec_mapping(),
            final(self).spec_mapping() == final(r)@,
            final(self).spec_streams() == old(self).spec_streams(),
            final(self).spec_coupled_streams() == old(self).spec_coupled_streams(),
    {
        &mut self.mapping
    }
}

/// Storage of one native multistream encoder.
#[derive(Debug)]
pub struct Encoder {
    inner: mem::Unique,
}

impl Encoder {
    /// The encoder's storage block.
    pub closed spec fn spec_storage(&self) -> mem::Unique {
        self.inner
    }

    /// An encoder is well formed when its storage block is.
    pub open spec fn wf(&self) -> bool {
        self.spec_storage().wf()
    }

    /// Reserves storage for a multistream encoder, from the size the
    /// native library reported for the configured stream counts.
    ///
    /// A reported size of zero is an internal error of the library; a size
    /// beyond the allocation ceiling is an allocation failure.
    pub fn reserve(size: usize) -> (r: Result<Encoder, ErrorCode>)
        ensures
            size == 0 ==> r == Result::<Encoder, ErrorCode>::Err(ErrorCode::Internal),
            size != 0 && !mem::Unique::spec_fits(size as nat) ==> r == Result::<
                Encoder,
                ErrorCode,
            >::Err(ErrorCode::AllocFail),
            size != 0 && mem::Unique::spec_fits(size as nat) ==> r is Ok && r->Ok_0.wf()
                && r->Ok_0.spec_storage().spec_size() == size,
    {
        if size == 0 {
            return Err(ErrorCode::Internal);
        }
        match mem::Unique::new(size) {
            Some(inner) => Ok(Encoder { inner }),
            None => Err(ErrorCode::AllocFail),
        }
    }

    /// Grants the native calls access to the storage block.
    pub fn storage_mut(&mut self) -> (r: &mut mem::Unique)
        ensures
            *r == old(self).spec_storage(),
            final(self).spec_storage() == *final(r),
    {
        &mut self.inner
    }

    /// Reads the storage block.
    pub fn storage(&self) -> (r: &mem::Unique)
        ensures
            *r == self.spec_storage(),
    {
        &self.inner
    }
}

/// Storage and channel count of one native multistream decoder.
#[derive(Debug)]
pub struct Decoder {
    inner: mem::Unique,
    channels: u8,
}

impl Decoder {
    /// The decoder's storage block.
    pub closed spec fn spec_storage(&self) -> mem::Unique {
        self.inner
    }

    /// The channel count recorded at construction.
    pub closed spec fn spec_channels(&self) -> u8 {
        self.channels
    }

    /// A decoder is well formed when its storage block is and it decodes
    /// to at least one channel.
    pub open spec fn wf(&self) -> bool {
        self.spec_storage().wf() && self.spec_channels() >= 1
    }

    /// Reserves storage for a multistream decoder, from the size the
    /// native library reported for the configured stream counts, recording
    /// the configuration's channel count.
    ///
    /// A reported size of zero is an internal error of the library; a size
    /// beyond the allocation ceiling is an allocation failure.
    pub fn reserve(size: usize, channels: u8) -> (r: Result<Decoder, ErrorCode>)
        requires
            channels >= 1,
        ensures
            size == 0 ==> r == Result::<Decoder, ErrorCode>::Err(ErrorCode::Internal),
            size != 0 && !mem::Unique::spec_fits(size as nat) ==> r == Result::<
                Decoder,
                ErrorCode,
            >::Err(ErrorCode::AllocFail),
            size != 0 && mem::Unique::spec_fits(size as nat) ==> r is Ok && r->Ok_0.wf()
                && r->Ok_0.spec_storage().spec_size() == size && r->Ok_0.spec_channels()
                == channels,
    {
        if size == 0 {
            return Err(ErrorCode::Internal);
        }
        match mem::Unique::new(size) {
            Some(inner) => Ok(Decoder { inner, channels }),
            None => Err(ErrorCode::AllocFail),
        }
    }

    /// The channel count recorded at construction.
    pub fn channels(&self) -> (r: u8)
        ensures
            r == self.spec_channels(),
    {
        self.channels
    }

    /// How many samples per channel a buffer of `buffer_len` interleaved
    /// samples holds.
    pub fn frame_count(&self, buffer_len: usize) -> (r: usize)
        requires
            self.spec_channels() >= 1,
        ensures
            r == buffer_len as int / self.spec_channels() as int,
    {
        buffer_len / (self.channels as usize)
    }

    /// Grants the native calls access to the storage block.
    pub fn storage_mut(&mut self) -> (r: &mut mem::Unique)
        ensures
            *r == old(self).spec_storage(),
            final(self).spec_storage() == *final(r),
            final(self).spec_channels() == old(self).spec_channels(),
    {
        &mut self.inner
    }

    /// Reads the storage block.
    pub fn storage(&self) -> (r: &mem::Unique)
        ensures
            *r == self.spec_storage(),
    {
        &self.inner
    }
}

} // verus!
