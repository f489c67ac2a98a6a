//! The deep-redundancy (DRED) decoder object.
//!
//! DRED decoding composes a standard decoder with two more owned
//! resources: the DRED decoder state and a fixed-size side-channel packet
//! buffer. A decode first parses the redundancy data out of the input
//! packet into the side buffer, then decodes audio from the combined
//! state; the two blocks are released together with the composite.

use vstd::prelude::*;

use crate::decoder::Decoder;
use crate::mem;
use crate::ErrorCode;

verus! {

/// Byte size of the DRED side-channel packet buffer.
pub const DRED_PACKET_SIZE: usize = 10592;

/// The fixed-size scratch buffer the side-channel data is parsed into.
#[derive(Debug)]
pub struct DredPacket {
    inner: mem::Unique,
}

impl DredPacket {
    /// The packet's storage block.
    pub closed spec fn spec_storage(&self) -> mem::Unique {
        self.inner
    }

    /// A packet buffer is well formed when its storage block is and the
    /// block spans the fixed side-buffer size.
    pub open spec fn wf(&self) -> bool {
        self.spec_storage().wf() && self.spec_storage().spec_size() == DRED_PACKET_SIZE
    }

    /// Creates a new uninitialized packet buffer.
    pub fn new() -> (r: Result<DredPacket, ErrorCode>)
        ensures
            r is Ok && r->Ok_0.wf(),
    {
        match mem::Unique::new(DRED_PACKET_SIZE) {
            Some(inner) => Ok(DredPacket { inner }),
            None => Err(ErrorCode::AllocFail),
        }
    }

    /// Grants the native calls access to the storage block.
    pub fn storage_mut(&mut self) -> (r: &mut mem::Unique)
        ensures
            *r == old(self).spec_storage(),
            final(self).spec_storage() == *final(r),
    {
        &mut self.inner
    }

    /// Reads the storage block.
    pub fn storage(&self) -> (r: &mem::Unique)
        ensures
            *r == self.spec_storage(),
    {
        &self.inner
    }
}

/// Storage and configuration of one native DRED decoder: the DRED state,
/// the wrapped standard decoder, and the side-channel packet buffer.
#[derive(Debug)]
pub struct Dred<const CH: u8> {
    inner: mem::Unique,
    decoder: Decoder<CH>,
    packet: DredPacket,
}

impl<const CH: u8> Dred<CH> {
    /// The DRED state's own storage block.
    pub closed spec fn spec_storage(&self) -> mem::Unique {
        self.inner
    }

    /// The wrapped standard decoder.
    pub closed spec fn spec_decoder(&self) -> Decoder<CH> {
        self.decoder
    }

    /// The side-channel packet buffer.
    pub closed spec fn spec_packet(&self) -> DredPacket {
        self.packet
    }

    /// A DRED decoder is well formed when all three owned resources are.
    pub open spec fn wf(&self) -> bool {
        self.spec_storage().wf() && self.spec_decoder().wf() && self.spec_packet().wf()
    }

    /// Reserves the DRED state and side buffer around an existing decoder,
    /// from the size the native library reported for the DRED state.
    ///
    /// A reported size of zero is an internal error of the library; a size
    /// beyond the allocation ceiling is an allocation failure.
    pub fn reserve(size: usize, decoder: Decoder<CH>) -> (r: Result<Dred<CH>, ErrorCode>)
        ensures
            size == 0 ==> r == Result::<Dred<CH>, ErrorCode>::Err(ErrorCode::Internal),
            size != 0 && !mem::Unique::spec_fits(size as nat) ==> r == Result::<
                Dred<CH>,
                ErrorCode,
            >::Err(ErrorCode::AllocFail),
            size != 0 && mem::Unique::spec_fits(size as nat) ==> r is Ok
                && r->Ok_0.spec_storage().wf() && r->Ok_0.spec_packet().wf()
                && r->Ok_0.spec_storage().spec_size() == size && r->Ok_0.spec_decoder()
                == decoder,
            r is Ok && decoder.wf() ==> r->Ok_0.wf(),
    {
        if size == 0 {
            return Err(ErrorCode::Internal);
        }
        let packet = match DredPacket::new() {
            Ok(packet) => packet,
            Err(error) => { return Err(error) },
        };
        match mem::Unique::new(size) {
            Some(inner) => Ok(Dred { inner, decoder, packet }),
            None => Err(ErrorCode::AllocFail),
        }
    }

    /// Access underlying decoder.
    pub fn decoder(&mut self) -> (r: &Decoder<CH>)
        ensures
            *r == old(self).spec_decoder(),
            *final(self) == *old(self),
    {
        &self.decoder
    }

    /// Access underlying decoder.
    pub fn decoder_mut(&mut self) -> (r: &mut Decoder<CH>)
        ensures
            *r == old(self).spec_decoder(),
            final(self).spec_decoder() == *final(r),
            final(self).spec_storage() == old(self).spec_storage(),
            final(self).spec_packet() == old(self).spec_packet(),
    {
        &mut self.decoder
    }

    /// Splits the composite into its three owned resources, so a native
    /// call can address the DRED state, the wrapped decoder and the side
    /// buffer at once.
    pub fn split_mut(&mut self) -> (r: (&mut mem::Unique, &mut Decoder<CH>, &mut DredPacket))
        ensures
            *r.0 == old(self).spec_storage(),
            *r.1 == old(self).spec_decoder(),
            *r.2 == old(self).spec_packet(),
            final(self).spec_storage() == *final(r.0),
            final(self).spec_decoder() == *final(r.1),
            final(self).spec_packet() == *final(r.2),
    {
        (&mut self.inner, &mut self.decoder, &mut self.packet)
    }
}

} // verus!
