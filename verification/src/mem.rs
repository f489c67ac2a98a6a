//! Storage for opaque native codec state.
//!
//! Every codec object of the native library is a self-describing,
//! variable-sized structure. The library reports the byte size it needs;
//! this module reserves a word-aligned block of that size plus a one-word
//! header recording the size, and hands the block out for the native
//! initializer to fill. The recorded size never changes for the life of
//! the block.

use vstd::prelude::*;

verus! {

/// Width in bytes of the size header kept in front of the payload.
pub const LAYOUT_OFFSET: usize = 8;

/// Width in bytes of one storage word; the block's guaranteed alignment.
pub const WORD_BYTES: usize = 8;

/// An exclusively owned storage block for one opaque native structure.
///
/// The first word is the size header; the payload starts at the following
/// word and spans at least `size` bytes.
#[derive(Debug)]
pub struct Unique {
    words: Vec<u64>,
    size: usize,
}

impl Unique {
    /// The payload size in bytes recorded at allocation.
    pub closed spec fn spec_size(&self) -> nat {
        self.size as nat
    }

    /// The words of the block: one header word, then the payload.
    pub closed spec fn spec_words(&self) -> Seq<u64> {
        self.words@
    }

    /// A block is well formed when it spans a header word plus enough
    /// whole words to cover the recorded size, and the header records
    /// that size.
    pub open spec fn wf(&self) -> bool {
        &&& self.spec_words().len() == 1 + (self.spec_size() + (WORD_BYTES - 1)) / (
        WORD_BYTES as int)
        &&& self.spec_words()[0] == self.spec_size()
    }

    /// The largest payload a block can hold: the payload, the header and
    /// the padding to a whole word must stay within the native allocation
    /// ceiling.
    pub open spec fn spec_fits(size: nat) -> bool {
        size + LAYOUT_OFFSET + (WORD_BYTES - 1) <= isize::MAX
    }

    fn unlikely_null() -> (r: Option<Unique>)
        ensures
            r is None,
    {
        None
    }

    /// Reserves a block for a payload of `size` bytes.
    ///
    /// Returns no block exactly when the payload cannot fit the native
    /// allocation ceiling.
    pub fn new(size: usize) -> (r: Option<Unique>)
        ensures
            Self::spec_fits(size as nat) <==> r is Some,
            r is Some ==> r->0.wf() && r->0.spec_size() == size,
    {
        if size <= (isize::MAX as usize) - LAYOUT_OFFSET - (WORD_BYTES - 1) {
            let payload_words: usize = (size + (WORD_BYTES - 1)) / WORD_BYTES;
            let mut words: Vec<u64> = Vec::new();
            words.push(size as u64);
            let mut i: usize = 0;
            while i < payload_words
                invariant
                    i <= payload_words,
                    words@.len() == 1 + i,
                    words@[0] == size as u64,
                decreases payload_words - i,
            {
                words.push(0);
                i = i + 1;
            }
            Some(Unique { words, size })
        } else {
            Self::unlikely_null()
        }
    }

    /// The payload size in bytes recorded at allocation.
    pub fn size(&self) -> (r: usize)
        ensures
            r == self.spec_size(),
    {
        self.size
    }

    /// Grants access to the whole block, header word included.
    ///
    /// The recorded size does not change; the payload starts one word past
    /// the front of the block.
    pub fn words_mut(&mut self) -> (r: &mut Vec<u64>)
        ensures
            r@ == old(self).spec_words(),
            final(self).spec_words() == final(r)@,
            final(self).spec_size() == old(self).spec_size(),
    {
        &mut self.words
    }

    /// Reads the whole block, header word included.
    pub fn words(&self) -> (r: &Vec<u64>)
        ensures
            r@ == self.spec_words(),
    {
        &self.words
    }
}

} // verus!
