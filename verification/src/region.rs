//! The mapped region as the workers see it: a fixed, read-only run of bytes
//! that is never empty.

use vstd::prelude::*;

verus! {

/// A shared, read-only view of the mapped bytes. A region holds at least one
/// byte, so every offset reduced modulo its length can be read.
pub struct Region<'a> {
    bytes: &'a [u8],
}

impl<'a> Region<'a> {
    #[verifier::type_invariant]
    spec fn holds_a_byte(self) -> bool {
        self.bytes@.len() > 0
    }

    /// The bytes of the region.
    pub closed spec fn view(&self) -> Seq<u8> {
        self.bytes@
    }

    /// The region over `bytes`, or `None` where `bytes` is empty.
    pub fn new(bytes: &'a [u8]) -> (region: Option<Region<'a>>)
        ensures
            region is None <==> bytes@.len() == 0,
            region matches Some(made) ==> made@ == bytes@,
    {
        if bytes.len() == 0 {
            None
        } else {
            Some(Region { bytes })
        }
    }

    /// Length of the region in bytes; never zero.
    pub fn len(&self) -> (len: usize)
        ensures
            len == self@.len(),
            len > 0,
    {
        proof {
            use_type_invariant(self);
        }
        self.bytes.len()
    }

    /// The byte at `offset`.
    pub fn byte_at(&self, offset: usize) -> (byte: u8)
        requires
            offset < self@.len(),
        ensures
            byte == self@[offset as int],
    {
        self.bytes[offset]
    }
}

} // verus!
