//! The statistics register that counts received frames of 65 to 127 bytes.
use crate::field::extract_spec;
use crate::register::{FieldReader, R};
use vstd::prelude::*;

verus! {

/// Offset of the `NFRX` field.
pub const NFRX_OFFSET: u32 = 0;

/// Width of the `NFRX` field.
pub const NFRX_WIDTH: u32 = 32;

impl R {
    /// Bits 0:31: frames of 65 to 127 bytes received without error.
    pub fn nfrx(&self) -> (r: FieldReader)
        ensures
            r.bits_spec() == extract_spec(self.bits_spec(), NFRX_OFFSET, NFRX_WIDTH),
            r.bits_spec() == self.bits_spec(),
    {
        let r = self.field(NFRX_OFFSET, NFRX_WIDTH);
        proof {
            let b = self.bits_spec();
            assert((b >> 0u32) & 0xffff_ffffu32 == b) by (bit_vector);
        }
        r
    }
}

} // verus!
