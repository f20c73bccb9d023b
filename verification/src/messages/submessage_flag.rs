use crate::common::endianness::Endianness;
use vstd::prelude::*;

verus! {

/// The flag byte of a submessage. Its lowest bit is the endianness of the
/// submessage; what the other bits mean depends on the kind of submessage.
#[derive(Copy, Clone, Debug, PartialEq, Eq, Structural)]
pub struct SubmessageFlag {
    pub flags: u8,
}

impl SubmessageFlag {
    /// The endianness that the flags announce: little-endian if the lowest
    /// bit is set, big-endian if it is clear.
    pub open spec fn endianness(&self) -> Endianness {
        if self.flags % 2 == 1 {
            Endianness::LittleEndian
        } else {
            Endianness::BigEndian
        }
    }

    /// Whether any bit of `mask` is set in the flags.
    pub open spec fn has_flag(&self, mask: u8) -> bool {
        self.flags & mask != 0
    }

    /// The endianness that the flags announce.
    pub fn endianness_flag(&self) -> (endianness: Endianness)
        ensures
            endianness == self.endianness(),
    {
        if self.flags % 2 == 1 {
            Endianness::LittleEndian
        } else {
            Endianness::BigEndian
        }
    }

    /// Whether any bit of `mask` is set in the flags.
    pub fn is_flag_set(&self, mask: u8) -> (set: bool)
        ensures
            set == self.has_flag(mask),
    {
        self.flags & mask != 0
    }
}

} // verus!
