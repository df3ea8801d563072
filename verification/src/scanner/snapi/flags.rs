//! The flag bytes of attribute packets.

use vstd::prelude::*;

verus! {

/// The flags of a packet that the host sends.
#[derive(Debug, PartialEq, Eq, Structural)]
pub struct SnapiAttributeRequestFlags {
    /// More packets of the request follow.
    pub has_next: bool,
    /// The packet is the first of the request.
    pub start: bool,
}

impl SnapiAttributeRequestFlags {
    /// The flags that a byte holds.
    pub open spec fn of_byte(byte: u8) -> SnapiAttributeRequestFlags {
        SnapiAttributeRequestFlags {
            has_next: byte & 0b1000_0000 > 0,
            start: byte & 0b0100_0000 > 0,
        }
    }

    /// The byte that holds the flags.
    pub open spec fn byte(self) -> u8 {
        match (self.has_next, self.start) {
            (true, true) => 0b1100_0000,
            (true, false) => 0b1000_0000,
            (false, true) => 0b0100_0000,
            (false, false) => 0b0000_0000,
        }
    }

    /// Reads the flags from a byte.
    pub fn from_byte(byte: u8) -> (flags: SnapiAttributeRequestFlags)
        ensures
            flags == SnapiAttributeRequestFlags::of_byte(byte),
    {
        SnapiAttributeRequestFlags {
            has_next: byte & 0b1000_0000 > 0,
            start: byte & 0b0100_0000 > 0,
        }
    }
}

impl From<u8> for SnapiAttributeRequestFlags {
    fn from(value: u8) -> (result: Self) {
        SnapiAttributeRequestFlags::from_byte(value)
    }
}

impl vstd::std_specs::convert::FromSpecImpl<u8> for SnapiAttributeRequestFlags {
    open spec fn obeys_from_spec() -> bool {
        true
    }

    open spec fn from_spec(value: u8) -> SnapiAttributeRequestFlags {
        SnapiAttributeRequestFlags::of_byte(value)
    }
}

impl From<SnapiAttributeRequestFlags> for u8 {
    fn from(value: SnapiAttributeRequestFlags) -> (result: u8) {
        let has_next: u8 = if value.has_next { 1 } else { 0 };
        let start: u8 = if value.start { 1 } else { 0 };
        proof {
            assert((1u8 << 7) | (1u8 << 6) == 0b1100_0000u8) by (bit_vector);
            assert((1u8 << 7) | (0u8 << 6) == 0b1000_0000u8) by (bit_vector);
            assert((0u8 << 7) | (1u8 << 6) == 0b0100_0000u8) by (bit_vector);
            assert((0u8 << 7) | (0u8 << 6) == 0u8) by (bit_vector);
        }
        (has_next << 7) | (start << 6)
    }
}

impl vstd::std_specs::convert::FromSpecImpl<SnapiAttributeRequestFlags> for u8 {
    open spec fn obeys_from_spec() -> bool {
        true
    }

    open spec fn from_spec(value: SnapiAttributeRequestFlags) -> u8 {
        value.byte()
    }
}

/// The flags of a packet that the device sends.
#[derive(Debug, PartialEq, Eq, Structural)]
pub struct SnapiAttributeResponseFlags {
    /// More packets of the answer follow.
    pub has_next: bool,
}

impl SnapiAttributeResponseFlags {
    /// The flags that a byte holds.
    pub open spec fn of_byte(byte: u8) -> SnapiAttributeResponseFlags {
        SnapiAttributeResponseFlags { has_next: byte & 0b0001_0000 > 0 }
    }

    /// The byte that the flags are written as. It is not the byte that they
    /// are read from: the bit is another one.
    pub open spec fn byte(self) -> u8 {
        if self.has_next {
            0b0010_0000
        } else {
            0b0000_0000
        }
    }

    /// Reads the flags from a byte.
    pub fn from_byte(byte: u8) -> (flags: SnapiAttributeResponseFlags)
        ensures
            flags == SnapiAttributeResponseFlags::of_byte(byte),
    {
        SnapiAttributeResponseFlags { has_next: byte & 0b0001_0000 > 0 }
    }
}

impl From<u8> for SnapiAttributeResponseFlags {
    fn from(value: u8) -> (result: Self) {
        SnapiAttributeResponseFlags::from_byte(value)
    }
}

impl vstd::std_specs::convert::FromSpecImpl<u8> for SnapiAttributeResponseFlags {
    open spec fn obeys_from_spec() -> bool {
        true
    }

    open spec fn from_spec(value: u8) -> SnapiAttributeResponseFlags {
        SnapiAttributeResponseFlags::of_byte(value)
    }
}

impl From<SnapiAttributeResponseFlags> for u8 {
    fn from(value: SnapiAttributeResponseFlags) -> (result: u8) {
        let has_next: u8 = if value.has_next { 1 } else { 0 };
        proof {
            assert(1u8 << 5 == 0b0010_0000u8) by (bit_vector);
            assert(0u8 << 5 == 0u8) by (bit_vector);
        }
        has_next << 5
    }
}

impl vstd::std_specs::convert::FromSpecImpl<SnapiAttributeResponseFlags> for u8 {
    open spec fn obeys_from_spec() -> bool {
        true
    }

    open spec fn from_spec(value: SnapiAttributeResponseFlags) -> u8 {
        value.byte()
    }
}

/// Request flags are read back from the byte that they are written as, and
/// writing what was read from a byte keeps its two upper bits and clears the
/// others.
pub proof fn law_request_flags_read_back(flags: SnapiAttributeRequestFlags, byte: u8)
    ensures
        SnapiAttributeRequestFlags::of_byte(flags.byte()) == flags,
        SnapiAttributeRequestFlags::of_byte(byte).byte() == byte & 0b1100_0000,
{
    assert(0b1100_0000u8 & 0b1000_0000 > 0 && 0b1100_0000u8 & 0b0100_0000 > 0) by (bit_vector);
    assert(0b1000_0000u8 & 0b1000_0000 > 0 && 0b1000_0000u8 & 0b0100_0000 == 0) by (bit_vector);
    assert(0b0100_0000u8 & 0b1000_0000 == 0 && 0b0100_0000u8 & 0b0100_0000 > 0) by (bit_vector);
    assert(0u8 & 0b1000_0000 == 0 && 0u8 & 0b0100_0000 == 0) by (bit_vector);
    assert(byte & 0b1100_0000 == (byte & 0b1000_0000) + (byte & 0b0100_0000)) by (bit_vector);
    assert(byte & 0b1000_0000 == 0 || byte & 0b1000_0000 == 0b1000_0000) by (bit_vector);
    assert(byte & 0b0100_0000 == 0 || byte & 0b0100_0000 == 0b0100_0000) by (bit_vector);
}

/// The flags of a last answer packet are read back from the byte that they are
/// written as.
pub proof fn law_last_response_flags_read_back(flags: SnapiAttributeResponseFlags)
    requires
        !flags.has_next,
    ensures
        SnapiAttributeResponseFlags::of_byte(flags.byte()) == flags,
{
    assert(0u8 & 0b0001_0000 == 0) by (bit_vector);
}

} // verus!
