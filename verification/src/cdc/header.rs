//! CDC Header descriptors

use vstd::prelude::*;

verus! {

/// CDC Header functional descriptor
///
/// See section 5.2.3.1 of (USBCDC1.2)
pub struct Descriptor {
    /// Communications Devices Specification release number (Binary-coded Decimal)
    pub bcdCDC: u16,
}

impl Descriptor {
    /// The size of this descriptor on the wire
    pub const SIZE: u8 = 5;

    /// The exact wire bytes of this descriptor: length, the CS_INTERFACE
    /// type, the header subtype, and the release number little-endian.
    pub open spec fn spec_bytes(self) -> Seq<u8> {
        seq![5u8, 0x24u8, 0x00u8, self.bcdCDC as u8, (self.bcdCDC >> 8) as u8]
    }

    /// Returns the wire representation of this descriptor
    pub fn bytes(&self) -> (r: [u8; 5])
        ensures
            r@ == self.spec_bytes(),
    {
        let r = [
            Self::SIZE,
            super::CS_INTERFACE,
            super::SUBTYPE_HEADER,
            self.bcdCDC as u8,
            (self.bcdCDC >> 8) as u8,
        ];
        proof {
            assert(r@ =~= self.spec_bytes());
        }
        r
    }
}

} // verus!
