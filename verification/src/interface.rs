//! Interface descriptors

use vstd::prelude::*;

use crate::{desc, NonZeroU8};

verus! {

/// Interface descriptor
///
/// See section 9.6.5 of (USB2)
pub struct Descriptor {
    /// Interface number
    pub bInterfaceNumber: u8,
    /// Alternative setting
    pub bAlternativeSetting: u8,
    /// Number of endpoints
    pub bNumEndpoints: u8,
    /// Interface class
    pub bInterfaceClass: u8,
    /// Interface subclass
    pub bInterfaceSubClass: u8,
    /// Interface protocol
    pub bInterfaceProtocol: u8,
    /// Interface string descriptor index
    pub iInterface: Option<NonZeroU8>,
}

impl Descriptor {
    /// The size of this descriptor in bytes
    pub const SIZE: u8 = 9;

    /// The exact wire bytes of this descriptor: length, type, interface
    /// number, alternate setting, endpoint count, class, subclass, protocol,
    /// and the string index (zero when absent).
    pub open spec fn spec_bytes(self) -> Seq<u8> {
        seq![
            9u8,
            4u8,
            self.bInterfaceNumber,
            self.bAlternativeSetting,
            self.bNumEndpoints,
            self.bInterfaceClass,
            self.bInterfaceSubClass,
            self.bInterfaceProtocol,
            crate::spec_index_byte(self.iInterface),
        ]
    }

    /// Returns the byte representation of this descriptor
    pub fn bytes(&self) -> (r: [u8; 9])
        ensures
            r@ == self.spec_bytes(),
    {
        let r = [
            Self::SIZE,
            desc::Type::Interface.byte(),
            self.bInterfaceNumber,
            self.bAlternativeSetting,
            self.bNumEndpoints,
            self.bInterfaceClass,
            self.bInterfaceSubClass,
            self.bInterfaceProtocol,
            crate::index_byte(self.iInterface),
        ];
        proof {
            assert(r@ =~= self.spec_bytes());
        }
        r
    }
}

} // verus!
