//! Interface Association Descriptors

use vstd::prelude::*;

use crate::{desc, NonZeroU8};

verus! {

/// Interface Association Descriptor
///
/// See (USBIAD)
pub struct Descriptor {
    /// Interface number of the first interface associated with this function
    pub bFirstInterface: u8,
    /// Number of contiguous interfaces associated to this function
    pub bInterfaceCount: NonZeroU8,
    /// Class code
    pub bFunctionClass: NonZeroU8,
    /// Subclass code
    pub bFunctionSubClass: u8,
    /// Protocol code
    pub bFunctionProtocol: u8,
    /// Index of string descriptor describing this function
    pub iFunction: Option<NonZeroU8>,
}

impl Descriptor {
    /// The size of this descriptor in bytes
    pub const SIZE: u8 = 8;

    /// The exact wire bytes of this descriptor: length, type, first
    /// interface, interface count, function class, subclass and protocol,
    /// and the string index (zero when absent).
    pub open spec fn spec_bytes(self) -> Seq<u8> {
        seq![
            8u8,
            11u8,
            self.bFirstInterface,
            self.bInterfaceCount.spec_get(),
            self.bFunctionClass.spec_get(),
            self.bFunctionSubClass,
            self.bFunctionProtocol,
            crate::spec_index_byte(self.iFunction),
        ]
    }

    /// Returns the byte representation of this descriptor
    pub fn bytes(&self) -> (r: [u8; 8])
        ensures
            r@ == self.spec_bytes(),
    {
        let r = [
            Self::SIZE,
            desc::Type::InterfaceAssociation.byte(),
            self.bFirstInterface,
            self.bInterfaceCount.get(),
            self.bFunctionClass.get(),
            self.bFunctionSubClass,
            self.bFunctionProtocol,
            crate::index_byte(self.iFunction),
        ];
        proof {
            assert(r@ =~= self.spec_bytes());
        }
        r
    }
}

} // verus!
