//! Device descriptors

use vstd::prelude::*;

use crate::{desc, NonZeroU8, StringIndex};

verus! {

/// Device descriptor
pub struct Descriptor {
    /// Device class
    pub bDeviceClass: u8,
    /// Device subclass
    pub bDeviceSubClass: u8,
    /// Device protocol
    pub bDeviceProtocol: u8,
    /// Maximum packet size
    pub bMaxPacketSize0: bMaxPacketSize0,
    /// Vendor ID
    pub idVendor: u16,
    /// Product ID
    pub idProduct: u16,
    /// Device release number
    pub bcdDevice: u16,
    /// Manufacturer string index
    pub iManufacturer: Option<StringIndex>,
    /// Product string index
    pub iProduct: Option<StringIndex>,
    /// Serial number string index
    pub iSerialNumber: Option<StringIndex>,
    /// Number of configurations
    pub bNumConfigurations: NonZeroU8,
}

/// bcdUSB: release 2.0 of the USB specification, binary-coded decimal
pub const bcdUSB: u16 = 0x02_00;

/// Maximum packet size
#[derive(Clone, Copy, Debug, PartialEq, Eq, Structural)]
pub enum bMaxPacketSize0 {
    /// 8 bytes
    B8,
    /// 16 bytes
    B16,
    /// 32 bytes
    B32,
    /// 64 bytes
    B64,
}

impl bMaxPacketSize0 {
    /// The wire byte of this packet size: the size itself.
    pub open spec fn spec_byte(self) -> u8 {
        match self {
            bMaxPacketSize0::B8 => 8,
            bMaxPacketSize0::B16 => 16,
            bMaxPacketSize0::B32 => 32,
            bMaxPacketSize0::B64 => 64,
        }
    }

    fn byte(self) -> (r: u8)
        ensures
            r == self.spec_byte(),
    {
        match self {
            bMaxPacketSize0::B8 => 8,
            bMaxPacketSize0::B16 => 16,
            bMaxPacketSize0::B32 => 32,
            bMaxPacketSize0::B64 => 64,
        }
    }
}

impl Descriptor {
    /// The size of this descriptor on the wire
    pub const SIZE: u8 = 18;

    /// The exact wire bytes of this descriptor: length, type, bcdUSB
    /// little-endian, class, subclass, protocol, maximum packet size, vendor
    /// id, product id and release number little-endian, the three string
    /// indexes (zero when absent), and the number of configurations.
    pub open spec fn spec_bytes(self) -> Seq<u8> {
        seq![
            18u8,
            1u8,
            0x00u8,
            0x02u8,
            self.bDeviceClass,
            self.bDeviceSubClass,
            self.bDeviceProtocol,
            self.bMaxPacketSize0.spec_byte(),
            self.idVendor as u8,
            (self.idVendor >> 8) as u8,
            self.idProduct as u8,
            (self.idProduct >> 8) as u8,
            self.bcdDevice as u8,
            (self.bcdDevice >> 8) as u8,
            crate::spec_index_byte(self.iManufacturer),
            crate::spec_index_byte(self.iProduct),
            crate::spec_index_byte(self.iSerialNumber),
            self.bNumConfigurations.spec_get(),
        ]
    }

    /// Returns the wire representation of this descriptor
    pub fn bytes(&self) -> (r: [u8; 18])
        ensures
            r@ == self.spec_bytes(),
    {
        let r = [
            Self::SIZE,
            desc::Type::Device.byte(),
            bcdUSB as u8,
            (bcdUSB >> 8) as u8,
            self.bDeviceClass,
            self.bDeviceSubClass,
            self.bDeviceProtocol,
            self.bMaxPacketSize0.byte(),
            self.idVendor as u8,
            (self.idVendor >> 8) as u8,
            self.idProduct as u8,
            (self.idProduct >> 8) as u8,
            self.bcdDevice as u8,
            (self.bcdDevice >> 8) as u8,
            crate::index_byte(self.iManufacturer),
            crate::index_byte(self.iProduct),
            crate::index_byte(self.iSerialNumber),
            self.bNumConfigurations.get(),
        ];
        proof {
            assert(0x02_00u16 as u8 == 0x00 && (0x02_00u16 >> 8) as u8 == 0x02) by (bit_vector);
            assert(r@ =~= self.spec_bytes());
        }
        r
    }
}

} // verus!
