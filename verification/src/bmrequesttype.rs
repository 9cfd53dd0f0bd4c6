//! The `bmRequestType` field of a SETUP packet.
//!
//! See section 9.3 of (USB2)

use vstd::prelude::*;

verus! {

/// Decoded form of the `bmRequestType` byte: direction in bit 7, request
/// type in bits 6-5, recipient in bits 3-0.
#[derive(Clone, Copy, Debug, PartialEq, Eq, Structural)]
pub struct bmRequestType {
    /// Transfer direction
    pub direction: Direction,
    /// Request type
    pub ty: Type,
    /// Request recipient
    pub recipient: Recipient,
}

/// Request direction
#[derive(Clone, Copy, Debug, PartialEq, Eq, Structural)]
pub enum Direction {
    /// Host to device
    HostToDevice,
    /// Device to host
    DeviceToHost,
}

impl Direction {
    /// The direction encoded by a value of bit 7 of `bmRequestType`.
    pub open spec fn spec_from(val: u8) -> Option<Direction> {
        if val == 0 {
            Some(Direction::HostToDevice)
        } else if val == 1 {
            Some(Direction::DeviceToHost)
        } else {
            None
        }
    }

    fn _from(val: u8) -> (r: Option<Direction>)
        ensures
            r == Direction::spec_from(val),
    {
        if val == 0 {
            Some(Direction::HostToDevice)
        } else if val == 1 {
            Some(Direction::DeviceToHost)
        } else {
            None
        }
    }
}

/// Request type
#[derive(Clone, Copy, Debug, PartialEq, Eq, Structural)]
pub enum Type {
    /// Standard request
    Standard,
    /// Class-specific request
    Class,
    /// Vendor-specific request
    Vendor,
}

impl Type {
    /// The request type encoded by a value of bits 6-5 of `bmRequestType`;
    /// the value 3 is reserved and encodes no type.
    pub open spec fn spec_from(val: u8) -> Option<Type> {
        if val == 0 {
            Some(Type::Standard)
        } else if val == 1 {
            Some(Type::Class)
        } else if val == 2 {
            Some(Type::Vendor)
        } else {
            None
        }
    }

    fn _from(val: u8) -> (r: Option<Type>)
        ensures
            r == Type::spec_from(val),
    {
        if val == 0 {
            Some(Type::Standard)
        } else if val == 1 {
            Some(Type::Class)
        } else if val == 2 {
            Some(Type::Vendor)
        } else {
            None
        }
    }
}

/// Request recipient
#[derive(Clone, Copy, Debug, PartialEq, Eq, Structural)]
pub enum Recipient {
    /// Request recipient = device
    Device,
    /// Request recipient = interface
    Interface,
    /// Request recipient = endpoint
    Endpoint,
    /// Request recipient = other
    Other,
}

impl Recipient {
    /// The recipient encoded by a value of bits 3-0 of `bmRequestType`;
    /// the values 4 through 15 are reserved and encode no recipient.
    pub open spec fn spec_from(val: u8) -> Option<Recipient> {
        if val == 0 {
            Some(Recipient::Device)
        } else if val == 1 {
            Some(Recipient::Interface)
        } else if val == 2 {
            Some(Recipient::Endpoint)
        } else if val == 3 {
            Some(Recipient::Other)
        } else {
            None
        }
    }

    fn _from(val: u8) -> (r: Option<Recipient>)
        ensures
            r == Recipient::spec_from(val),
    {
        if val == 0 {
            Some(Recipient::Device)
        } else if val == 1 {
            Some(Recipient::Interface)
        } else if val == 2 {
            Some(Recipient::Endpoint)
        } else if val == 3 {
            Some(Recipient::Other)
        } else {
            None
        }
    }
}

impl bmRequestType {
    /// What `parse` returns: the three fields decoded from bit 7, bits 6-5
    /// and bits 3-0, or a rejection when the type or recipient field holds
    /// a reserved value.
    pub open spec fn spec_parse(byte: u8) -> Result<bmRequestType, ()> {
        match (
            Direction::spec_from(byte >> 7),
            Type::spec_from((byte >> 5) & 0b11),
            Recipient::spec_from(byte & 0b1111),
        ) {
            (Some(direction), Some(ty), Some(recipient)) => Ok(
                bmRequestType { direction, ty, recipient },
            ),
            _ => Err(()),
        }
    }

    /// Splits a raw `bmRequestType` byte into direction, type and recipient.
    pub fn parse(bmrequesttype: u8) -> (r: Result<Self, ()>)
        ensures
            r == Self::spec_parse(bmrequesttype),
    {
        let direction = match Direction::_from(bmrequesttype >> 7) {
            Some(direction) => direction,
            None => return Err(()),
        };
        let ty = match Type::_from((bmrequesttype >> 5) & 0b11) {
            Some(ty) => ty,
            None => return Err(()),
        };
        let recipient = match Recipient::_from(bmrequesttype & 0b1111) {
            Some(recipient) => recipient,
            None => return Err(()),
        };

        Ok(Self { direction, ty, recipient })
    }
}

/// Parsing a request-type byte succeeds exactly when its type field
/// (bits 6-5) is 0, 1 or 2 and its recipient field (bits 3-0) is 0
/// through 3; the direction is exactly bit 7.
pub proof fn lemma_parse_request_type_byte(byte: u8)
    ensures
        bmRequestType::spec_parse(byte) is Ok <==> ((byte >> 5) & 0b11 != 3 && (byte & 0b1111)
            < 4),
        bmRequestType::spec_parse(byte) is Ok ==> {
            let rt = bmRequestType::spec_parse(byte)->Ok_0;
            &&& (rt.direction is DeviceToHost <==> byte >> 7 == 1)
            &&& (rt.direction is HostToDevice <==> byte >> 7 == 0)
        },
{
    assert(byte >> 7 == 0 || byte >> 7 == 1) by (bit_vector);
    assert((byte >> 5) & 0b11 < 4) by (bit_vector);
    assert(byte & 0b1111 < 16) by (bit_vector);
}

} // verus!
