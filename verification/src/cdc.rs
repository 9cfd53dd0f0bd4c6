//! Class Communication Device

use vstd::prelude::*;

use crate::NonZeroU8;

pub mod acm;
pub mod header;

verus! {

/// Communication Device
#[derive(Clone, Copy, Debug, PartialEq, Eq, Structural)]
pub enum Class {
    /// Communications Interface Class
    Communications {
        /// Communications class subclass
        subclass: SubClass,
        /// Communications class protocol
        protocol: Protocol,
    },
    /// Data interface class
    CdcData,
}

impl Class {
    /// The class code of this interface class: 2 for Communications, 10 for
    /// CDC Data.
    pub open spec fn spec_class(self) -> u8 {
        match self {
            Class::Communications { .. } => 2,
            Class::CdcData => 10,
        }
    }

    /// The subclass code: the subclass for a Communications interface, 0 for
    /// CDC Data.
    pub open spec fn spec_subclass(self) -> u8 {
        match self {
            Class::Communications { subclass, .. } => subclass.spec_byte(),
            Class::CdcData => 0,
        }
    }

    /// The protocol code: the protocol for a Communications interface, 0 for
    /// CDC Data.
    pub open spec fn spec_protocol(self) -> u8 {
        match self {
            Class::Communications { protocol, .. } => protocol.spec_byte(),
            Class::CdcData => 0,
        }
    }

    /// Class byte
    pub fn class(&self) -> (r: NonZeroU8)
        ensures
            r.spec_get() == self.spec_class(),
    {
        match self {
            Class::Communications { .. } => NonZeroU8::new(2).unwrap(),
            Class::CdcData => NonZeroU8::new(10).unwrap(),
        }
    }

    /// SubClass byte
    pub fn subclass(&self) -> (r: u8)
        ensures
            r == self.spec_subclass(),
    {
        match self {
            Class::Communications { subclass, .. } => subclass.byte(),
            Class::CdcData => 0,
        }
    }

    /// Protocol byte
    pub fn protocol(&self) -> (r: u8)
        ensures
            r == self.spec_protocol(),
    {
        match self {
            Class::Communications { protocol, .. } => protocol.byte(),
            Class::CdcData => 0,
        }
    }
}

/// Communications Class Subclass codes
#[derive(Clone, Copy, Debug, PartialEq, Eq, Structural)]
pub enum SubClass {
    /// Abstract Control Model
    AbstractControlModel,
}

impl SubClass {
    /// The wire code of this subclass.
    pub open spec fn spec_byte(self) -> u8 {
        match self {
            SubClass::AbstractControlModel => 0x02,
        }
    }

    fn byte(self) -> (r: u8)
        ensures
            r == self.spec_byte(),
    {
        match self {
            SubClass::AbstractControlModel => 0x02,
        }
    }
}

/// Communications Class Protocol codes
#[derive(Clone, Copy, Debug, PartialEq, Eq, Structural)]
pub enum Protocol {
    /// AT Commands
    ATCommands,
}

impl Protocol {
    /// The wire code of this protocol.
    pub open spec fn spec_byte(self) -> u8 {
        match self {
            Protocol::ATCommands => 1,
        }
    }

    fn byte(self) -> (r: u8)
        ensures
            r == self.spec_byte(),
    {
        match self {
            Protocol::ATCommands => 1,
        }
    }
}

/// CS_INTERFACE descriptor type: a class-specific interface descriptor
pub const CS_INTERFACE: u8 = 0x24;

/// Header functional descriptor subtype
pub const SUBTYPE_HEADER: u8 = 0x00;

/// Abstract Control Management functional descriptor subtype
pub const SUBTYPE_ACM: u8 = 0x02;

} // verus!
