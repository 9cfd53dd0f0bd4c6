//! Descriptor type codes
//!
//! See table 9-5 of (USB2) and (USBIAD)

use vstd::prelude::*;

verus! {

/// Descriptor types
#[derive(Clone, Copy, Debug, PartialEq, Eq, Structural)]
pub enum Type {
    /// Device descriptor type
    Device,
    /// Configuration descriptor type
    Configuration,
    /// String descriptor type
    String,
    /// Interface descriptor type
    Interface,
    /// Endpoint descriptor type
    Endpoint,
    /// Device qualifier descriptor type
    DeviceQualifier,
    /// Other speed configuration descriptor type
    OtherSpeedConfiguration,
    /// Interface power descriptor type
    InterfacePower,
    /// Interface association descriptor type
    InterfaceAssociation,
}

impl Type {
    /// The wire code of this descriptor type.
    pub open spec fn spec_byte(self) -> u8 {
        match self {
            Type::Device => 1,
            Type::Configuration => 2,
            Type::String => 3,
            Type::Interface => 4,
            Type::Endpoint => 5,
            Type::DeviceQualifier => 6,
            Type::OtherSpeedConfiguration => 7,
            Type::InterfacePower => 8,
            Type::InterfaceAssociation => 11,
        }
    }

    /// The descriptor type named by a wire code, if any.
    pub open spec fn spec_from(val: u8) -> Option<Type> {
        if val == 1 {
            Some(Type::Device)
        } else if val == 2 {
            Some(Type::Configuration)
        } else if val == 3 {
            Some(Type::String)
        } else if val == 4 {
            Some(Type::Interface)
        } else if val == 5 {
            Some(Type::Endpoint)
        } else if val == 6 {
            Some(Type::DeviceQualifier)
        } else if val == 7 {
            Some(Type::OtherSpeedConfiguration)
        } else if val == 8 {
            Some(Type::InterfacePower)
        } else if val == 11 {
            Some(Type::InterfaceAssociation)
        } else {
            None
        }
    }

    pub(crate) fn _from(val: u8) -> (r: Option<Type>)
        ensures
            r == Type::spec_from(val),
    {
        if val == 1 {
            Some(Type::Device)
        } else if val == 2 {
            Some(Type::Configuration)
        } else if val == 3 {
            Some(Type::String)
        } else if val == 4 {
            Some(Type::Interface)
        } else if val == 5 {
            Some(Type::Endpoint)
        } else if val == 6 {
            Some(Type::DeviceQualifier)
        } else if val == 7 {
            Some(Type::OtherSpeedConfiguration)
        } else if val == 8 {
            Some(Type::InterfacePower)
        } else if val == 11 {
            Some(Type::InterfaceAssociation)
        } else {
            None
        }
    }

    pub(crate) fn byte(self) -> (r: u8)
        ensures
            r == self.spec_byte(),
    {
        match self {
            Type::Device => 1,
            Type::Configuration => 2,
            Type::String => 3,
            Type::Interface => 4,
            Type::Endpoint => 5,
            Type::DeviceQualifier => 6,
            Type::OtherSpeedConfiguration => 7,
            Type::InterfacePower => 8,
            Type::InterfaceAssociation => 11,
        }
    }
}

} // verus!
