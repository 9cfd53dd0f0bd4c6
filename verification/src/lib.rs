//! USB 2.0 data types
//!
//! Decodes raw control-transfer SETUP packets into typed request values and
//! encodes device, configuration and class descriptors into their exact wire
//! byte sequences.
//!
//! Every parser states, as its contract, exactly which raw field values it
//! accepts and which typed value each accepted input becomes; every encoder
//! states the exact bytes it produces.
//!
//! # References
//!
//! - (USB2) Universal Serial Bus Specification Revision 2.0 (April 27, 2000)
//! - (USBCDC1.2) Universal Serial Bus Class Definitions for Communications Devices 1.2 (Errata 1)
//!   (November 3, 2010)
//! - (USBIAD) Interface Association Descriptors Engineering Change Notice
//! - (HID1.11) Device Class Definition for Human Interface Devices (HID) version 1.11 (6/27/01)

#![allow(non_camel_case_types)]
#![allow(non_snake_case)]
#![allow(non_upper_case_globals)]

use vstd::prelude::*;

pub mod bmrequesttype;
pub mod brequest;
pub mod cdc;
mod desc;
pub mod device;
pub mod endpoint;
pub mod feature;
pub mod hid;
pub mod ia;
pub mod interface;

use crate::bmrequesttype::{bmRequestType, Recipient};
use crate::cdc::acm;

verus! {

/// A byte known to be non-zero.
///
/// Several USB fields use zero as an "absent" sentinel; this type carries the
/// other values, so that "absent" and "present with value `n`" cannot be
/// confused. The held value can only be read through [`NonZeroU8::get`].
#[derive(Clone, Copy, Debug, PartialEq, Eq, Structural)]
pub struct NonZeroU8 {
    n: u8,
}

impl NonZeroU8 {
    /// The byte this value holds.
    pub closed spec fn spec_get(self) -> u8 {
        self.n
    }

    /// What [`NonZeroU8::new`] returns: `None` for zero, the wrapped byte
    /// otherwise.
    pub closed spec fn spec_new(n: u8) -> Option<NonZeroU8> {
        if n == 0 {
            None
        } else {
            Some(NonZeroU8 { n })
        }
    }

    /// Wraps a byte; zero has no non-zero form.
    pub fn new(n: u8) -> (r: Option<NonZeroU8>)
        ensures
            r == NonZeroU8::spec_new(n),
            r is Some <==> n != 0,
            r is Some ==> r->0.spec_get() == n,
    {
        if n == 0 {
            None
        } else {
            Some(NonZeroU8 { n })
        }
    }

    /// Returns the held byte.
    pub fn get(self) -> (r: u8)
        ensures
            r == self.spec_get(),
    {
        self.n
    }
}

/// The byte an optional index field serializes to: an absent index is zero.
pub open spec fn spec_index_byte(index: Option<NonZeroU8>) -> u8 {
    match index {
        Some(index) => index.spec_get(),
        None => 0,
    }
}

pub(crate) fn index_byte(index: Option<NonZeroU8>) -> (r: u8)
    ensures
        r == spec_index_byte(index),
{
    match index {
        Some(index) => index.get(),
        None => 0,
    }
}

/// Device address assigned by the host; will be in the range 1..=127
pub type Address = NonZeroU8;

/// String descriptor index
pub type StringIndex = NonZeroU8;

/// The state of the USB device
#[derive(Clone, Copy, Debug, PartialEq, Eq, Structural)]
pub enum State {
    /// The default state
    Default,
    /// The address-ed state
    Address(Address),
    /// The configured state
    Configured {
        /// The address of the device
        address: Address,
        /// The configuration value
        value: NonZeroU8,
    },
}

/// Direction from the point of view of the host
#[derive(Clone, Copy, Debug, PartialEq, Eq, Structural)]
pub enum Direction {
    /// Host to Device
    Out,
    /// Device to Host
    In,
}

impl Direction {
    /// The bit this direction contributes to bit 7 of an endpoint address
    /// byte: 0 for Out, 1 for In.
    pub open spec fn spec_bit(self) -> u8 {
        match self {
            Direction::Out => 0,
            Direction::In => 1,
        }
    }
}

/// Endpoint address
#[derive(Clone, Copy, Debug, PartialEq, Eq, Structural)]
pub struct Endpoint {
    /// Endpoint direction
    pub direction: Direction,
    /// Endpoint number
    pub number: u8,
}

impl Endpoint {
    /// The endpoint address byte: direction in bit 7, number in bits 3-0.
    pub open spec fn spec_byte(self) -> u8 {
        (self.number & 0b1111) | (self.direction.spec_bit() << 7)
    }

    pub(crate) fn byte(&self) -> (r: u8)
        ensures
            r == self.spec_byte(),
    {
        let direction: u8 = match self.direction {
            Direction::Out => 0,
            Direction::In => 1,
        };
        (self.number & 0b1111) | (direction << 7)
    }
}

/// What [`windex2endpoint`] returns: the `wIndex` field decoded as an
/// endpoint address.
///
/// The high byte must be zero and bits 7-4 of the low byte must be exactly
/// `0b0000` (Out) or `0b1000` (In); any other value of those bits holds a
/// set reserved bit and is rejected. The endpoint number is bits 3-0.
pub open spec fn spec_windex2endpoint(windex: u16) -> Result<Endpoint, ()> {
    if windex >> 8 != 0 {
        Err(())
    } else {
        let low = windex as u8;
        if low >> 4 == 0b0000 {
            Ok(Endpoint { direction: Direction::Out, number: low & 0b1111 })
        } else if low >> 4 == 0b1000 {
            Ok(Endpoint { direction: Direction::In, number: low & 0b1111 })
        } else {
            Err(())
        }
    }
}

/// Decodes the `wIndex` field of an endpoint-addressed request into an
/// endpoint address.
pub fn windex2endpoint(windex: u16) -> (r: Result<Endpoint, ()>)
    ensures
        r == spec_windex2endpoint(windex),
{
    if windex >> 8 != 0 {
        return Err(());
    }

    let low = windex as u8;
    let direction = if low >> 4 == 0b0000 {
        Direction::Out
    } else if low >> 4 == 0b1000 {
        Direction::In
    } else {
        return Err(());
    };

    Ok(Endpoint { direction, number: low & 0b1111 })
}

/// Decoding `wIndex` as an endpoint succeeds exactly when the high byte is
/// zero and bits 7-4 of the low byte are 0 or 8; the direction is In exactly
/// for 8, and the endpoint number is bits 3-0.
pub proof fn lemma_windex2endpoint(windex: u16)
    ensures
        spec_windex2endpoint(windex) is Ok <==> (windex >> 8 == 0 && ((windex as u8) >> 4 == 0b0000
            || (windex as u8) >> 4 == 0b1000)),
        spec_windex2endpoint(windex) is Ok ==> {
            let ep = spec_windex2endpoint(windex)->Ok_0;
            &&& ep.number == (windex as u8) & 0b1111
            &&& (ep.direction is In <==> (windex as u8) >> 4 == 0b1000)
            &&& (ep.direction is Out <==> (windex as u8) >> 4 == 0b0000)
        },
{
}

/// What [`windex2interface`] returns: the `wIndex` field decoded as an
/// interface number.
///
/// Interface numbers are 8-bit values; the high byte of `wIndex` is
/// reserved-zero in interface-addressed requests, so any value above 255 is
/// rejected.
pub open spec fn spec_windex2interface(windex: u16) -> Result<u8, ()> {
    if windex >> 8 != 0 {
        Err(())
    } else {
        Ok(windex as u8)
    }
}

/// Decodes the `wIndex` field of an interface-addressed request into an
/// interface number.
pub fn windex2interface(windex: u16) -> (r: Result<u8, ()>)
    ensures
        r == spec_windex2interface(windex),
{
    if windex >> 8 != 0 {
        Err(())
    } else {
        Ok(windex as u8)
    }
}

/// Control endpoint requests
#[derive(Clone, Copy, Debug, PartialEq, Eq, Structural)]
pub enum Request {
    /// Standard device request
    Standard(StandardRequest),
    /// CDC Abstract Control Model interface request
    Acm(acm::Request),
    /// Human Interface Device (HID) request
    Hid(hid::Request),
}

impl Request {
    /// What [`Request::parse`] returns.
    ///
    /// The request-type byte is decoded first and a failure there rejects the
    /// whole request. The grammars tried then depend on the declared type,
    /// in a fixed order that is part of this library's contract:
    ///
    /// - Standard: the standard grammar, and on its failure the HID grammar
    ///   against the same decoded fields (some hosts send HID class requests
    ///   with a Standard-typed `bmRequestType`);
    /// - Class: the ACM grammar, and on its failure the HID grammar;
    /// - Vendor: always rejected; no vendor grammar is registered.
    ///
    /// The first grammar to accept wins; when all fail the request is
    /// rejected.
    pub open spec fn spec_parse(
        bmrequesttype: u8,
        brequest: u8,
        wvalue: u16,
        windex: u16,
        wlength: u16,
    ) -> Result<Request, ()> {
        match bmRequestType::spec_parse(bmrequesttype) {
            Err(_) => Err(()),
            Ok(rt) => match rt.ty {
                bmrequesttype::Type::Standard => match StandardRequest::spec_parse2(
                    rt,
                    brequest,
                    wvalue,
                    windex,
                    wlength,
                ) {
                    Ok(standard) => Ok(Request::Standard(standard)),
                    Err(_) => match hid::Request::spec_parse2(
                        rt,
                        brequest,
                        wvalue,
                        windex,
                        wlength,
                    ) {
                        Ok(hid) => Ok(Request::Hid(hid)),
                        Err(_) => Err(()),
                    },
                },
                bmrequesttype::Type::Class => match acm::Request::spec_parse2(
                    rt,
                    brequest,
                    wvalue,
                    windex,
                    wlength,
                ) {
                    Ok(acm) => Ok(Request::Acm(acm)),
                    Err(_) => match hid::Request::spec_parse2(
                        rt,
                        brequest,
                        wvalue,
                        windex,
                        wlength,
                    ) {
                        Ok(hid) => Ok(Request::Hid(hid)),
                        Err(_) => Err(()),
                    },
                },
                bmrequesttype::Type::Vendor => Err(()),
            },
        }
    }

    /// Parses a control endpoint request
    pub fn parse(bmrequesttype: u8, brequest: u8, wvalue: u16, windex: u16, wlength: u16) -> (r:
        Result<Self, ()>)
        ensures
            r == Request::spec_parse(bmrequesttype, brequest, wvalue, windex, wlength),
    {
        let bmrequesttype = match bmRequestType::parse(bmrequesttype) {
            Ok(rt) => rt,
            Err(_) => return Err(()),
        };

        match bmrequesttype.ty {
            bmrequesttype::Type::Standard => {
                match StandardRequest::parse2(bmrequesttype, brequest, wvalue, windex, wlength) {
                    Ok(standard) => Ok(Request::Standard(standard)),
                    Err(_) => {
                        match hid::Request::parse2(bmrequesttype, brequest, wvalue, windex, wlength) {
                            Ok(hid) => Ok(Request::Hid(hid)),
                            Err(_) => Err(()),
                        }
                    },
                }
            },
            bmrequesttype::Type::Class => {
                match acm::Request::parse2(bmrequesttype, brequest, wvalue, windex, wlength) {
                    Ok(acm) => Ok(Request::Acm(acm)),
                    Err(_) => {
                        match hid::Request::parse2(bmrequesttype, brequest, wvalue, windex, wlength) {
                            Ok(hid) => Ok(Request::Hid(hid)),
                            Err(_) => Err(()),
                        }
                    },
                }
            },
            bmrequesttype::Type::Vendor => Err(()),
        }
    }
}

/// Standard device requests
///
/// See section 9.4 of (USB2)
#[derive(Clone, Copy, Debug, PartialEq, Eq, Structural)]
pub enum StandardRequest {
    /// CLEAR_FEATURE
    ClearFeature(ClearFeature),
    /// GET_CONFIGURATION
    GetConfiguration,
    /// GET_DESCRIPTOR
    GetDescriptor {
        /// Requested descriptor
        descriptor: GetDescriptor,
        /// Maximum number of bytes to return
        length: u16,
    },
    /// GET_INTERFACE -- returns the alternate setting of the specified interface
    GetInterface {
        /// The interface
        interface: u8,
    },
    /// GET_STATUS
    GetStatus(GetStatus),
    /// SET_ADDRESS
    SetAddress {
        /// The new address -- `None` is used to return to the `Default` state
        address: Option<Address>,
    },
    /// SET_CONFIGURATION
    SetConfiguration {
        /// The new configuration -- `None` is used to return to the `Address` state
        value: Option<NonZeroU8>,
    },
    /// SET_DESCRIPTOR
    SetDescriptor {
        /// The descriptor to set or change
        descriptor: SetDescriptor,
        /// The length of the descriptor
        length: u16,
    },
    /// SET_FEATURE
    SetFeature(SetFeature),
    /// SET_INTERFACE -- changes the alternate setting of the specified interface
    SetInterface {
        /// The interface to modify
        interface: u8,
        /// The new alternate setting
        alternate: u8,
    },
    /// SYNCH_FRAME
    SynchFrame {
        /// The endpoint this synchronization frame is for
        endpoint: Endpoint,
    },
}

/// GET_DESCRIPTOR descriptor
///
/// See section 9.4.3 and table 9-5 of (USB2)
#[derive(Clone, Copy, Debug, PartialEq, Eq, Structural)]
pub enum GetDescriptor {
    /// Configuration descriptor
    Configuration {
        /// Configuration descriptor index (`0..bNumConfigurations`)
        index: u8,
    },
    /// Device descriptor
    Device,
    /// Device qualifier descriptor
    DeviceQualifier,
    /// Other speed configuration descriptor
    OtherSpeedConfiguration {
        /// Other speed configuration descriptor index
        index: u8,
    },
    /// String descriptor
    String {
        /// String descriptor index
        index: u8,
        /// Language identifier
        lang_id: u16,
    },
}

/// SET_DESCRIPTOR descriptor
///
/// See section 9.4.8 and table 9-5 of (USB2)
#[derive(Clone, Copy, Debug, PartialEq, Eq, Structural)]
pub enum SetDescriptor {
    /// Configuration descriptor
    Configuration {
        /// Configuration descriptor index (`0..bNumConfigurations`)
        index: u8,
    },
    /// Device descriptor
    Device,
    /// String descriptor
    String {
        /// String descriptor index
        index: u8,
        /// Language identifier
        lang_id: u16,
    },
}

/// The largest device address a host can assign
pub const MAX_ADDRESS: u16 = 127;

/// CLEAR_FEATURE feature selector
///
/// See table 9-6 of (USB2)
#[derive(Clone, Copy, Debug, PartialEq, Eq, Structural)]
pub enum ClearFeature {
    /// Disables the device remote wake-up feature
    DeviceRemoteWakeup,
    /// "Unhalts" the specified endpoint
    EndpointHalt(Endpoint),
}

/// Argument of the GET_STATUS request
///
/// See section 9.4.5 of (USB2)
#[derive(Clone, Copy, Debug, PartialEq, Eq, Structural)]
pub enum GetStatus {
    /// Device status
    Device,
    /// Endpoint status
    Endpoint(Endpoint),
    /// Interface status
    Interface(u8),
}

/// SET_FEATURE feature selector
///
/// See table 9-6 of (USB2)
#[derive(Clone, Copy, Debug, PartialEq, Eq, Structural)]
pub enum SetFeature {
    /// Enables the device remote wake-up feature
    DeviceRemoteWakeup,
    /// Halts the specified endpoint
    EndpointHalt(Endpoint),
    /// Enables the specified test mode
    TestMode(Test),
}

/// Test selector
///
/// See table 9-7 of (USB2)
#[derive(Clone, Copy, Debug, PartialEq, Eq, Structural)]
pub enum Test {
    /// Test_J
    J,
    /// Test_K
    K,
    /// Test_SE0_NAK
    SE0_NAK,
    /// Test_Packet
    Packet,
    /// Test_Force_Enable
    ForceEnable,
}

impl Test {
    /// The test mode selected by a value of the high byte of `wIndex`;
    /// only the values 1 through 5 select a test mode.
    pub open spec fn spec_from(val: u8) -> Option<Test> {
        if val == 0x01 {
            Some(Test::J)
        } else if val == 0x02 {
            Some(Test::K)
        } else if val == 0x03 {
            Some(Test::SE0_NAK)
        } else if val == 0x04 {
            Some(Test::Packet)
        } else if val == 0x05 {
            Some(Test::ForceEnable)
        } else {
            None
        }
    }

    pub(crate) fn _from(val: u8) -> (r: Option<Test>)
        ensures
            r == Test::spec_from(val),
    {
        if val == 0x01 {
            Some(Test::J)
        } else if val == 0x02 {
            Some(Test::K)
        } else if val == 0x03 {
            Some(Test::SE0_NAK)
        } else if val == 0x04 {
            Some(Test::Packet)
        } else if val == 0x05 {
            Some(Test::ForceEnable)
        } else {
            None
        }
    }
}

impl StandardRequest {
    /// What [`StandardRequest::parse`] returns: the request-type byte is
    /// decoded first, and a request whose declared type is not Standard is
    /// rejected before the grammar is consulted.
    pub open spec fn spec_parse(
        bmrequesttype: u8,
        brequest: u8,
        wvalue: u16,
        windex: u16,
        wlength: u16,
    ) -> Result<StandardRequest, ()> {
        match bmRequestType::spec_parse(bmrequesttype) {
            Err(_) => Err(()),
            Ok(rt) => {
                if rt.ty is Standard {
                    StandardRequest::spec_parse2(rt, brequest, wvalue, windex, wlength)
                } else {
                    Err(())
                }
            },
        }
    }

    /// The standard request grammar: one rule per request code, keyed on
    /// `(bRequest, direction)`, each with the exact recipient, `wValue`,
    /// `wIndex` and `wLength` combination that table 9-3 of (USB2) requires.
    /// No rule matches partially: when the values fail any constraint of the
    /// rule keyed on their request code, the whole parse is rejected.
    pub open spec fn spec_parse2(
        rt: bmRequestType,
        brequest: u8,
        wvalue: u16,
        windex: u16,
        wlength: u16,
    ) -> Result<StandardRequest, ()> {
        let direction = rt.direction;
        let recipient = rt.recipient;
        // see section 9.4.1 of (USB2)
        if brequest == brequest::CLEAR_FEATURE && direction is HostToDevice && !(recipient
            is Other) && wlength == 0 {
            if wvalue == feature::DEVICE_REMOTE_WAKEUP && recipient is Device && windex == 0 {
                Ok(StandardRequest::ClearFeature(ClearFeature::DeviceRemoteWakeup))
            } else if wvalue == feature::ENDPOINT_HALT && recipient is Endpoint {
                match spec_windex2endpoint(windex) {
                    Ok(ep) => Ok(StandardRequest::ClearFeature(ClearFeature::EndpointHalt(ep))),
                    Err(_) => Err(()),
                }
            } else {
                Err(())
            }
        } else  // see section 9.4.2 of (USB2)
        if brequest == brequest::GET_CONFIGURATION && direction is DeviceToHost && recipient
            is Device && wvalue == 0 && windex == 0 && wlength == 1 {
            Ok(StandardRequest::GetConfiguration)
        } else  // see section 9.4.3 of (USB2)
        if brequest == brequest::GET_DESCRIPTOR && direction is DeviceToHost && recipient
            is Device {
            let desc_ty = (wvalue >> 8) as u8;
            let desc_idx = wvalue as u8;
            // table 9-5 of (USB2): 1 = Device, 2 = Configuration, 3 = String,
            // 6 = DeviceQualifier, 7 = OtherSpeedConfiguration; no other
            // descriptor type can appear in a GET_DESCRIPTOR request
            let desc = if desc_ty == 1 && desc_idx == 0 && windex == 0 {
                Ok(GetDescriptor::Device)
            } else if desc_ty == 6 && desc_idx == 0 && windex == 0 {
                Ok(GetDescriptor::DeviceQualifier)
            } else if desc_ty == 2 && windex == 0 {
                Ok(GetDescriptor::Configuration { index: desc_idx })
            } else if desc_ty == 7 && windex == 0 {
                Ok(GetDescriptor::OtherSpeedConfiguration { index: desc_idx })
            } else if desc_ty == 3 {
                Ok(GetDescriptor::String { index: desc_idx, lang_id: windex })
            } else {
                Err(())
            };
            match desc {
                Ok(descriptor) => Ok(
                    StandardRequest::GetDescriptor { descriptor, length: wlength },
                ),
                Err(_) => Err(()),
            }
        } else  // see section 9.4.4 of (USB2)
        if brequest == brequest::GET_INTERFACE && direction is DeviceToHost && recipient
            is Interface && wvalue == 0 && wlength == 1 {
            match spec_windex2interface(windex) {
                Ok(interface) => Ok(StandardRequest::GetInterface { interface }),
                Err(_) => Err(()),
            }
        } else  // see section 9.4.5 of (USB2)
        if brequest == brequest::GET_STATUS && direction is DeviceToHost && wvalue == 0 && wlength
            == 2 {
            if recipient is Device && windex == 0 {
                Ok(StandardRequest::GetStatus(GetStatus::Device))
            } else if recipient is Endpoint {
                match spec_windex2endpoint(windex) {
                    Ok(ep) => Ok(StandardRequest::GetStatus(GetStatus::Endpoint(ep))),
                    Err(_) => Err(()),
                }
            } else if recipient is Interface {
                match spec_windex2interface(windex) {
                    Ok(interface) => Ok(
                        StandardRequest::GetStatus(GetStatus::Interface(interface)),
                    ),
                    Err(_) => Err(()),
                }
            } else {
                Err(())
            }
        } else  // see section 9.4.6 of (USB2)
        if brequest == brequest::SET_ADDRESS && direction is HostToDevice && recipient is Device
            && windex == 0 && wlength == 0 && wvalue <= MAX_ADDRESS {
            Ok(StandardRequest::SetAddress { address: NonZeroU8::spec_new(wvalue as u8) })
        } else  // see section 9.4.7 of (USB2)
        if brequest == brequest::SET_CONFIGURATION && direction is HostToDevice && recipient
            is Device && windex == 0 && wlength == 0 && wvalue >> 8 == 0 {
            Ok(StandardRequest::SetConfiguration { value: NonZeroU8::spec_new(wvalue as u8) })
        } else  // see section 9.4.8 of (USB2)
        if brequest == brequest::SET_DESCRIPTOR && direction is HostToDevice && recipient
            is Device {
            let desc_ty = (wvalue >> 8) as u8;
            let desc_idx = wvalue as u8;
            // table 9-5 of (USB2): only the Device, Configuration and String
            // descriptor types can appear in a SET_DESCRIPTOR request
            let desc = if desc_ty == 1 && desc_idx == 0 && windex == 0 {
                Ok(SetDescriptor::Device)
            } else if desc_ty == 2 && windex == 0 {
                Ok(SetDescriptor::Configuration { index: desc_idx })
            } else if desc_ty == 3 {
                Ok(SetDescriptor::String { index: desc_idx, lang_id: windex })
            } else {
                Err(())
            };
            match desc {
                Ok(descriptor) => Ok(
                    StandardRequest::SetDescriptor { descriptor, length: wlength },
                ),
                Err(_) => Err(()),
            }
        } else  // see section 9.4.9 of (USB2)
        if brequest == brequest::SET_FEATURE && direction is HostToDevice && wlength == 0 {
            if wvalue == feature::DEVICE_REMOTE_WAKEUP && recipient is Device && windex == 0 {
                Ok(StandardRequest::SetFeature(SetFeature::DeviceRemoteWakeup))
            } else if wvalue == feature::TEST_MODE && recipient is Device && windex as u8 == 0 {
                match Test::spec_from((windex >> 8) as u8) {
                    Some(test) => Ok(StandardRequest::SetFeature(SetFeature::TestMode(test))),
                    None => Err(()),
                }
            } else if wvalue == feature::ENDPOINT_HALT && recipient is Endpoint {
                match spec_windex2endpoint(windex) {
                    Ok(ep) => Ok(StandardRequest::SetFeature(SetFeature::EndpointHalt(ep))),
                    Err(_) => Err(()),
                }
            } else {
                Err(())
            }
        } else  // see section 9.4.10 of (USB2)
        if brequest == brequest::SET_INTERFACE && direction is HostToDevice && recipient
            is Interface && wlength == 0 {
            match (spec_windex2interface(windex), spec_windex2interface(wvalue)) {
                (Ok(interface), Ok(alternate)) => Ok(
                    StandardRequest::SetInterface { interface, alternate },
                ),
                _ => Err(()),
            }
        } else  // see section 9.4.11 of (USB2)
        if brequest == brequest::SYNCH_FRAME && direction is DeviceToHost && recipient is Endpoint
            && wvalue == 0 && wlength == 2 {
            match spec_windex2endpoint(windex) {
                Ok(endpoint) => Ok(StandardRequest::SynchFrame { endpoint }),
                Err(_) => Err(()),
            }
        } else {
            Err(())
        }
    }

    /// Parses a standard request
    pub fn parse(bmrequesttype: u8, brequest: u8, wvalue: u16, windex: u16, wlength: u16) -> (r:
        Result<Self, ()>)
        ensures
            r == StandardRequest::spec_parse(bmrequesttype, brequest, wvalue, windex, wlength),
    {
        let bmrequesttype = match bmRequestType::parse(bmrequesttype) {
            Ok(rt) => rt,
            Err(_) => return Err(()),
        };

        if !matches!(bmrequesttype.ty, bmrequesttype::Type::Standard) {
            return Err(());
        }

        Self::parse2(bmrequesttype, brequest, wvalue, windex, wlength)
    }

    pub(crate) fn parse2(
        bmrequesttype: bmRequestType,
        brequest: u8,
        wvalue: u16,
        windex: u16,
        wlength: u16,
    ) -> (r: Result<Self, ()>)
        ensures
            r == StandardRequest::spec_parse2(bmrequesttype, brequest, wvalue, windex, wlength),
    {
        let direction = bmrequesttype.direction;
        let recipient = bmrequesttype.recipient;

        // See table 9-3 of (USB2)
        if brequest == brequest::CLEAR_FEATURE && matches!(
            direction,
            bmrequesttype::Direction::HostToDevice,
        ) && !matches!(recipient, Recipient::Other) && wlength == 0 {
            // see section 9.4.1 of (USB2)
            if wvalue == feature::DEVICE_REMOTE_WAKEUP && matches!(recipient, Recipient::Device)
                && windex == 0 {
                Ok(StandardRequest::ClearFeature(ClearFeature::DeviceRemoteWakeup))
            } else if wvalue == feature::ENDPOINT_HALT && matches!(recipient, Recipient::Endpoint) {
                match windex2endpoint(windex) {
                    Ok(ep) => Ok(StandardRequest::ClearFeature(ClearFeature::EndpointHalt(ep))),
                    Err(_) => Err(()),
                }
            } else {
                Err(())
            }
        } else if brequest == brequest::GET_CONFIGURATION && matches!(
            direction,
            bmrequesttype::Direction::DeviceToHost,
        ) && matches!(recipient, Recipient::Device) && wvalue == 0 && windex == 0 && wlength == 1 {
            // see section 9.4.2 of (USB2)
            Ok(StandardRequest::GetConfiguration)
        } else if brequest == brequest::GET_DESCRIPTOR && matches!(
            direction,
            bmrequesttype::Direction::DeviceToHost,
        ) && matches!(recipient, Recipient::Device) {
            // see section 9.4.3 of (USB2)
            let desc_ty = (wvalue >> 8) as u8;
            let desc_idx = wvalue as u8;

            let ty = match desc::Type::_from(desc_ty) {
                Some(ty) => ty,
                None => return Err(()),
            };

            let desc = match ty {
                desc::Type::Device if desc_idx == 0 && windex == 0 => GetDescriptor::Device,
                desc::Type::DeviceQualifier if desc_idx == 0 && windex == 0 => {
                    GetDescriptor::DeviceQualifier
                },
                desc::Type::Configuration if windex == 0 => {
                    GetDescriptor::Configuration { index: desc_idx }
                },
                desc::Type::OtherSpeedConfiguration if windex == 0 => {
                    GetDescriptor::OtherSpeedConfiguration { index: desc_idx }
                },
                desc::Type::String => GetDescriptor::String { index: desc_idx, lang_id: windex },
                // other types cannot appear in a GET_DESCRIPTOR request
                _ => return Err(()),
            };

            Ok(StandardRequest::GetDescriptor { descriptor: desc, length: wlength })
        } else if brequest == brequest::GET_INTERFACE && matches!(
            direction,
            bmrequesttype::Direction::DeviceToHost,
        ) && matches!(recipient, Recipient::Interface) && wvalue == 0 && wlength == 1 {
            // see section 9.4.4 of (USB2)
            match windex2interface(windex) {
                Ok(interface) => Ok(StandardRequest::GetInterface { interface }),
                Err(_) => Err(()),
            }
        } else if brequest == brequest::GET_STATUS && matches!(
            direction,
            bmrequesttype::Direction::DeviceToHost,
        ) && wvalue == 0 && wlength == 2 {
            // see section 9.4.5 of (USB2)
            if matches!(recipient, Recipient::Device) && windex == 0 {
                Ok(StandardRequest::GetStatus(GetStatus::Device))
            } else if matches!(recipient, Recipient::Endpoint) {
                match windex2endpoint(windex) {
                    Ok(ep) => Ok(StandardRequest::GetStatus(GetStatus::Endpoint(ep))),
                    Err(_) => Err(()),
                }
            } else if matches!(recipient, Recipient::Interface) {
                match windex2interface(windex) {
                    Ok(interface) => Ok(StandardRequest::GetStatus(GetStatus::Interface(interface))),
                    Err(_) => Err(()),
                }
            } else {
                Err(())
            }
        } else if brequest == brequest::SET_ADDRESS && matches!(
            direction,
            bmrequesttype::Direction::HostToDevice,
        ) && matches!(recipient, Recipient::Device) && windex == 0 && wlength == 0 && wvalue
            <= MAX_ADDRESS {
            // see section 9.4.6 of (USB2)
            let address = NonZeroU8::new(wvalue as u8);
            Ok(StandardRequest::SetAddress { address })
        } else if brequest == brequest::SET_CONFIGURATION && matches!(
            direction,
            bmrequesttype::Direction::HostToDevice,
        ) && matches!(recipient, Recipient::Device) && windex == 0 && wlength == 0 && wvalue >> 8
            == 0 {
            // see section 9.4.7 of (USB2)
            Ok(StandardRequest::SetConfiguration { value: NonZeroU8::new(wvalue as u8) })
        } else if brequest == brequest::SET_DESCRIPTOR && matches!(
            direction,
            bmrequesttype::Direction::HostToDevice,
        ) && matches!(recipient, Recipient::Device) {
            // see section 9.4.8 of (USB2)
            let desc_ty = (wvalue >> 8) as u8;
            let desc_idx = wvalue as u8;

            let ty = match desc::Type::_from(desc_ty) {
                Some(ty) => ty,
                None => return Err(()),
            };

            let desc = match ty {
                desc::Type::Device if desc_idx == 0 && windex == 0 => SetDescriptor::Device,
                desc::Type::Configuration if windex == 0 => {
                    SetDescriptor::Configuration { index: desc_idx }
                },
                desc::Type::String => SetDescriptor::String { index: desc_idx, lang_id: windex },
                // other types cannot appear in a SET_DESCRIPTOR request
                _ => return Err(()),
            };

            Ok(StandardRequest::SetDescriptor { descriptor: desc, length: wlength })
        } else if brequest == brequest::SET_FEATURE && matches!(
            direction,
            bmrequesttype::Direction::HostToDevice,
        ) && wlength == 0 {
            // see section 9.4.9 of (USB2)
            if wvalue == feature::DEVICE_REMOTE_WAKEUP && matches!(recipient, Recipient::Device)
                && windex == 0 {
                Ok(StandardRequest::SetFeature(SetFeature::DeviceRemoteWakeup))
            } else if wvalue == feature::TEST_MODE && matches!(recipient, Recipient::Device)
                && windex as u8 == 0 {
                match Test::_from((windex >> 8) as u8) {
                    Some(test) => Ok(StandardRequest::SetFeature(SetFeature::TestMode(test))),
                    None => Err(()),
                }
            } else if wvalue == feature::ENDPOINT_HALT && matches!(recipient, Recipient::Endpoint) {
                match windex2endpoint(windex) {
                    Ok(ep) => Ok(StandardRequest::SetFeature(SetFeature::EndpointHalt(ep))),
                    Err(_) => Err(()),
                }
            } else {
                Err(())
            }
        } else if brequest == brequest::SET_INTERFACE && matches!(
            direction,
            bmrequesttype::Direction::HostToDevice,
        ) && matches!(recipient, Recipient::Interface) && wlength == 0 {
            // see section 9.4.10 of (USB2)
            let interface = match windex2interface(windex) {
                Ok(interface) => interface,
                Err(_) => return Err(()),
            };
            let alternate = match windex2interface(wvalue) {
                Ok(alternate) => alternate,
                Err(_) => return Err(()),
            };

            Ok(StandardRequest::SetInterface { interface, alternate })
        } else if brequest == brequest::SYNCH_FRAME && matches!(
            direction,
            bmrequesttype::Direction::DeviceToHost,
        ) && matches!(recipient, Recipient::Endpoint) && wvalue == 0 && wlength == 2 {
            // see section 9.4.11 of (USB2)
            match windex2endpoint(windex) {
                Ok(endpoint) => Ok(StandardRequest::SynchFrame { endpoint }),
                Err(_) => Err(()),
            }
        } else {
            Err(())
        }
    }
}

} // verus!
