//! Abstract Control Model interface requests and descriptors

use vstd::prelude::*;

use crate::bmrequesttype::bmRequestType;

verus! {

/// ACM request
#[derive(Clone, Copy, Debug, PartialEq, Eq, Structural)]
pub struct Request {
    /// Interface index
    pub interface: u8,
    /// Kind of request
    pub kind: Kind,
}

/// ACM Request kind
#[derive(Clone, Copy, Debug, PartialEq, Eq, Structural)]
pub enum Kind {
    /// GET_LINE_CODING
    GetLineCoding,
    /// SET_LINE_CODING
    SetLineCoding,
    /// SET_CONTROL_LINE_STATE
    SetControlLineState {
        /// DTE is present
        dtr: bool,
        /// Carrier control for half-duplex modems. `true` = activate RTS carrier; `false` = deactivate
        rts: bool,
    },
}

/// SET_LINE_CODING request code
pub const SET_LINE_CODING: u8 = 0x20;

/// GET_LINE_CODING request code
pub const GET_LINE_CODING: u8 = 0x21;

/// SET_CONTROL_LINE_STATE request code
pub const SET_CONTROL_LINE_STATE: u8 = 0x22;

impl Request {
    /// What [`Request::parse`] returns: the request-type byte is decoded
    /// first, and a request whose declared type is not Class is rejected
    /// before the grammar is consulted.
    pub open spec fn spec_parse(
        bmrequesttype: u8,
        brequest: u8,
        wvalue: u16,
        windex: u16,
        wlength: u16,
    ) -> Result<Request, ()> {
        match bmRequestType::spec_parse(bmrequesttype) {
            Err(_) => Err(()),
            Ok(rt) => {
                if rt.ty is Class {
                    Request::spec_parse2(rt, brequest, wvalue, windex, wlength)
                } else {
                    Err(())
                }
            },
        }
    }

    /// The ACM request grammar.
    ///
    /// SET_LINE_CODING and GET_LINE_CODING must be interface-addressed with
    /// `wValue == 0` and `wLength == 7`, host-to-device and device-to-host
    /// respectively. SET_CONTROL_LINE_STATE must be host-to-device and
    /// interface-addressed with `wLength == 0`; DTR and RTS are bits 0 and 1
    /// of `wValue`, and any set bit above bit 1 is rejected (those bits are
    /// reserved). In each rule `wIndex` is the interface number and its high
    /// byte must be zero.
    pub open spec fn spec_parse2(
        rt: bmRequestType,
        brequest: u8,
        wvalue: u16,
        windex: u16,
        wlength: u16,
    ) -> Result<Request, ()> {
        let direction = rt.direction;
        let recipient = rt.recipient;
        if brequest == SET_LINE_CODING && direction is HostToDevice && recipient is Interface
            && wvalue == 0 && wlength == 7 {
            match crate::spec_windex2interface(windex) {
                Ok(interface) => Ok(Request { interface, kind: Kind::SetLineCoding }),
                Err(_) => Err(()),
            }
        } else if brequest == GET_LINE_CODING && direction is DeviceToHost && recipient
            is Interface && wvalue == 0 && wlength == 7 {
            match crate::spec_windex2interface(windex) {
                Ok(interface) => Ok(Request { interface, kind: Kind::GetLineCoding }),
                Err(_) => Err(()),
            }
        } else if brequest == SET_CONTROL_LINE_STATE && direction is HostToDevice && recipient
            is Interface && wlength == 0 {
            match crate::spec_windex2interface(windex) {
                Ok(interface) => {
                    if wvalue & !0b11 != 0 {
                        Err(())
                    } else {
                        Ok(
                            Request {
                                interface,
                                kind: Kind::SetControlLineState {
                                    dtr: wvalue & 1 != 0,
                                    rts: wvalue & 2 != 0,
                                },
                            },
                        )
                    }
                },
                Err(_) => Err(()),
            }
        } else {
            Err(())
        }
    }

    /// Parses an ACM request
    pub fn parse(bmrequesttype: u8, brequest: u8, wvalue: u16, windex: u16, wlength: u16) -> (r:
        Result<Self, ()>)
        ensures
            r == Request::spec_parse(bmrequesttype, brequest, wvalue, windex, wlength),
    {
        let bmrequesttype = match bmRequestType::parse(bmrequesttype) {
            Ok(rt) => rt,
            Err(_) => return Err(()),
        };

        if !matches!(bmrequesttype.ty, crate::bmrequesttype::Type::Class) {
            return Err(());
        }

        Self::parse2(bmrequesttype, brequest, wvalue, windex, wlength)
    }

    pub(crate) fn parse2(
        bmrequesttype: bmRequestType,
        brequest: u8,
        wvalue: u16,
        windex: u16,
        wlength: u16,
    ) -> (r: Result<Self, ()>)
        ensures
            r == Request::spec_parse2(bmrequesttype, brequest, wvalue, windex, wlength),
    {
        let direction = bmrequesttype.direction;
        let recipient = bmrequesttype.recipient;

        if brequest == SET_LINE_CODING && matches!(
            direction,
            crate::bmrequesttype::Direction::HostToDevice,
        ) && matches!(recipient, crate::bmrequesttype::Recipient::Interface) && wvalue == 0
            && wlength == 7 {
            match crate::windex2interface(windex) {
                Ok(interface) => Ok(Request { interface, kind: Kind::SetLineCoding }),
                Err(_) => Err(()),
            }
        } else if brequest == GET_LINE_CODING && matches!(
            direction,
            crate::bmrequesttype::Direction::DeviceToHost,
        ) && matches!(recipient, crate::bmrequesttype::Recipient::Interface) && wvalue == 0
            && wlength == 7 {
            match crate::windex2interface(windex) {
                Ok(interface) => Ok(Request { interface, kind: Kind::GetLineCoding }),
                Err(_) => Err(()),
            }
        } else if brequest == SET_CONTROL_LINE_STATE && matches!(
            direction,
            crate::bmrequesttype::Direction::HostToDevice,
        ) && matches!(recipient, crate::bmrequesttype::Recipient::Interface) && wlength == 0 {
            let interface = match crate::windex2interface(windex) {
                Ok(interface) => interface,
                Err(_) => return Err(()),
            };
            if wvalue & !0b11 != 0 {
                return Err(());
            }

            let dtr = wvalue & 1 != 0;
            let rts = wvalue & 2 != 0;

            Ok(Request { interface, kind: Kind::SetControlLineState { rts, dtr } })
        } else {
            Err(())
        }
    }
}

/// Serial state notification
pub struct SerialState {
    /// Interface index
    pub interface: u8,
    /// Received data has been discarded due to overrun in the device.
    pub bOverRun: bool,
    /// A parity error has occurred
    pub bParity: bool,
    /// A framing error has occurred
    pub bFraming: bool,
    /// State of ring signal detection of the device.
    pub bRingSignal: bool,
    /// State of break detection mechanism of the device
    pub bBreak: bool,
    /// State of transmission carrier. This signal corresponds to V.24 signal 106 and RS-232 signal
    /// DSR
    pub bTxCarrier: bool,
    /// State of receiver carrier detection mechanism of device. This signal corresponds to V.24
    /// signal 109 and RS-232 signal DCD
    pub bRxCarrier: bool,
}

/// SERIAL_STATE notification code
pub const SERIAL_STATE: u8 = 0x20;

impl SerialState {
    /// Size of this notification on the wire in bytes
    pub const SIZE: u8 = 10;

    /// The status bitmap byte: one flag per bit, bOverRun in bit 6 down to
    /// bRxCarrier in bit 0.
    pub open spec fn spec_bitmap(self) -> u8 {
        (if self.bOverRun {
            0x40u8
        } else {
            0u8
        }) | (if self.bParity {
            0x20u8
        } else {
            0u8
        }) | (if self.bFraming {
            0x10u8
        } else {
            0u8
        }) | (if self.bRingSignal {
            0x08u8
        } else {
            0u8
        }) | (if self.bBreak {
            0x04u8
        } else {
            0u8
        }) | (if self.bTxCarrier {
            0x02u8
        } else {
            0u8
        }) | (if self.bRxCarrier {
            0x01u8
        } else {
            0u8
        })
    }

    /// The exact wire bytes of this notification: the fixed 8-byte
    /// class-notification header (request type, SERIAL_STATE, `wValue` zero,
    /// the interface in `wIndex`, `wLength` two), then the status bitmap and
    /// a reserved zero byte.
    pub open spec fn spec_bytes(self) -> Seq<u8> {
        seq![
            0b1010_0001u8,
            0x20u8,
            0u8,
            0u8,
            self.interface,
            0u8,
            2u8,
            0u8,
            self.spec_bitmap(),
            0u8,
        ]
    }

    /// Returns the wire representation of this notification
    pub fn bytes(&self) -> (r: [u8; 10])
        ensures
            r@ == self.spec_bytes(),
    {
        let bitmap: u8 = (if self.bOverRun {
            0x40u8
        } else {
            0u8
        }) | (if self.bParity {
            0x20u8
        } else {
            0u8
        }) | (if self.bFraming {
            0x10u8
        } else {
            0u8
        }) | (if self.bRingSignal {
            0x08u8
        } else {
            0u8
        }) | (if self.bBreak {
            0x04u8
        } else {
            0u8
        }) | (if self.bTxCarrier {
            0x02u8
        } else {
            0u8
        }) | (if self.bRxCarrier {
            0x01u8
        } else {
            0u8
        });

        let r = [
            // header
            0b1010_0001,  // bmRequestType
            SERIAL_STATE,  // bNotification
            0,
            0,  // wValue
            self.interface,
            0,  // wIndex
            2,
            0,  // wLength
            // data
            bitmap,
            0,
        ];
        proof {
            assert(r@ =~= self.spec_bytes());
        }
        r
    }
}

/// Line Coding structure
#[derive(Clone, Copy)]
pub struct LineCoding {
    /// Data terminal rate, in bits per second
    pub dwDTERate: u32,
    /// Stop bits
    pub bCharFormat: bCharFormat,
    /// Parity
    pub bParityType: bParityType,
    /// Data bits
    pub bDataBits: bDataBits,
}

impl LineCoding {
    /// The size of this structure on the wire
    pub const SIZE: u8 = 7;

    /// The exact wire bytes of this structure: the data rate little-endian,
    /// then the stop-bits, parity and data-bits codes.
    pub open spec fn spec_bytes(self) -> Seq<u8> {
        seq![
            self.dwDTERate as u8,
            (self.dwDTERate >> 8) as u8,
            (self.dwDTERate >> 16) as u8,
            (self.dwDTERate >> 24) as u8,
            self.bCharFormat.spec_byte(),
            self.bParityType.spec_byte(),
            self.bDataBits.spec_byte(),
        ]
    }

    /// Returns the wire representation of this structure
    pub fn bytes(&self) -> (r: [u8; 7])
        ensures
            r@ == self.spec_bytes(),
    {
        let r = [
            self.dwDTERate as u8,
            (self.dwDTERate >> 8) as u8,
            (self.dwDTERate >> 16) as u8,
            (self.dwDTERate >> 24) as u8,
            self.bCharFormat.byte(),
            self.bParityType.byte(),
            self.bDataBits.byte(),
        ];
        proof {
            assert(r@ =~= self.spec_bytes());
        }
        r
    }
}

/// Stop bits
#[derive(Clone, Copy, Debug, PartialEq, Eq, Structural)]
pub enum bCharFormat {
    /// 1 stop bit
    Stop1,
    /// 1.5 stop bit
    Stop1_5,
    /// 2 stop bits
    Stop2,
}

impl bCharFormat {
    /// The wire code of this stop-bits setting.
    pub open spec fn spec_byte(self) -> u8 {
        match self {
            bCharFormat::Stop1 => 0,
            bCharFormat::Stop1_5 => 1,
            bCharFormat::Stop2 => 2,
        }
    }

    fn byte(self) -> (r: u8)
        ensures
            r == self.spec_byte(),
    {
        match self {
            bCharFormat::Stop1 => 0,
            bCharFormat::Stop1_5 => 1,
            bCharFormat::Stop2 => 2,
        }
    }
}

/// Parity
#[derive(Clone, Copy, Debug, PartialEq, Eq, Structural)]
pub enum bParityType {
    /// No parity
    NoParity,
    /// Odd
    Odd,
    /// Even
    Even,
    /// Mark
    Mark,
    /// Space
    Space,
}

impl bParityType {
    /// The wire code of this parity setting.
    pub open spec fn spec_byte(self) -> u8 {
        match self {
            bParityType::NoParity => 0,
            bParityType::Odd => 1,
            bParityType::Even => 2,
            bParityType::Mark => 3,
            bParityType::Space => 4,
        }
    }

    fn byte(self) -> (r: u8)
        ensures
            r == self.spec_byte(),
    {
        match self {
            bParityType::NoParity => 0,
            bParityType::Odd => 1,
            bParityType::Even => 2,
            bParityType::Mark => 3,
            bParityType::Space => 4,
        }
    }
}

/// Data bits
#[derive(Clone, Copy, Debug, PartialEq, Eq, Structural)]
pub enum bDataBits {
    /// 5 bits
    _5,
    /// 6 bits
    _6,
    /// 7 bits
    _7,
    /// 8 bits
    _8,
    /// 16 bits
    _16,
}

impl bDataBits {
    /// The wire code of this data-bits setting: the number of bits itself.
    pub open spec fn spec_byte(self) -> u8 {
        match self {
            bDataBits::_5 => 5,
            bDataBits::_6 => 6,
            bDataBits::_7 => 7,
            bDataBits::_8 => 8,
            bDataBits::_16 => 16,
        }
    }

    fn byte(self) -> (r: u8)
        ensures
            r == self.spec_byte(),
    {
        match self {
            bDataBits::_5 => 5,
            bDataBits::_6 => 6,
            bDataBits::_7 => 7,
            bDataBits::_8 => 8,
            bDataBits::_16 => 16,
        }
    }
}

/// Abstract Control Management functional descriptor
#[derive(Clone, Copy)]
pub struct Descriptor {
    /// Capabilities
    pub bmCapabilities: Capabilities,
}

/// Capabilities
#[derive(Clone, Copy)]
pub struct Capabilities {
    /// Device supports `{Set,Clear,Get}_Comm_Feature`
    pub comm_features: bool,
    /// Device supports `{Set,Get}_Line_Coding`, `Set_Control_Line_State` and `Serial_State`
    pub line_serial: bool,
    /// Device supports `Send_Break`
    pub send_break: bool,
    /// Device supports `Network_Connection`
    pub network_connection: bool,
}

impl Capabilities {
    /// The capabilities bitmap byte: one capability per bit, comm features
    /// in bit 0 up to network connection in bit 3.
    pub open spec fn spec_byte(self) -> u8 {
        (if self.comm_features {
            0x01u8
        } else {
            0u8
        }) | (if self.line_serial {
            0x02u8
        } else {
            0u8
        }) | (if self.send_break {
            0x04u8
        } else {
            0u8
        }) | (if self.network_connection {
            0x08u8
        } else {
            0u8
        })
    }

    fn byte(&self) -> (r: u8)
        ensures
            r == self.spec_byte(),
    {
        (if self.comm_features {
            0x01u8
        } else {
            0u8
        }) | (if self.line_serial {
            0x02u8
        } else {
            0u8
        }) | (if self.send_break {
            0x04u8
        } else {
            0u8
        }) | (if self.network_connection {
            0x08u8
        } else {
            0u8
        })
    }
}

impl Descriptor {
    /// Size of this descriptor on the wire
    pub const SIZE: u8 = 4;

    /// The exact wire bytes of this descriptor: length, the CS_INTERFACE
    /// type, the ACM subtype, and the capabilities bitmap.
    pub open spec fn spec_bytes(self) -> Seq<u8> {
        seq![4u8, 0x24u8, 0x02u8, self.bmCapabilities.spec_byte()]
    }

    /// Returns the wire representation of this descriptor
    pub fn bytes(&self) -> (r: [u8; 4])
        ensures
            r@ == self.spec_bytes(),
    {
        let r = [Self::SIZE, super::CS_INTERFACE, super::SUBTYPE_ACM, self.bmCapabilities.byte()];
        proof {
            assert(r@ =~= self.spec_bytes());
        }
        r
    }
}

} // verus!
