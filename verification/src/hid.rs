//! Human Interface Device (HID)
//!
//! For more details see (HID1.11)

use vstd::prelude::*;

use crate::bmrequesttype::bmRequestType;
use crate::NonZeroU8;

verus! {

/// HID specific requests
#[derive(Clone, Copy, Debug, PartialEq, Eq, Structural)]
pub struct Request {
    /// Interface index
    pub interface: u8,
    /// Kind of request
    pub kind: Kind,
}

/// HID request kind
#[derive(Clone, Copy, Debug, PartialEq, Eq, Structural)]
pub enum Kind {
    /// Silences a particular report until the specified time passes
    SetIdle {
        /// LSB = 4 milliseconds; `None` means "for an indefinite time"
        duration: Option<NonZeroU8>,
        /// ID of the report to silence; `None` means all reports
        report_id: Option<NonZeroU8>,
    },
    /// GET_DESCRIPTOR
    GetDescriptor {
        /// Length of the descriptor
        length: u16,
        /// The descriptor type
        descriptor: GetDescriptor,
    },
}

/// GET_DESCRIPTOR descriptor type
#[derive(Clone, Copy, Debug, PartialEq, Eq, Structural)]
pub enum GetDescriptor {
    /// Report descriptor
    Report {
        /// Report descriptor index
        index: u8,
    },
}

/// SET_IDLE request code
pub const SET_IDLE: u8 = 10;

/// GET_DESCRIPTOR request code
pub const GET_DESCRIPTOR: u8 = 6;

/// HID descriptor type code
pub const DESC_TYPE_HID: u8 = 0x21;

/// Report descriptor type code
pub const DESC_TYPE_REPORT: u8 = 0x22;

impl Request {
    /// The HID request grammar.
    ///
    /// SET_IDLE must be host-to-device, interface-addressed, with
    /// `wLength == 0`; the low byte of `wValue` is the report id and the
    /// high byte the duration, each with zero meaning "absent".
    /// GET_DESCRIPTOR must be device-to-host and interface-addressed, and
    /// accepts only the Report descriptor type in the high byte of `wValue`;
    /// the low byte is the report descriptor index.
    pub open spec fn spec_parse2(
        rt: bmRequestType,
        brequest: u8,
        wvalue: u16,
        windex: u16,
        wlength: u16,
    ) -> Result<Request, ()> {
        let direction = rt.direction;
        let recipient = rt.recipient;
        if brequest == SET_IDLE && recipient is Interface && direction is HostToDevice && wlength
            == 0 {
            match crate::spec_windex2interface(windex) {
                Ok(interface) => Ok(
                    Request {
                        interface,
                        kind: Kind::SetIdle {
                            duration: NonZeroU8::spec_new((wvalue >> 8) as u8),
                            report_id: NonZeroU8::spec_new(wvalue as u8),
                        },
                    },
                ),
                Err(_) => Err(()),
            }
        } else if brequest == GET_DESCRIPTOR && recipient is Interface && direction
            is DeviceToHost {
            match crate::spec_windex2interface(windex) {
                Ok(interface) => {
                    if (wvalue >> 8) as u8 == DESC_TYPE_REPORT {
                        Ok(
                            Request {
                                interface,
                                kind: Kind::GetDescriptor {
                                    length: wlength,
                                    descriptor: GetDescriptor::Report { index: wvalue as u8 },
                                },
                            },
                        )
                    } else {
                        Err(())
                    }
                },
                Err(_) => Err(()),
            }
        } else {
            Err(())
        }
    }

    pub(crate) fn parse2(
        bmrequesttype: bmRequestType,
        brequest: u8,
        wvalue: u16,
        windex: u16,
        wlength: u16,
    ) -> (r: Result<Self, ()>)
        ensures
            r == Request::spec_parse2(bmrequesttype, brequest, wvalue, windex, wlength),
    {
        let direction = bmrequesttype.direction;
        let recipient = bmrequesttype.recipient;

        if brequest == SET_IDLE && matches!(recipient, crate::bmrequesttype::Recipient::Interface)
            && matches!(direction, crate::bmrequesttype::Direction::HostToDevice) && wlength == 0 {
            let duration = NonZeroU8::new((wvalue >> 8) as u8);
            let report_id = NonZeroU8::new(wvalue as u8);
            let interface = match crate::windex2interface(windex) {
                Ok(interface) => interface,
                Err(_) => return Err(()),
            };

            Ok(Request { interface, kind: Kind::SetIdle { duration, report_id } })
        } else if brequest == GET_DESCRIPTOR && matches!(
            recipient,
            crate::bmrequesttype::Recipient::Interface,
        ) && matches!(direction, crate::bmrequesttype::Direction::DeviceToHost) {
            let desc_ty = (wvalue >> 8) as u8;
            let index = wvalue as u8;
            let interface = match crate::windex2interface(windex) {
                Ok(interface) => interface,
                Err(_) => return Err(()),
            };
            let length = wlength;

            if desc_ty == DESC_TYPE_REPORT {
                Ok(
                    Request {
                        interface,
                        kind: Kind::GetDescriptor {
                            length,
                            descriptor: GetDescriptor::Report { index },
                        },
                    },
                )
            } else {
                Err(())
            }
        } else {
            Err(())
        }
    }
}

/// Human Interface Device Class
pub struct Class;

impl Class {
    /// Class byte
    pub fn class(&self) -> (r: NonZeroU8)
        ensures
            r.spec_get() == 3,
    {
        NonZeroU8::new(3).unwrap()
    }

    /// SubClass byte
    pub fn subclass(&self) -> (r: u8)
        ensures
            r == 0,
    {
        0
    }

    /// Protocol byte
    pub fn protocol(&self) -> (r: u8)
        ensures
            r == 0,
    {
        0
    }
}

/// HID descriptor -- single Report descriptor
pub struct Descriptor {
    /// Country code of the localized hardware
    pub bCountryCode: Country,
    /// Length of the report descriptor
    pub wDescriptorLength: u16,
}

/// Country code
#[derive(Clone, Copy, Debug, PartialEq, Eq, Structural)]
pub enum Country {
    /// Not Supported
    NotSupported,
    /// Arabic
    Arabic,
    /// Belgian
    Belgian,
    /// Canadian-Bilingual
    CanadianBilingual,
    /// Canadian-French
    CanadianFrench,
    /// Czech Republic
    CzechRepublic,
    /// Danish
    Danish,
    /// Finnish
    Finnish,
    /// French
    French,
    /// German
    German,
    /// Greek
    Greek,
    /// Hebrew
    Hebrew,
    /// Hungary
    Hungary,
    /// International (ISO)
    InternationalISO,
    /// Italian
    Italian,
    /// Japan (Katakana)
    JapanKatakana,
    /// Korean
    Korean,
    /// Latin American
    LatinAmerican,
    /// Netherlands/Dutch
    NetherlandsDutch,
    /// Norwegian
    Norwegian,
    /// Persian (Farsi)
    PersianFarsi,
    /// Poland
    Poland,
    /// Portuguese
    Portuguese,
    /// Russia
    Russia,
    /// Slovakia
    Slovakia,
    /// Spanish
    Spanish,
    /// Swedish
    Swedish,
    /// Swiss/French
    SwissFrench,
    /// Swiss/German
    SwissGerman,
    /// Switzerland
    Switzerland,
    /// Taiwan
    Taiwan,
    /// Turkish-Q
    TurkishQ,
    /// UK
    Uk,
    /// US
    Us,
    /// Yugoslavia
    Yugoslavia,
    /// Turkish-F
    TurkishF,
}

impl Country {
    /// The wire code of this country, in declaration order starting at 0.
    pub open spec fn spec_byte(self) -> u8 {
        match self {
            Country::NotSupported => 0,
            Country::Arabic => 1,
            Country::Belgian => 2,
            Country::CanadianBilingual => 3,
            Country::CanadianFrench => 4,
            Country::CzechRepublic => 5,
            Country::Danish => 6,
            Country::Finnish => 7,
            Country::French => 8,
            Country::German => 9,
            Country::Greek => 10,
            Country::Hebrew => 11,
            Country::Hungary => 12,
            Country::InternationalISO => 13,
            Country::Italian => 14,
            Country::JapanKatakana => 15,
            Country::Korean => 16,
            Country::LatinAmerican => 17,
            Country::NetherlandsDutch => 18,
            Country::Norwegian => 19,
            Country::PersianFarsi => 20,
            Country::Poland => 21,
            Country::Portuguese => 22,
            Country::Russia => 23,
            Country::Slovakia => 24,
            Country::Spanish => 25,
            Country::Swedish => 26,
            Country::SwissFrench => 27,
            Country::SwissGerman => 28,
            Country::Switzerland => 29,
            Country::Taiwan => 30,
            Country::TurkishQ => 31,
            Country::Uk => 32,
            Country::Us => 33,
            Country::Yugoslavia => 34,
            Country::TurkishF => 35,
        }
    }

    fn byte(self) -> (r: u8)
        ensures
            r == self.spec_byte(),
    {
        match self {
            Country::NotSupported => 0,
            Country::Arabic => 1,
            Country::Belgian => 2,
            Country::CanadianBilingual => 3,
            Country::CanadianFrench => 4,
            Country::CzechRepublic => 5,
            Country::Danish => 6,
            Country::Finnish => 7,
            Country::French => 8,
            Country::German => 9,
            Country::Greek => 10,
            Country::Hebrew => 11,
            Country::Hungary => 12,
            Country::InternationalISO => 13,
            Country::Italian => 14,
            Country::JapanKatakana => 15,
            Country::Korean => 16,
            Country::LatinAmerican => 17,
            Country::NetherlandsDutch => 18,
            Country::Norwegian => 19,
            Country::PersianFarsi => 20,
            Country::Poland => 21,
            Country::Portuguese => 22,
            Country::Russia => 23,
            Country::Slovakia => 24,
            Country::Spanish => 25,
            Country::Swedish => 26,
            Country::SwissFrench => 27,
            Country::SwissGerman => 28,
            Country::Switzerland => 29,
            Country::Taiwan => 30,
            Country::TurkishQ => 31,
            Country::Uk => 32,
            Country::Us => 33,
            Country::Yugoslavia => 34,
            Country::TurkishF => 35,
        }
    }
}

/// bcdHID: release 1.00 of the HID specification, binary-coded decimal
pub const bcdHID: u16 = 0x01_00;

impl Descriptor {
    /// The size of this descriptor on the wire
    pub const SIZE: u8 = 9;

    /// The exact wire bytes of this descriptor: length, type, bcdHID
    /// little-endian, country code, one sub-descriptor, the Report type
    /// code, and the report descriptor length little-endian.
    pub open spec fn spec_bytes(self) -> Seq<u8> {
        seq![
            9u8,
            0x21u8,
            0x00u8,
            0x01u8,
            self.bCountryCode.spec_byte(),
            1u8,
            0x22u8,
            self.wDescriptorLength as u8,
            (self.wDescriptorLength >> 8) as u8,
        ]
    }

    /// Returns the wire representation of this descriptor
    pub fn bytes(&self) -> (r: [u8; 9])
        ensures
            r@ == self.spec_bytes(),
    {
        let r = [
            Self::SIZE,
            DESC_TYPE_HID,
            bcdHID as u8,
            (bcdHID >> 8) as u8,
            self.bCountryCode.byte(),
            1,
            DESC_TYPE_REPORT,
            self.wDescriptorLength as u8,
            (self.wDescriptorLength >> 8) as u8,
        ];
        proof {
            assert(0x01_00u16 as u8 == 0x00 && (0x01_00u16 >> 8) as u8 == 0x01) by (bit_vector);
            assert(r@ =~= self.spec_bytes());
        }
        r
    }
}

} // verus!
