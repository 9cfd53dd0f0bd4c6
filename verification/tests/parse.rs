use usb2::bmrequesttype::{bmRequestType, Direction as RtDirection, Recipient, Type};
use usb2::{
    ClearFeature, Direction, Endpoint, GetDescriptor, GetStatus, NonZeroU8, Request, SetDescriptor,
    SetFeature, StandardRequest, Test,
};

#[test]
fn endpoint() {
    assert_eq!(
        usb2::windex2endpoint(0x0080),
        Ok(Endpoint {
            direction: Direction::In,
            number: 0
        })
    );

    assert_eq!(
        usb2::windex2endpoint(0x0000),
        Ok(Endpoint {
            direction: Direction::Out,
            number: 0
        })
    );

    assert!(usb2::windex2endpoint(0x0010).is_err());
    assert!(usb2::windex2endpoint(0x0090).is_err());
}

#[test]
fn get_descriptor_device() {
    assert_eq!(
        StandardRequest::parse(0b1000_0000, 0x06, 0x01_00, 0, 18),
        Ok(StandardRequest::GetDescriptor {
            descriptor: GetDescriptor::Device,
            length: 18
        })
    );

    // wrong descriptor index
    assert!(StandardRequest::parse(0b1000_0000, 0x06, 0x01_01, 0, 18).is_err(),);

    // language ID
    assert!(StandardRequest::parse(0b1000_0000, 0x06, 0x01_00, 1033, 18).is_err(),);
}

#[test]
fn get_descriptor_configuration() {
    // GET_DESCRIPTOR Configuration 0
    assert_eq!(
        StandardRequest::parse(0b1000_0000, 0x06, 0x02_00, 0, 9),
        Ok(StandardRequest::GetDescriptor {
            descriptor: GetDescriptor::Configuration { index: 0 },
            length: 9
        })
    );

    assert!(StandardRequest::parse(0b1000_0000, 0x06, 0x02_00, 1033, 9).is_err());
}

#[test]
fn set_address() {
    // SET_ADDRESS 16
    assert_eq!(
        StandardRequest::parse(0b0000_0000, 0x05, 0x00_10, 0, 0),
        Ok(StandardRequest::SetAddress {
            address: NonZeroU8::new(16)
        })
    );

    // has language id but shouldn't
    assert!(StandardRequest::parse(0b0000_0000, 0x05, 0x00_10, 1033, 0).is_err());

    // length should be zero
    assert!(StandardRequest::parse(0b0000_0000, 0x05, 0x00_10, 0, 1).is_err());
}

#[test]
fn set_configuration() {
    // SET_CONFIGURATION 1
    assert_eq!(
        StandardRequest::parse(0b0000_0000, 0x09, 0x00_01, 0, 0),
        Ok(StandardRequest::SetConfiguration {
            value: NonZeroU8::new(1)
        })
    );

    // has language id but shouldn't
    assert!(StandardRequest::parse(0b0000_0000, 0x09, 0x00_01, 1033, 0).is_err());

    // length should be zero
    assert!(StandardRequest::parse(0b0000_0000, 0x09, 0x00_01, 0, 1).is_err());
}

#[test]
fn request_type_byte() {
    // direction is bit 7; type bits 6-5; recipient bits 3-0
    assert_eq!(
        bmRequestType::parse(0b1000_0001),
        Ok(bmRequestType {
            direction: RtDirection::DeviceToHost,
            ty: Type::Standard,
            recipient: Recipient::Interface,
        })
    );
    assert_eq!(
        bmRequestType::parse(0b0010_0010),
        Ok(bmRequestType {
            direction: RtDirection::HostToDevice,
            ty: Type::Class,
            recipient: Recipient::Endpoint,
        })
    );
    assert_eq!(
        bmRequestType::parse(0b0100_0011),
        Ok(bmRequestType {
            direction: RtDirection::HostToDevice,
            ty: Type::Vendor,
            recipient: Recipient::Other,
        })
    );

    // type field 0b11 is reserved
    assert!(bmRequestType::parse(0b0110_0000).is_err());
    // recipient fields 4..=15 are reserved
    assert!(bmRequestType::parse(0b0000_0100).is_err());
    assert!(bmRequestType::parse(0b0000_1111).is_err());
}

#[test]
fn clear_feature() {
    // CLEAR_FEATURE DEVICE_REMOTE_WAKEUP
    assert_eq!(
        StandardRequest::parse(0b0000_0000, 0x01, 1, 0, 0),
        Ok(StandardRequest::ClearFeature(
            ClearFeature::DeviceRemoteWakeup
        ))
    );

    // CLEAR_FEATURE ENDPOINT_HALT, IN endpoint 2
    assert_eq!(
        StandardRequest::parse(0b0000_0010, 0x01, 0, 0x0082, 0),
        Ok(StandardRequest::ClearFeature(ClearFeature::EndpointHalt(
            Endpoint {
                direction: Direction::In,
                number: 2
            }
        )))
    );

    // DEVICE_REMOTE_WAKEUP requires wIndex == 0
    assert!(StandardRequest::parse(0b0000_0000, 0x01, 1, 1, 0).is_err());
    // wLength must be 0
    assert!(StandardRequest::parse(0b0000_0000, 0x01, 1, 0, 1).is_err());
    // recipient Other is never legal
    assert!(StandardRequest::parse(0b0000_0011, 0x01, 1, 0, 0).is_err());
    // TEST_MODE is not a CLEAR_FEATURE selector
    assert!(StandardRequest::parse(0b0000_0000, 0x01, 2, 0, 0).is_err());
}

#[test]
fn get_configuration() {
    assert_eq!(
        StandardRequest::parse(0b1000_0000, 0x08, 0, 0, 1),
        Ok(StandardRequest::GetConfiguration)
    );

    // wLength must be 1
    assert!(StandardRequest::parse(0b1000_0000, 0x08, 0, 0, 2).is_err());
    // direction must be device-to-host
    assert!(StandardRequest::parse(0b0000_0000, 0x08, 0, 0, 1).is_err());
}

#[test]
fn get_descriptor_string() {
    // any index; wIndex is a language id
    assert_eq!(
        StandardRequest::parse(0b1000_0000, 0x06, 0x03_02, 1033, 255),
        Ok(StandardRequest::GetDescriptor {
            descriptor: GetDescriptor::String {
                index: 2,
                lang_id: 1033
            },
            length: 255
        })
    );

    // descriptor types Interface (4) and Endpoint (5) cannot be requested
    assert!(StandardRequest::parse(0b1000_0000, 0x06, 0x04_00, 0, 9).is_err());
    assert!(StandardRequest::parse(0b1000_0000, 0x06, 0x05_00, 0, 7).is_err());
    // unknown descriptor type
    assert!(StandardRequest::parse(0b1000_0000, 0x06, 0xff_00, 0, 9).is_err());
}

#[test]
fn get_descriptor_device_qualifier() {
    assert_eq!(
        StandardRequest::parse(0b1000_0000, 0x06, 0x06_00, 0, 10),
        Ok(StandardRequest::GetDescriptor {
            descriptor: GetDescriptor::DeviceQualifier,
            length: 10
        })
    );
    // index must be zero
    assert!(StandardRequest::parse(0b1000_0000, 0x06, 0x06_01, 0, 10).is_err());

    assert_eq!(
        StandardRequest::parse(0b1000_0000, 0x06, 0x07_01, 0, 9),
        Ok(StandardRequest::GetDescriptor {
            descriptor: GetDescriptor::OtherSpeedConfiguration { index: 1 },
            length: 9
        })
    );
    assert!(StandardRequest::parse(0b1000_0000, 0x06, 0x07_00, 1, 9).is_err());
}

#[test]
fn get_interface() {
    assert_eq!(
        StandardRequest::parse(0b1000_0001, 0x0a, 0, 2, 1),
        Ok(StandardRequest::GetInterface { interface: 2 })
    );

    // wValue must be 0 and wLength must be 1
    assert!(StandardRequest::parse(0b1000_0001, 0x0a, 1, 2, 1).is_err());
    assert!(StandardRequest::parse(0b1000_0001, 0x0a, 0, 2, 2).is_err());
    // interface number must fit in one byte
    assert!(StandardRequest::parse(0b1000_0001, 0x0a, 0, 0x0100, 1).is_err());
}

#[test]
fn get_status() {
    assert_eq!(
        StandardRequest::parse(0b1000_0000, 0x00, 0, 0, 2),
        Ok(StandardRequest::GetStatus(GetStatus::Device))
    );
    assert_eq!(
        StandardRequest::parse(0b1000_0001, 0x00, 0, 3, 2),
        Ok(StandardRequest::GetStatus(GetStatus::Interface(3)))
    );
    assert_eq!(
        StandardRequest::parse(0b1000_0010, 0x00, 0, 0x0081, 2),
        Ok(StandardRequest::GetStatus(GetStatus::Endpoint(Endpoint {
            direction: Direction::In,
            number: 1
        })))
    );

    // device status requires wIndex == 0
    assert!(StandardRequest::parse(0b1000_0000, 0x00, 0, 1, 2).is_err());
    // recipient Other is not legal
    assert!(StandardRequest::parse(0b1000_0011, 0x00, 0, 0, 2).is_err());
    // wLength must be 2
    assert!(StandardRequest::parse(0b1000_0000, 0x00, 0, 0, 1).is_err());
}

#[test]
fn set_address_zero_and_range() {
    // address 0 returns the device to the Default state
    assert_eq!(
        StandardRequest::parse(0b0000_0000, 0x05, 0, 0, 0),
        Ok(StandardRequest::SetAddress { address: None })
    );
    // the highest assignable address
    assert_eq!(
        StandardRequest::parse(0b0000_0000, 0x05, 127, 0, 0),
        Ok(StandardRequest::SetAddress {
            address: NonZeroU8::new(127)
        })
    );
    // 128 is out of range
    assert!(StandardRequest::parse(0b0000_0000, 0x05, 128, 0, 0).is_err());
}

#[test]
fn set_configuration_zero() {
    // value 0 means "deconfigure"
    assert_eq!(
        StandardRequest::parse(0b0000_0000, 0x09, 0, 0, 0),
        Ok(StandardRequest::SetConfiguration { value: None })
    );
    // the high byte of wValue must be zero
    assert!(StandardRequest::parse(0b0000_0000, 0x09, 0x0100, 0, 0).is_err());
}

#[test]
fn set_descriptor() {
    assert_eq!(
        StandardRequest::parse(0b0000_0000, 0x07, 0x01_00, 0, 18),
        Ok(StandardRequest::SetDescriptor {
            descriptor: SetDescriptor::Device,
            length: 18
        })
    );
    assert_eq!(
        StandardRequest::parse(0b0000_0000, 0x07, 0x02_01, 0, 9),
        Ok(StandardRequest::SetDescriptor {
            descriptor: SetDescriptor::Configuration { index: 1 },
            length: 9
        })
    );
    assert_eq!(
        StandardRequest::parse(0b0000_0000, 0x07, 0x03_01, 1033, 4),
        Ok(StandardRequest::SetDescriptor {
            descriptor: SetDescriptor::String {
                index: 1,
                lang_id: 1033
            },
            length: 4
        })
    );

    // DeviceQualifier (6) cannot be set
    assert!(StandardRequest::parse(0b0000_0000, 0x07, 0x06_00, 0, 10).is_err());
}

#[test]
fn set_feature() {
    assert_eq!(
        StandardRequest::parse(0b0000_0000, 0x03, 1, 0, 0),
        Ok(StandardRequest::SetFeature(SetFeature::DeviceRemoteWakeup))
    );
    assert_eq!(
        StandardRequest::parse(0b0000_0010, 0x03, 0, 0x0081, 0),
        Ok(StandardRequest::SetFeature(SetFeature::EndpointHalt(
            Endpoint {
                direction: Direction::In,
                number: 1
            }
        )))
    );

    // TEST_MODE: the test selector is the high byte of wIndex
    assert_eq!(
        StandardRequest::parse(0b0000_0000, 0x03, 2, 0x01_00, 0),
        Ok(StandardRequest::SetFeature(SetFeature::TestMode(Test::J)))
    );
    assert_eq!(
        StandardRequest::parse(0b0000_0000, 0x03, 2, 0x05_00, 0),
        Ok(StandardRequest::SetFeature(SetFeature::TestMode(
            Test::ForceEnable
        )))
    );

    // test selector 0 and 6 are not defined
    assert!(StandardRequest::parse(0b0000_0000, 0x03, 2, 0x00_00, 0).is_err());
    assert!(StandardRequest::parse(0b0000_0000, 0x03, 2, 0x06_00, 0).is_err());
    // TEST_MODE requires the low byte of wIndex to be zero
    assert!(StandardRequest::parse(0b0000_0000, 0x03, 2, 0x01_01, 0).is_err());
    // wLength must be 0
    assert!(StandardRequest::parse(0b0000_0000, 0x03, 1, 0, 1).is_err());
}

#[test]
fn set_interface() {
    assert_eq!(
        StandardRequest::parse(0b0000_0001, 0x0b, 1, 2, 0),
        Ok(StandardRequest::SetInterface {
            interface: 2,
            alternate: 1
        })
    );

    // both wValue and wIndex must fit in one byte
    assert!(StandardRequest::parse(0b0000_0001, 0x0b, 0x0100, 2, 0).is_err());
    assert!(StandardRequest::parse(0b0000_0001, 0x0b, 1, 0x0100, 0).is_err());
    // recipient must be Interface
    assert!(StandardRequest::parse(0b0000_0000, 0x0b, 1, 2, 0).is_err());
}

#[test]
fn synch_frame() {
    assert_eq!(
        StandardRequest::parse(0b1000_0010, 0x0c, 0, 0x0001, 2),
        Ok(StandardRequest::SynchFrame {
            endpoint: Endpoint {
                direction: Direction::Out,
                number: 1
            }
        })
    );

    // wValue must be 0 and wLength must be 2
    assert!(StandardRequest::parse(0b1000_0010, 0x0c, 1, 0x0001, 2).is_err());
    assert!(StandardRequest::parse(0b1000_0010, 0x0c, 0, 0x0001, 0).is_err());
    // the endpoint index must decode
    assert!(StandardRequest::parse(0b1000_0010, 0x0c, 0, 0x0011, 2).is_err());
}

#[test]
fn dispatch_standard() {
    assert_eq!(
        Request::parse(0b0000_0000, 0x05, 16, 0, 0),
        Ok(Request::Standard(StandardRequest::SetAddress {
            address: NonZeroU8::new(16)
        }))
    );
}

#[test]
fn dispatch_vendor_rejected() {
    // no vendor grammar is registered: every vendor-typed request is rejected
    assert!(Request::parse(0b0100_0000, 0x05, 16, 0, 0).is_err());
    assert!(Request::parse(0b1100_0000, 0x06, 0x0100, 0, 18).is_err());
}

#[test]
fn dispatch_reserved_bits_rejected() {
    // reserved type field
    assert!(Request::parse(0b0110_0000, 0x05, 16, 0, 0).is_err());
    // reserved recipient field
    assert!(Request::parse(0b0000_0101, 0x05, 16, 0, 0).is_err());
}

#[test]
fn nonzero_byte() {
    assert_eq!(NonZeroU8::new(0), None);
    assert_eq!(NonZeroU8::new(5).unwrap().get(), 5);
}
