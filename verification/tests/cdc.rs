use usb2::cdc::acm::{
    bCharFormat, bDataBits, bParityType, Capabilities, Descriptor, Kind, LineCoding, Request,
    SerialState,
};
use usb2::cdc::{header, Class, Protocol, SubClass};

#[test]
fn set_line_coding() {
    assert_eq!(
        Request::parse(0b0010_0001, 0x20, 0, 1, 7),
        Ok(Request {
            interface: 1,
            kind: Kind::SetLineCoding
        })
    );

    // wValue must be 0 and wLength must be 7
    assert!(Request::parse(0b0010_0001, 0x20, 1, 1, 7).is_err());
    assert!(Request::parse(0b0010_0001, 0x20, 0, 1, 8).is_err());
    // direction must be host-to-device
    assert!(Request::parse(0b1010_0001, 0x20, 0, 1, 7).is_err());
}

#[test]
fn get_line_coding() {
    assert_eq!(
        Request::parse(0b1010_0001, 0x21, 0, 2, 7),
        Ok(Request {
            interface: 2,
            kind: Kind::GetLineCoding
        })
    );

    // direction must be device-to-host
    assert!(Request::parse(0b0010_0001, 0x21, 0, 2, 7).is_err());
}

#[test]
fn set_control_line_state() {
    assert_eq!(
        Request::parse(0b0010_0001, 0x22, 0b11, 0, 0),
        Ok(Request {
            interface: 0,
            kind: Kind::SetControlLineState {
                dtr: true,
                rts: true
            }
        })
    );
    assert_eq!(
        Request::parse(0b0010_0001, 0x22, 0b01, 0, 0),
        Ok(Request {
            interface: 0,
            kind: Kind::SetControlLineState {
                dtr: true,
                rts: false
            }
        })
    );

    // any set bit above bit 1 is a hard rejection
    assert!(Request::parse(0b0010_0001, 0x22, 0b100, 0, 0).is_err());
    assert!(Request::parse(0b0010_0001, 0x22, 0x8000, 0, 0).is_err());
    // wLength must be 0
    assert!(Request::parse(0b0010_0001, 0x22, 0b11, 0, 1).is_err());
}

#[test]
fn acm_request_must_be_class_typed() {
    // a Standard-typed bmRequestType is rejected by the ACM entry point
    assert!(Request::parse(0b0000_0001, 0x20, 0, 1, 7).is_err());
    // an unknown class request code is rejected
    assert!(Request::parse(0b0010_0001, 0x23, 0, 1, 0).is_err());
}

#[test]
fn dispatch_acm() {
    assert_eq!(
        usb2::Request::parse(0b0010_0001, 0x22, 0b10, 3, 0),
        Ok(usb2::Request::Acm(Request {
            interface: 3,
            kind: Kind::SetControlLineState {
                dtr: false,
                rts: true
            }
        }))
    );
}

#[test]
fn cdc_class_codes() {
    let comm = Class::Communications {
        subclass: SubClass::AbstractControlModel,
        protocol: Protocol::ATCommands,
    };
    assert_eq!(comm.class().get(), 2);
    assert_eq!(comm.subclass(), 2);
    assert_eq!(comm.protocol(), 1);

    let data = Class::CdcData;
    assert_eq!(data.class().get(), 10);
    assert_eq!(data.subclass(), 0);
    assert_eq!(data.protocol(), 0);
}

#[test]
fn header_descriptor_bytes() {
    let desc = header::Descriptor { bcdCDC: 0x01_10 };
    assert_eq!(desc.bytes(), [5, 0x24, 0x00, 0x10, 0x01]);
    // encoding is deterministic
    assert_eq!(desc.bytes(), desc.bytes());
}

#[test]
fn acm_descriptor_bytes() {
    let none = Descriptor {
        bmCapabilities: Capabilities {
            comm_features: false,
            line_serial: false,
            send_break: false,
            network_connection: false,
        },
    };
    assert_eq!(none.bytes(), [4, 0x24, 0x02, 0b0000]);

    let some = Descriptor {
        bmCapabilities: Capabilities {
            comm_features: true,
            line_serial: true,
            send_break: false,
            network_connection: true,
        },
    };
    assert_eq!(some.bytes(), [4, 0x24, 0x02, 0b1011]);
}

#[test]
fn line_coding_bytes() {
    let coding = LineCoding {
        dwDTERate: 115_200,
        bCharFormat: bCharFormat::Stop1,
        bParityType: bParityType::NoParity,
        bDataBits: bDataBits::_8,
    };
    // 115200 = 0x0001_C200
    assert_eq!(coding.bytes(), [0x00, 0xC2, 0x01, 0x00, 0, 0, 8]);

    let other = LineCoding {
        dwDTERate: 9600,
        bCharFormat: bCharFormat::Stop2,
        bParityType: bParityType::Even,
        bDataBits: bDataBits::_7,
    };
    // 9600 = 0x2580
    assert_eq!(other.bytes(), [0x80, 0x25, 0x00, 0x00, 2, 2, 7]);
}

#[test]
fn serial_state_bytes() {
    let quiet = SerialState {
        interface: 1,
        bOverRun: false,
        bParity: false,
        bFraming: false,
        bRingSignal: false,
        bBreak: false,
        bTxCarrier: false,
        bRxCarrier: false,
    };
    assert_eq!(
        quiet.bytes(),
        [0b1010_0001, 0x20, 0, 0, 1, 0, 2, 0, 0, 0]
    );

    let noisy = SerialState {
        interface: 0,
        bOverRun: true,
        bParity: false,
        bFraming: true,
        bRingSignal: false,
        bBreak: false,
        bTxCarrier: true,
        bRxCarrier: true,
    };
    assert_eq!(
        noisy.bytes(),
        [0b1010_0001, 0x20, 0, 0, 0, 0, 2, 0, 0b0101_0011, 0]
    );
    // encoding is deterministic
    assert_eq!(noisy.bytes(), noisy.bytes());
}
