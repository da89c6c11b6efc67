use drv_i2c::marshal::{decode_header, encode_header, I2cMessage, Marshal};
use drv_i2c::types::{Controller, Mux, PortIndex, ResponseCode, Segment};

#[test]
fn header_layout_without_mux() {
    let m: I2cMessage = (0x50, Controller::I2C3, PortIndex(2), None);
    assert_eq!(encode_header(&m), [0x50, 3, 2, 0]);
}

#[test]
fn header_layout_with_mux() {
    let m: I2cMessage = (0x48, Controller::I2C1, PortIndex(0), Some((Mux::M1, Segment::S2)));
    assert_eq!(encode_header(&m), [0x48, 1, 0, 0x92]);
    let m: I2cMessage = (0x48, Controller::I2C7, PortIndex(255), Some((Mux::M5, Segment::S15)));
    assert_eq!(m.marshal(), [0x48, 7, 255, 0xDF]);
}

#[test]
fn header_round_trips() {
    let muxes = [Mux::M1, Mux::M2, Mux::M3, Mux::M4, Mux::M5];
    let segs = [
        Segment::S1, Segment::S2, Segment::S3, Segment::S4, Segment::S5, Segment::S6, Segment::S7,
        Segment::S8, Segment::S9, Segment::S10, Segment::S11, Segment::S12, Segment::S13,
        Segment::S14, Segment::S15,
    ];
    for c in 0u8..8 {
        let controller = Controller::from_u8(c).unwrap();
        let m: I2cMessage = (0x33, controller, PortIndex(c), None);
        assert_eq!(decode_header(&encode_header(&m)), Ok(m));
        for mux in muxes {
            for seg in segs {
                let m: I2cMessage = (0x33, controller, PortIndex(7), Some((mux, seg)));
                assert_eq!(<I2cMessage as Marshal<[u8; 4]>>::unmarshal(&m.marshal()), Ok(m));
            }
        }
    }
}

#[test]
fn sixteenth_segment_does_not_fit_the_flags_byte() {
    let m: I2cMessage = (0x33, Controller::I2C0, PortIndex(0), Some((Mux::M1, Segment::S16)));
    assert_eq!(encode_header(&m)[3], 0x90);
    assert_eq!(decode_header(&encode_header(&m)), Err(ResponseCode::BadSegment));
}

#[test]
fn header_errors_name_the_field() {
    assert_eq!(decode_header(&[0x50, 8, 0, 0]), Err(ResponseCode::BadController));
    assert_eq!(decode_header(&[0x50, 0xFF, 0, 0x92]), Err(ResponseCode::BadController));
    assert_eq!(decode_header(&[0x50, 0, 0, 0x80]), Err(ResponseCode::BadMux));
    assert_eq!(decode_header(&[0x50, 0, 0, 0xE1]), Err(ResponseCode::BadMux));
    assert_eq!(decode_header(&[0x50, 0, 0, 0x90]), Err(ResponseCode::BadSegment));
}
