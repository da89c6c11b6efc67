use drv_i2c::digest::{Algorithm, DigestResult, HmacHashError};
use drv_i2c::mux::{ControlRegister, Pca9548};
use drv_i2c::types::{
    reserved_address, Controller, Mux, Op, ReservedAddress, ResponseCode, Segment, SlaveConfig,
    SlaveMessage, PortIndex,
};

#[test]
fn codes_round_trip() {
    for v in 0u32..40 {
        match ResponseCode::from_u32(v) {
            Some(rc) => assert_eq!(rc.id(), v),
            None => assert!(v == 0 || v > 31),
        }
    }
    assert_eq!(ResponseCode::from_u32(18), Some(ResponseCode::BusLocked));
    assert_eq!(Op::from_u16(2), Some(Op::WriteReadBlock));
    assert_eq!(Op::from_u16(7), None);
    assert_eq!(Mux::from_u8(0), None);
    assert_eq!(Segment::from_u8(16), Some(Segment::S16));
    assert_eq!(Controller::I2C5.id(), 5);
}

#[test]
fn reserved_addresses() {
    for a in 0u8..=0x7F {
        let expected = a <= 0x07 || a >= 0x78;
        assert_eq!(reserved_address(a), expected, "address {:#x}", a);
    }
    assert_eq!(ReservedAddress::from_u8(0), Some(ReservedAddress::GeneralCall));
    assert_eq!(ReservedAddress::from_u8(0x7F), Some(ReservedAddress::TenBit11));
    assert!(!reserved_address(0x80));
}

#[test]
fn slave_message_holds_its_payload() {
    let m = SlaveMessage::new(0x10, &[1, 2, 3]).unwrap();
    assert_eq!(m.source_address, 0x10);
    assert_eq!(m.data(), &[1, 2, 3]);
    assert!(SlaveMessage::new(0x10, &[0u8; 255]).is_ok());
    assert_eq!(SlaveMessage::new(0x10, &[0u8; 256]), Err(ResponseCode::TooMuchData));
}

#[test]
fn slave_config_rejects_bad_addresses() {
    assert_eq!(SlaveConfig::new(Controller::I2C0, PortIndex(0), 0x00), Err(ResponseCode::BadSlaveAddress));
    assert_eq!(SlaveConfig::new(Controller::I2C0, PortIndex(0), 0x7C), Err(ResponseCode::BadSlaveAddress));
    assert_eq!(SlaveConfig::new(Controller::I2C0, PortIndex(0), 0x80), Err(ResponseCode::BadSlaveAddress));
    let cfg = SlaveConfig::new(Controller::I2C2, PortIndex(1), 0x42).unwrap();
    assert_eq!(cfg.address, 0x42);
    assert_eq!(cfg.controller, Controller::I2C2);
}

#[test]
fn pca9548_register_is_one_hot() {
    assert_eq!(Pca9548::control_register(None), Ok(ControlRegister(0)));
    assert_eq!(Pca9548::control_register(Some(Segment::S1)), Ok(ControlRegister(0x01)));
    assert_eq!(Pca9548::control_register(Some(Segment::S5)), Ok(ControlRegister(0x10)));
    assert_eq!(Pca9548::control_register(Some(Segment::S8)), Ok(ControlRegister(0x80)));
    assert_eq!(Pca9548::control_register(Some(Segment::S9)), Err(ResponseCode::SegmentNotFound));
    let mut reg = ControlRegister(0x81);
    reg.set_channel_enabled(7, false);
    reg.set_channel_enabled(2, true);
    assert_eq!(reg, ControlRegister(0x05));
}

#[test]
fn digest_sizes() {
    assert_eq!(Algorithm::from_u32(3), Ok(Algorithm::Sha384));
    assert_eq!(Algorithm::from_u32(9), Err(HmacHashError::InvalidAlgorithm));
    assert_eq!(Algorithm::Sha1.digest_size(), 20);
    assert_eq!(Algorithm::Sha512.digest_size(), 64);
    let d = DigestResult { bytes: [7u8; 64], len: 32 };
    assert_eq!(d.as_slice().len(), 32);
}
