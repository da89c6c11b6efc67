use drv_i2c::client::{classify_reply, I2cDevice, ServerReply};
use drv_i2c::hardware::I2cHardware;
use drv_i2c::mock::MockI2cDriver;
use drv_i2c::slave::{check_slave_buffer, configure_slave_address, encode_records, parse_records, set_slave_receive};
use drv_i2c::types::{Controller, Mux, PortIndex, ResponseCode, Segment, SlaveMessage};

#[test]
fn slave_address_configuration() {
    let mut hw = MockI2cDriver::new();
    let dev = I2cDevice::new(3, Controller::I2C1, PortIndex(2), None, 0x10);
    assert_eq!(configure_slave_address(&mut hw, &dev.slave_address_header(0x00)), Err(ResponseCode::BadSlaveAddress));
    assert_eq!(configure_slave_address(&mut hw, &dev.slave_address_header(0x78)), Err(ResponseCode::BadSlaveAddress));
    assert_eq!(configure_slave_address(&mut hw, &dev.slave_address_header(0x90)), Err(ResponseCode::BadSlaveAddress));
    let cfg = configure_slave_address(&mut hw, &dev.slave_address_header(0x42)).unwrap();
    assert_eq!(cfg.address, 0x42);
    assert_eq!(cfg.controller, Controller::I2C1);
    assert_eq!(cfg.port, PortIndex(2));
    assert_eq!(configure_slave_address(&mut hw, &[0x42, 12, 0, 0]), Err(ResponseCode::BadController));
}

#[test]
fn slave_receive_is_idempotent() {
    let mut hw = MockI2cDriver::new();
    let dev = I2cDevice::new(3, Controller::I2C0, PortIndex(0), None, 0x10);
    let h = dev.slave_header();
    set_slave_receive(&mut hw, &h, true).unwrap();
    set_slave_receive(&mut hw, &h, true).unwrap();
    assert!(hw.get_slave_status(Controller::I2C0).unwrap().enabled);
    set_slave_receive(&mut hw, &h, false).unwrap();
    set_slave_receive(&mut hw, &h, false).unwrap();
    assert!(!hw.get_slave_status(Controller::I2C0).unwrap().enabled);
    assert_eq!(check_slave_buffer(&mut hw, &h, 64), Ok(vec![]));
}

#[test]
fn records_encode_and_parse() {
    let a = SlaveMessage::new(0x20, &[1, 2, 3]).unwrap();
    let b = SlaveMessage::new(0x21, &[]).unwrap();
    let c = SlaveMessage::new(0x22, &[9; 10]).unwrap();
    let bytes = encode_records(&[a, b, c], 100);
    assert_eq!(&bytes[..7], &[0x20, 3, 1, 2, 3, 0x21, 0]);
    assert_eq!(bytes.len(), 19);
    // a record that does not fit ends the list
    assert_eq!(encode_records(&[a, b, c], 8), vec![0x20, 3, 1, 2, 3, 0x21, 0]);
    let parsed = parse_records(&bytes, bytes.len(), 8);
    assert_eq!(parsed, vec![a, b, c]);
    assert_eq!(parse_records(&bytes, bytes.len(), 2), vec![a, b]);
    // a record cut short is dropped
    assert_eq!(parse_records(&bytes, 18, 8), vec![a, b]);
}

#[test]
fn client_unpacks_messages() {
    let bytes = [0x30, 2, 0xAA, 0xBB, 0x31, 1, 0xCC];
    let mut msgs = [SlaveMessage::new(0, &[]).unwrap(); 4];
    let n = I2cDevice::unpack_slave_messages(&bytes, bytes.len(), &mut msgs);
    assert_eq!(n, 2);
    assert_eq!(msgs[0].source_address, 0x30);
    assert_eq!(msgs[0].data(), &[0xAA, 0xBB]);
    assert_eq!(msgs[1].data(), &[0xCC]);
    let mut one = [SlaveMessage::new(0, &[]).unwrap(); 1];
    assert_eq!(I2cDevice::unpack_slave_messages(&bytes, bytes.len(), &mut one), 1);
}

#[test]
fn client_headers_and_replies() {
    let dev = I2cDevice::new(3, Controller::I2C1, PortIndex(0), Some((Mux::M1, Segment::S2)), 0x48);
    assert_eq!(dev.header(), [0x48, 1, 0, 0x92]);
    assert_eq!(dev.slave_header(), [0, 1, 0, 0x92]);
    assert_eq!(dev.slave_address_header(0x1D), [0x1D, 1, 0, 0]);
    assert_eq!(classify_reply(0), ServerReply::Success);
    assert_eq!(classify_reply(18), ServerReply::Failed(ResponseCode::BusLocked));
    assert_eq!(classify_reply(500), ServerReply::Failed(ResponseCode::BadResponse));
    assert_eq!(classify_reply(0xFFFF_FF03), ServerReply::Restarted(3));
}

#[test]
fn slave_buffer_polls_only_what_fits() {
    let mut hw = MockI2cDriver::new();
    let dev = I2cDevice::new(3, Controller::I2C0, PortIndex(0), None, 0x10);
    let h = dev.slave_header();
    assert_eq!(check_slave_buffer(&mut hw, &h, 256), Ok(vec![]));
    assert!(hw.history().is_empty());
    assert_eq!(check_slave_buffer(&mut hw, &h, 1024), Ok(vec![]));
    assert_eq!(hw.history().len(), 1);
    assert_eq!(hw.history()[0].messages.len(), 3);
    assert_eq!(check_slave_buffer(&mut hw, &[0, 9, 0, 0], 1024), Err(ResponseCode::BadController));
}
