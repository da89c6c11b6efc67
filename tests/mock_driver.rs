use drv_i2c::hardware::I2cHardware;
use drv_i2c::mock::MockI2cDriver;
use drv_i2c::types::{Controller, ResponseCode, SlaveConfig, PortIndex, SlaveMessage};

#[test]
fn test_mock_default_behavior() {
    let mut driver = MockI2cDriver::new();
    let mut buffer = [0u8; 4];

    // Test read-only operation
    let result = driver.write_read(Controller::I2C0, 0x50, &[], &mut buffer);
    assert!(result.is_ok());
    assert_eq!(buffer, [0x50, 0x51, 0x52, 0x53]);

    // Test write-read operation
    let result = driver.write_read(Controller::I2C0, 0x60, &[0xAA, 0xBB], &mut buffer);
    assert!(result.is_ok());
    assert_eq!(buffer[..2], [0xAA, 0xBB]);
}

#[test]
fn test_configured_responses() {
    let mut driver = MockI2cDriver::new();
    let mut buffer = [0u8; 4];

    // Configure response
    driver.set_device_response(Controller::I2C0, 0x40, &[0x12, 0x34]).unwrap();

    // Test configured response
    let result = driver.write_read(Controller::I2C0, 0x40, &[0xFF], &mut buffer);
    assert!(result.is_ok());
    assert_eq!(result.unwrap(), 2);
    assert_eq!(buffer[..2], [0x12, 0x34]);
}

#[test]
fn test_error_simulation() {
    let mut driver = MockI2cDriver::new();
    let mut buffer = [0u8; 4];

    // Configure error
    driver.set_device_error(Controller::I2C0, 0x70, ResponseCode::NoDevice).unwrap();

    // Test error response
    let result = driver.write_read(Controller::I2C0, 0x70, &[], &mut buffer);
    assert!(result.is_err());
    assert_eq!(result.unwrap_err(), ResponseCode::NoDevice);
}

#[test]
fn mock_counts_transactions_and_resets() {
    let mut driver = MockI2cDriver::new();
    let mut buffer = [0u8; 2];
    driver.write_read(Controller::I2C1, 0x10, &[1], &mut buffer).unwrap();
    driver.write_read_block(Controller::I2C1, 0x10, &[1], &mut buffer).unwrap();
    assert_eq!(driver.transaction_count(), 2);
    driver.reset();
    assert_eq!(driver.transaction_count(), 0);
}

#[test]
fn mock_read_pattern_wraps() {
    let mut driver = MockI2cDriver::new();
    let mut buffer = [0u8; 3];
    assert_eq!(driver.write_read(Controller::I2C0, 0xFE, &[], &mut buffer), Ok(3));
    assert_eq!(buffer, [0xFE, 0xFF, 0x00]);
}

#[test]
fn mock_short_reply_leaves_rest_of_buffer() {
    let mut driver = MockI2cDriver::new();
    let mut buffer = [9u8; 4];
    assert_eq!(driver.write_read(Controller::I2C0, 0x20, &[7], &mut buffer), Ok(1));
    assert_eq!(buffer, [7, 9, 9, 9]);
}

#[test]
fn mock_response_is_per_device() {
    let mut driver = MockI2cDriver::new();
    driver.set_device_error(Controller::I2C0, 0x70, ResponseCode::BusLocked).unwrap();
    let mut buffer = [0u8; 1];
    assert_eq!(driver.write_read(Controller::I2C0, 0x71, &[5], &mut buffer), Ok(1));
    assert_eq!(driver.write_read(Controller::I2C1, 0x70, &[5], &mut buffer), Ok(1));
    assert_eq!(driver.write_read(Controller::I2C0, 0x70, &[5], &mut buffer), Err(ResponseCode::BusLocked));
}

#[test]
fn mock_response_too_long_is_refused() {
    let mut driver = MockI2cDriver::new();
    assert!(driver.set_device_response(Controller::I2C0, 0x40, &[0u8; 17]).is_err());
    assert!(driver.set_device_response(Controller::I2C0, 0x40, &[0u8; 16]).is_ok());
}

#[test]
fn mock_slave_receive_toggles_are_idempotent() {
    let mut driver = MockI2cDriver::new();
    let cfg = SlaveConfig::new(Controller::I2C0, PortIndex(0), 0x42).unwrap();
    driver.configure_slave_mode(Controller::I2C0, &cfg).unwrap();
    driver.enable_slave_receive(Controller::I2C0).unwrap();
    driver.enable_slave_receive(Controller::I2C0).unwrap();
    assert!(driver.get_slave_status(Controller::I2C0).unwrap().enabled);
    driver.disable_slave_receive(Controller::I2C0).unwrap();
    driver.disable_slave_receive(Controller::I2C0).unwrap();
    let status = driver.get_slave_status(Controller::I2C0).unwrap();
    assert!(!status.enabled);
    assert_eq!(status.messages_received, 0);
    assert!(!status.buffer_full);
    let mut msgs = [SlaveMessage::new(0, &[]).unwrap(); 2];
    assert_eq!(driver.poll_slave_messages(Controller::I2C0, &mut msgs), Ok(0));
}
