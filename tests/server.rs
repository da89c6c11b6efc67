use drv_i2c::dispatch::{check_leases, LeaseInfo};
use drv_i2c::hardware::{BusOpKind, I2cHardware};
use drv_i2c::marshal::encode_header;
use drv_i2c::mock::{MockI2cDriver, MockPin};
use drv_i2c::mux::{I2cMuxConfig, I2cMuxDriver, Pca9548, PinEvent};
use drv_i2c::topology::{I2cMux, I2cPins, I2cServer, MuxKind, MuxState, PortSwitch};
use drv_i2c::types::{Controller, Mux, Op, PortIndex, ResponseCode, Segment};


/// (address, first byte written) of each transfer, in order.
fn transfers(hw: &MockI2cDriver) -> Vec<(u8, Vec<u8>, usize, bool)> {
    hw.history()
        .iter()
        .filter(|op| op.kind == BusOpKind::Transfer)
        .map(|op| (op.addr, op.write.clone(), op.read_len, op.block))
        .collect()
}

/// (mux address, register byte) of each mux write, in order.
fn mux_writes(hw: &MockI2cDriver) -> Vec<(u8, u8)> {
    transfers(hw).into_iter().filter(|t| t.0 != DEV).map(|t| (t.0, t.1[0])).collect()
}

fn resets(hw: &MockI2cDriver) -> usize {
    hw.history().iter().filter(|op| op.kind == BusOpKind::Reset).count()
}

const MUX_ADDR: u8 = 0x70;
const MUX2_ADDR: u8 = 0x71;
const DEV: u8 = 0x50;

fn board() -> I2cServer<MockPin> {
    let pins = vec![
        I2cPins { controller: Controller::I2C0, port: PortIndex(0) },
        I2cPins { controller: Controller::I2C0, port: PortIndex(1) },
    ];
    let muxes = vec![
        I2cMux {
            port: PortIndex(0),
            id: Mux::M1,
            kind: MuxKind::Pca9548,
            config: I2cMuxConfig { controller: Controller::I2C0, address: MUX_ADDR, reset_pin: None },
        },
        I2cMux {
            port: PortIndex(0),
            id: Mux::M2,
            kind: MuxKind::Pca9548,
            config: I2cMuxConfig { controller: Controller::I2C0, address: MUX2_ADDR, reset_pin: None },
        },
    ];
    I2cServer::new(vec![Controller::I2C0], pins, muxes)
}

fn lease(len: usize, readable: bool, writable: bool) -> LeaseInfo {
    LeaseInfo { len, readable, writable }
}

fn rw_leases(wlen: usize, rlen: usize) -> Vec<LeaseInfo> {
    vec![lease(wlen, true, false), lease(rlen, false, true)]
}

fn header(mux: Option<(Mux, Segment)>, addr: u8) -> [u8; 4] {
    encode_header(&(addr, Controller::I2C0, PortIndex(0), mux))
}

/// One write/read request of `write` and `read_len` bytes.
fn request<H: I2cHardware>(
    server: &mut I2cServer<MockPin>,
    hw: &mut H,
    op: Op,
    h: [u8; 4],
    write: &[u8],
    read_len: usize,
) -> Result<(usize, Vec<Vec<u8>>), ResponseCode> {
    let leases = rw_leases(write.len(), read_len);
    let t = server.prepare_transfer(op, &h, &leases)?;
    let reply = server.perform_transfer(hw, &t, &leases, &vec![write.to_vec()])?;
    Ok((reply.total, reply.reads))
}

#[test]
fn scenario_plain_device_write_then_read() {
    let mut server = board();
    let mut hw = MockI2cDriver::new();
    hw.set_device_response(Controller::I2C0, DEV, &[0xA0, 0xA1, 0xA2]).unwrap();
    let (total, reads) = request(&mut server, &mut hw, Op::WriteRead, header(None, DEV), &[0x10], 2).unwrap();
    assert_eq!(transfers(&hw), vec![(DEV, vec![0x10], 2, false)]);
    assert_eq!(total, 2);
    assert_eq!(reads, vec![vec![0xA0, 0xA1]]);
    assert_eq!(hw.transaction_count(), 1);
}

#[test]
fn scenario_same_segment_twice_programs_mux_once() {
    let mut server = board();
    let mut hw = MockI2cDriver::new();
    let h = header(Some((Mux::M1, Segment::S2)), DEV);
    request(&mut server, &mut hw, Op::WriteRead, h, &[1], 1).unwrap();
    request(&mut server, &mut hw, Op::WriteRead, h, &[1], 1).unwrap();
    assert_eq!(mux_writes(&hw), vec![(MUX_ADDR, 0x02)]);
    // one mux write and two device transactions
    assert_eq!(hw.transaction_count(), 3);
    assert_eq!(server.mux_state(Controller::I2C0, PortIndex(0)), Some(MuxState::Enabled(Mux::M1, Segment::S2)));
}

#[test]
fn scenario_other_segment_of_same_mux() {
    let mut server = board();
    let mut hw = MockI2cDriver::new();
    request(&mut server, &mut hw, Op::WriteRead, header(Some((Mux::M1, Segment::S2)), DEV), &[1], 1).unwrap();
    request(&mut server, &mut hw, Op::WriteRead, header(Some((Mux::M1, Segment::S5)), DEV), &[1], 1).unwrap();
    assert_eq!(mux_writes(&hw), vec![(MUX_ADDR, 0x02), (MUX_ADDR, 0x10)]);
    assert_eq!(server.mux_state(Controller::I2C0, PortIndex(0)), Some(MuxState::Enabled(Mux::M1, Segment::S5)));
}

#[test]
fn switching_mux_disables_the_previous_one() {
    let mut server = board();
    let mut hw = MockI2cDriver::new();
    request(&mut server, &mut hw, Op::WriteRead, header(Some((Mux::M1, Segment::S2)), DEV), &[1], 1).unwrap();
    request(&mut server, &mut hw, Op::WriteRead, header(Some((Mux::M2, Segment::S3)), DEV), &[1], 1).unwrap();
    assert_eq!(mux_writes(&hw), vec![(MUX_ADDR, 0x02), (MUX_ADDR, 0x00), (MUX2_ADDR, 0x04)]);
}

#[test]
fn direct_access_after_mux_disables_every_mux() {
    let mut server = board();
    let mut hw = MockI2cDriver::new();
    request(&mut server, &mut hw, Op::WriteRead, header(Some((Mux::M1, Segment::S2)), DEV), &[1], 1).unwrap();
    request(&mut server, &mut hw, Op::WriteRead, header(None, DEV), &[1], 1).unwrap();
    assert_eq!(mux_writes(&hw), vec![(MUX_ADDR, 0x02), (MUX_ADDR, 0x00), (MUX2_ADDR, 0x00)]);
    assert_eq!(server.mux_state(Controller::I2C0, PortIndex(0)), None);
    // no mux, no mux: nothing more
    request(&mut server, &mut hw, Op::WriteRead, header(None, DEV), &[1], 1).unwrap();
    assert_eq!(mux_writes(&hw).len(), 3);
}

#[test]
fn scenario_bus_locked_fault_forces_reprogramming() {
    let mut server = board();
    let mut hw = MockI2cDriver::new();
    let h = header(Some((Mux::M1, Segment::S2)), DEV);
    request(&mut server, &mut hw, Op::WriteRead, h, &[1], 1).unwrap();
    hw.set_device_error(Controller::I2C0, DEV, ResponseCode::BusLocked).unwrap();
    assert_eq!(request(&mut server, &mut hw, Op::WriteRead, h, &[1], 1), Err(ResponseCode::BusLocked));
    assert_eq!(server.mux_state(Controller::I2C0, PortIndex(0)), Some(MuxState::Unknown));
    assert_eq!(resets(&hw), 1);
    // recovery disconnects every mux on the bus after the reset
    assert_eq!(mux_writes(&hw), vec![(MUX_ADDR, 0x02), (MUX_ADDR, 0x00), (MUX2_ADDR, 0x00)]);
    hw.reset();
    request(&mut server, &mut hw, Op::WriteRead, h, &[1], 1).unwrap();
    assert_eq!(mux_writes(&hw), vec![(MUX_ADDR, 0x00), (MUX2_ADDR, 0x00), (MUX_ADDR, 0x02)]);
    assert_eq!(server.mux_state(Controller::I2C0, PortIndex(0)), Some(MuxState::Enabled(Mux::M1, Segment::S2)));
}

#[test]
fn device_error_that_is_no_bus_fault_keeps_the_cache() {
    let mut server = board();
    let mut hw = MockI2cDriver::new();
    let h = header(Some((Mux::M1, Segment::S2)), DEV);
    hw.set_device_error(Controller::I2C0, DEV, ResponseCode::NoDevice).unwrap();
    assert_eq!(request(&mut server, &mut hw, Op::WriteRead, h, &[1], 1), Err(ResponseCode::NoDevice));
    assert_eq!(resets(&hw), 0);
    assert_eq!(server.mux_state(Controller::I2C0, PortIndex(0)), Some(MuxState::Enabled(Mux::M1, Segment::S2)));
}

#[test]
fn mux_fault_is_reported_as_mux_variant() {
    let mut server = board();
    let mut hw = MockI2cDriver::new();
    hw.set_device_error(Controller::I2C0, MUX_ADDR, ResponseCode::BusLocked).unwrap();
    let h = header(Some((Mux::M1, Segment::S2)), DEV);
    assert_eq!(request(&mut server, &mut hw, Op::WriteRead, h, &[1], 1), Err(ResponseCode::BusLockedMux));
    assert_eq!(server.mux_state(Controller::I2C0, PortIndex(0)), Some(MuxState::Unknown));
    assert_eq!(resets(&hw), 1);
}

#[test]
fn unknown_mux_and_unreachable_segment() {
    let mut server = board();
    let mut hw = MockI2cDriver::new();
    let h = header(Some((Mux::M3, Segment::S1)), DEV);
    assert_eq!(request(&mut server, &mut hw, Op::WriteRead, h, &[1], 1), Err(ResponseCode::MuxNotFound));
    assert!(hw.history().is_empty());
    assert_eq!(server.mux_state(Controller::I2C0, PortIndex(0)), Some(MuxState::Unknown));
    let h = header(Some((Mux::M1, Segment::S9)), DEV);
    assert_eq!(request(&mut server, &mut hw, Op::WriteRead, h, &[1], 1), Err(ResponseCode::SegmentNotFound));
    // the unknown state is cleared first; the segment has no channel, so no enable is written
    assert_eq!(mux_writes(&hw), vec![(MUX_ADDR, 0x00), (MUX2_ADDR, 0x00)]);
}

#[test]
fn boundary_lease_lengths_and_counts() {
    assert_eq!(check_leases(&rw_leases(255, 255)), Ok(()));
    assert_eq!(check_leases(&rw_leases(256, 1)), Err(ResponseCode::TooMuchData));
    assert_eq!(check_leases(&rw_leases(1, 256)), Err(ResponseCode::TooMuchData));
    let three = vec![lease(1, true, false), lease(1, false, true), lease(1, true, false)];
    assert_eq!(check_leases(&three), Err(ResponseCode::IllegalLeaseCount));
    assert_eq!(check_leases(&vec![]), Err(ResponseCode::IllegalLeaseCount));
    assert_eq!(check_leases(&rw_leases(0, 0)), Err(ResponseCode::BadArg));
    assert_eq!(check_leases(&vec![lease(1, false, false), lease(1, false, true)]), Err(ResponseCode::BadArg));
    assert_eq!(check_leases(&vec![lease(1, true, false), lease(1, true, false)]), Err(ResponseCode::BadArg));
    assert_eq!(check_leases(&vec![lease(1, true, false), lease(0, true, false)]), Ok(()));
}

#[test]
fn boundary_255_byte_transfer_runs() {
    let mut server = board();
    let mut hw = MockI2cDriver::new();
    let w = vec![0x11u8; 255];
    let (total, reads) = request(&mut server, &mut hw, Op::WriteRead, header(None, DEV), &w, 255).unwrap();
    assert_eq!(total, 255);
    assert_eq!(reads[0].len(), 255);
    let leases = rw_leases(256, 1);
    assert_eq!(server.prepare_transfer(Op::WriteRead, &header(None, DEV), &leases).err(), Some(ResponseCode::TooMuchData));
}

#[test]
fn reserved_addresses_touch_no_hardware() {
    let mut server = board();
    let mut hw = MockI2cDriver::new();
    for addr in (0x00u8..=0x07).chain(0x78..=0x7F) {
        let leases = rw_leases(1, 1);
        let r = server.prepare_transfer(Op::WriteRead, &header(None, addr), &leases);
        assert_eq!(r.err(), Some(ResponseCode::ReservedAddress));
    }
    assert_eq!(hw.transaction_count(), 0);
    request(&mut server, &mut hw, Op::WriteRead, header(None, 0x08), &[1], 1).unwrap();
    assert_eq!(hw.transaction_count(), 1);
}

#[test]
fn validation_order_and_topology_errors() {
    let mut server = board();
    assert_eq!(
        server.prepare_transfer(Op::CheckSlaveBuffer, &header(None, DEV), &rw_leases(1, 1)).err(),
        Some(ResponseCode::OperationNotSupported)
    );
    assert_eq!(
        server.prepare_transfer(Op::WriteRead, &[DEV, 9, 0, 0], &vec![]).err(),
        Some(ResponseCode::IllegalLeaseCount)
    );
    assert_eq!(
        server.prepare_transfer(Op::WriteRead, &[DEV, 9, 0, 0], &rw_leases(1, 1)).err(),
        Some(ResponseCode::BadController)
    );
    assert_eq!(
        server.prepare_transfer(Op::WriteRead, &[DEV, 1, 0, 0], &rw_leases(1, 1)).err(),
        Some(ResponseCode::BadController)
    );
    assert_eq!(
        server.prepare_transfer(Op::WriteRead, &[DEV, 0, 2, 0], &rw_leases(1, 1)).err(),
        Some(ResponseCode::BadPort)
    );
    assert_eq!(
        server.prepare_transfer(Op::WriteRead, &[0x03, 0, 0, 0], &rw_leases(0, 0)).err(),
        Some(ResponseCode::BadArg)
    );
}

#[test]
fn port_switch_is_reported_once() {
    let mut server = board();
    let t = server.prepare_transfer(Op::WriteRead, &[DEV, 0, 1, 0], &rw_leases(1, 1)).unwrap();
    let switch = PortSwitch { controller: Controller::I2C0, from: PortIndex(0), to: PortIndex(1) };
    assert_eq!(t.port_switch, Some(switch));
    // nothing is recorded until the caller has switched the pins
    assert_eq!(server.current_port(Controller::I2C0), PortIndex(0));
    assert_eq!(server.route_port(Controller::I2C0, PortIndex(1)), Some(switch));
    assert_eq!(server.current_port(Controller::I2C0), PortIndex(1));
    let t = server.prepare_transfer(Op::WriteRead, &[DEV, 0, 1, 0], &rw_leases(1, 1)).unwrap();
    assert_eq!(t.port_switch, None);
}

#[test]
fn block_read_only_on_final_pair() {
    let mut server = board();
    let mut hw = MockI2cDriver::new();
    hw.set_device_response(Controller::I2C0, DEV, &[7, 8, 9]).unwrap();
    let leases = vec![lease(1, true, false), lease(2, false, true), lease(1, true, false), lease(3, false, true)];
    let t = server.prepare_transfer(Op::WriteReadBlock, &header(None, DEV), &leases).unwrap();
    let reply = server.perform_transfer(&mut hw, &t, &leases, &vec![vec![1], vec![2]]).unwrap();
    assert_eq!(reply.total, 5);
    assert_eq!(transfers(&hw).iter().map(|c| c.3).collect::<Vec<_>>(), vec![false, true]);
}

#[test]
fn short_reads_are_totalled_as_read() {
    let mut server = board();
    let mut hw = MockI2cDriver::new();
    // The mock echoes one byte into a four-byte read.
    let (total, reads) = request(&mut server, &mut hw, Op::WriteRead, header(None, DEV), &[0x33], 4).unwrap();
    assert_eq!(total, 1);
    assert_eq!(reads, vec![vec![0x33]]);
}

#[test]
fn pca9548_reset_line_pulses_low_then_high() {
    let mut config = I2cMuxConfig { controller: Controller::I2C0, address: MUX_ADDR, reset_pin: Some(MockPin::new()) };
    <Pca9548 as I2cMuxDriver<MockI2cDriver, MockPin>>::configure(&Pca9548, &mut config).unwrap();
    <Pca9548 as I2cMuxDriver<MockI2cDriver, MockPin>>::reset(&Pca9548, &mut config).unwrap();
    let pin = config.reset_pin.as_ref().unwrap();
    assert_eq!(pin.history(), &vec![PinEvent::High, PinEvent::Output, PinEvent::Low, PinEvent::High]);
    let mut bare: I2cMuxConfig<MockPin> = I2cMuxConfig { controller: Controller::I2C0, address: MUX_ADDR, reset_pin: None };
    assert!(<Pca9548 as I2cMuxDriver<MockI2cDriver, MockPin>>::reset(&Pca9548, &mut bare).is_ok());
}

#[test]
fn pca9548_writes_one_hot_register() {
    let mut hw = MockI2cDriver::new();
    let config: I2cMuxConfig<MockPin> = I2cMuxConfig { controller: Controller::I2C2, address: MUX_ADDR, reset_pin: None };
    Pca9548.enable_segment(&mut hw, &config, Some(Segment::S4)).unwrap();
    Pca9548.enable_segment(&mut hw, &config, None).unwrap();
    assert_eq!(Pca9548.enable_segment(&mut hw, &config, Some(Segment::S12)), Err(ResponseCode::SegmentNotFound));
    let ops: Vec<(Controller, u8, Vec<u8>, usize)> =
        hw.history().iter().map(|op| (op.controller, op.addr, op.write.clone(), op.read_len)).collect();
    assert_eq!(ops, vec![(Controller::I2C2, MUX_ADDR, vec![0x08], 0), (Controller::I2C2, MUX_ADDR, vec![0x00], 0)]);
}

#[test]
fn one_step_handler_runs_and_refuses() {
    let mut server = board();
    let mut hw = MockI2cDriver::new();
    hw.set_device_response(Controller::I2C0, DEV, &[0x55, 0x66]).unwrap();
    let leases = rw_leases(1, 2);
    let reply = server.handle_write_read(&mut hw, Op::WriteRead, &header(None, DEV), &leases, &vec![vec![0x10]]).unwrap();
    assert_eq!(reply.total, 2);
    assert_eq!(reply.reads, vec![vec![0x55, 0x66]]);
    // a write buffer that does not match its lease
    assert_eq!(
        server.handle_write_read(&mut hw, Op::WriteRead, &header(None, DEV), &leases, &vec![vec![1, 2]]).err(),
        Some(ResponseCode::BadArg)
    );
    // a port that would need a pin change
    assert_eq!(
        server.handle_write_read(&mut hw, Op::WriteRead, &[DEV, 0, 1, 0], &leases, &vec![vec![1]]).err(),
        Some(ResponseCode::BadPort)
    );
    // a reserved address
    assert_eq!(
        server.handle_write_read(&mut hw, Op::WriteRead, &header(None, 0x78), &leases, &vec![vec![1]]).err(),
        Some(ResponseCode::ReservedAddress)
    );
    assert_eq!(hw.transaction_count(), 1);
    assert_eq!(server.current_port(Controller::I2C0), PortIndex(0));
}
