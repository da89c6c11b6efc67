//! Identifiers of the I2C topology and the closed set of response codes.

use vstd::prelude::*;

verus! {

/// One physical I2C peripheral of the chip.
#[derive(Copy, Clone, Debug, PartialEq, Eq, Structural)]
pub enum Controller {
    I2C0,
    I2C1,
    I2C2,
    I2C3,
    I2C4,
    I2C5,
    I2C6,
    I2C7,
}

/// Number of controllers.
pub const NUM_CONTROLLERS: u8 = 8;

impl Controller {
    /// The controller's ordinal on the wire.
    pub open spec fn spec_id(self) -> u8 {
        match self {
            Controller::I2C0 => 0,
            Controller::I2C1 => 1,
            Controller::I2C2 => 2,
            Controller::I2C3 => 3,
            Controller::I2C4 => 4,
            Controller::I2C5 => 5,
            Controller::I2C6 => 6,
            Controller::I2C7 => 7,
        }
    }

    pub fn id(self) -> (r: u8)
        ensures
            r == self.spec_id(),
            r < NUM_CONTROLLERS,
    {
        match self {
            Controller::I2C0 => 0,
            Controller::I2C1 => 1,
            Controller::I2C2 => 2,
            Controller::I2C3 => 3,
            Controller::I2C4 => 4,
            Controller::I2C5 => 5,
            Controller::I2C6 => 6,
            Controller::I2C7 => 7,
        }
    }

    /// The value with wire code `v`, if there is one.
    pub open spec fn spec_from_u8(v: u8) -> Option<Controller> {
        match v {
            0 => Some(Controller::I2C0),
            1 => Some(Controller::I2C1),
            2 => Some(Controller::I2C2),
            3 => Some(Controller::I2C3),
            4 => Some(Controller::I2C4),
            5 => Some(Controller::I2C5),
            6 => Some(Controller::I2C6),
            7 => Some(Controller::I2C7),
            _ => None,
        }
    }

    /// The controller with ordinal `v`, if there is one.
    pub fn from_u8(v: u8) -> (r: Option<Controller>)
        ensures
            r == Controller::spec_from_u8(v),
            match r {
                Some(c) => c.spec_id() == v,
                None => v >= NUM_CONTROLLERS,
            },
    {
        match v {
            0 => Some(Controller::I2C0),
            1 => Some(Controller::I2C1),
            2 => Some(Controller::I2C2),
            3 => Some(Controller::I2C3),
            4 => Some(Controller::I2C4),
            5 => Some(Controller::I2C5),
            6 => Some(Controller::I2C6),
            7 => Some(Controller::I2C7),
            _ => None,
        }
    }
}

/// The port of a controller: which pin pair is routed to it. Only one port
/// of a controller is active at a time.
#[derive(Copy, Clone, Debug, PartialEq, Eq, Structural)]
pub struct PortIndex(pub u8);

/// A multiplexer on an I2C bus. Identifiers start at 1.
#[derive(Copy, Clone, Debug, PartialEq, Eq, Structural)]
pub enum Mux {
    M1,
    M2,
    M3,
    M4,
    M5,
}

impl Mux {
    /// The multiplexer's identifier on the wire.
    pub open spec fn spec_id(self) -> u8 {
        match self {
            Mux::M1 => 1,
            Mux::M2 => 2,
            Mux::M3 => 3,
            Mux::M4 => 4,
            Mux::M5 => 5,
        }
    }

    pub fn id(self) -> (r: u8)
        ensures
            r == self.spec_id(),
    {
        match self {
            Mux::M1 => 1,
            Mux::M2 => 2,
            Mux::M3 => 3,
            Mux::M4 => 4,
            Mux::M5 => 5,
        }
    }

    /// The value with wire code `v`, if there is one.
    pub open spec fn spec_from_u8(v: u8) -> Option<Mux> {
        match v {
            1 => Some(Mux::M1),
            2 => Some(Mux::M2),
            3 => Some(Mux::M3),
            4 => Some(Mux::M4),
            5 => Some(Mux::M5),
            _ => None,
        }
    }

    /// The multiplexer with identifier `v`, if there is one.
    pub fn from_u8(v: u8) -> (r: Option<Mux>)
        ensures
            r == Mux::spec_from_u8(v),
            match r {
                Some(x) => x.spec_id() == v,
                None => v == 0 || v > 5,
            },
    {
        match v {
            1 => Some(Mux::M1),
            2 => Some(Mux::M2),
            3 => Some(Mux::M3),
            4 => Some(Mux::M4),
            5 => Some(Mux::M5),
            _ => None,
        }
    }
}

/// A downstream segment of a multiplexer. Identifiers start at 1.
#[derive(Copy, Clone, Debug, PartialEq, Eq, Structural)]
pub enum Segment {
    S1,
    S2,
    S3,
    S4,
    S5,
    S6,
    S7,
    S8,
    S9,
    S10,
    S11,
    S12,
    S13,
    S14,
    S15,
    S16,
}

impl Segment {
    /// The segment's identifier on the wire.
    pub open spec fn spec_id(self) -> u8 {
        match self {
            Segment::S1 => 1,
            Segment::S2 => 2,
            Segment::S3 => 3,
            Segment::S4 => 4,
            Segment::S5 => 5,
            Segment::S6 => 6,
            Segment::S7 => 7,
            Segment::S8 => 8,
            Segment::S9 => 9,
            Segment::S10 => 10,
            Segment::S11 => 11,
            Segment::S12 => 12,
            Segment::S13 => 13,
            Segment::S14 => 14,
            Segment::S15 => 15,
            Segment::S16 => 16,
        }
    }

    pub fn id(self) -> (r: u8)
        ensures
            r == self.spec_id(),
    {
        match self {
            Segment::S1 => 1,
            Segment::S2 => 2,
            Segment::S3 => 3,
            Segment::S4 => 4,
            Segment::S5 => 5,
            Segment::S6 => 6,
            Segment::S7 => 7,
            Segment::S8 => 8,
            Segment::S9 => 9,
            Segment::S10 => 10,
            Segment::S11 => 11,
            Segment::S12 => 12,
            Segment::S13 => 13,
            Segment::S14 => 14,
            Segment::S15 => 15,
            Segment::S16 => 16,
        }
    }

    /// The value with wire code `v`, if there is one.
    pub open spec fn spec_from_u8(v: u8) -> Option<Segment> {
        match v {
            1 => Some(Segment::S1),
            2 => Some(Segment::S2),
            3 => Some(Segment::S3),
            4 => Some(Segment::S4),
            5 => Some(Segment::S5),
            6 => Some(Segment::S6),
            7 => Some(Segment::S7),
            8 => Some(Segment::S8),
            9 => Some(Segment::S9),
            10 => Some(Segment::S10),
            11 => Some(Segment::S11),
            12 => Some(Segment::S12),
            13 => Some(Segment::S13),
            14 => Some(Segment::S14),
            15 => Some(Segment::S15),
            16 => Some(Segment::S16),
            _ => None,
        }
    }

    /// The segment with identifier `v`, if there is one.
    pub fn from_u8(v: u8) -> (r: Option<Segment>)
        ensures
            r == Segment::spec_from_u8(v),
            match r {
                Some(x) => x.spec_id() == v,
                None => v == 0 || v > 16,
            },
    {
        match v {
            1 => Some(Segment::S1),
            2 => Some(Segment::S2),
            3 => Some(Segment::S3),
            4 => Some(Segment::S4),
            5 => Some(Segment::S5),
            6 => Some(Segment::S6),
            7 => Some(Segment::S7),
            8 => Some(Segment::S8),
            9 => Some(Segment::S9),
            10 => Some(Segment::S10),
            11 => Some(Segment::S11),
            12 => Some(Segment::S12),
            13 => Some(Segment::S13),
            14 => Some(Segment::S14),
            15 => Some(Segment::S15),
            16 => Some(Segment::S16),
            _ => None,
        }
    }
}

/// The 7-bit addresses that the I2C specification reserves.
#[derive(Copy, Clone, Debug, PartialEq, Eq, Structural)]
pub enum ReservedAddress {
    GeneralCall,
    CBUSAddress,
    FutureBus,
    FuturePurposes,
    HighSpeedReserved00,
    HighSpeedReserved01,
    HighSpeedReserved10,
    HighSpeedReserved11,
    TenBitPrefix00,
    TenBitPrefix01,
    TenBitPrefix10,
    TenBitPrefix11,
    TenBit00,
    TenBit01,
    TenBit10,
    TenBit11,
}

impl ReservedAddress {
    /// The reserved address itself.
    pub open spec fn spec_id(self) -> u8 {
        match self {
            ReservedAddress::GeneralCall => 0,
            ReservedAddress::CBUSAddress => 1,
            ReservedAddress::FutureBus => 2,
            ReservedAddress::FuturePurposes => 3,
            ReservedAddress::HighSpeedReserved00 => 4,
            ReservedAddress::HighSpeedReserved01 => 5,
            ReservedAddress::HighSpeedReserved10 => 6,
            ReservedAddress::HighSpeedReserved11 => 7,
            ReservedAddress::TenBitPrefix00 => 0x78,
            ReservedAddress::TenBitPrefix01 => 0x79,
            ReservedAddress::TenBitPrefix10 => 0x7a,
            ReservedAddress::TenBitPrefix11 => 0x7b,
            ReservedAddress::TenBit00 => 0x7c,
            ReservedAddress::TenBit01 => 0x7d,
            ReservedAddress::TenBit10 => 0x7e,
            ReservedAddress::TenBit11 => 0x7f,
        }
    }

    pub fn id(self) -> (r: u8)
        ensures
            r == self.spec_id(),
    {
        match self {
            ReservedAddress::GeneralCall => 0,
            ReservedAddress::CBUSAddress => 1,
            ReservedAddress::FutureBus => 2,
            ReservedAddress::FuturePurposes => 3,
            ReservedAddress::HighSpeedReserved00 => 4,
            ReservedAddress::HighSpeedReserved01 => 5,
            ReservedAddress::HighSpeedReserved10 => 6,
            ReservedAddress::HighSpeedReserved11 => 7,
            ReservedAddress::TenBitPrefix00 => 0x78,
            ReservedAddress::TenBitPrefix01 => 0x79,
            ReservedAddress::TenBitPrefix10 => 0x7a,
            ReservedAddress::TenBitPrefix11 => 0x7b,
            ReservedAddress::TenBit00 => 0x7c,
            ReservedAddress::TenBit01 => 0x7d,
            ReservedAddress::TenBit10 => 0x7e,
            ReservedAddress::TenBit11 => 0x7f,
        }
    }

    /// The value with wire code `v`, if there is one.
    pub open spec fn spec_from_u8(v: u8) -> Option<ReservedAddress> {
        match v {
            0 => Some(ReservedAddress::GeneralCall),
            1 => Some(ReservedAddress::CBUSAddress),
            2 => Some(ReservedAddress::FutureBus),
            3 => Some(ReservedAddress::FuturePurposes),
            4 => Some(ReservedAddress::HighSpeedReserved00),
            5 => Some(ReservedAddress::HighSpeedReserved01),
            6 => Some(ReservedAddress::HighSpeedReserved10),
            7 => Some(ReservedAddress::HighSpeedReserved11),
            0x78 => Some(ReservedAddress::TenBitPrefix00),
            0x79 => Some(ReservedAddress::TenBitPrefix01),
            0x7a => Some(ReservedAddress::TenBitPrefix10),
            0x7b => Some(ReservedAddress::TenBitPrefix11),
            0x7c => Some(ReservedAddress::TenBit00),
            0x7d => Some(ReservedAddress::TenBit01),
            0x7e => Some(ReservedAddress::TenBit10),
            0x7f => Some(ReservedAddress::TenBit11),
            _ => None,
        }
    }

    /// The reserved address `v`, if `v` is one.
    pub fn from_u8(v: u8) -> (r: Option<ReservedAddress>)
        ensures
            r == ReservedAddress::spec_from_u8(v),
            match r {
                Some(x) => x.spec_id() == v,
                None => !is_reserved_address(v),
            },
    {
        match v {
            0 => Some(ReservedAddress::GeneralCall),
            1 => Some(ReservedAddress::CBUSAddress),
            2 => Some(ReservedAddress::FutureBus),
            3 => Some(ReservedAddress::FuturePurposes),
            4 => Some(ReservedAddress::HighSpeedReserved00),
            5 => Some(ReservedAddress::HighSpeedReserved01),
            6 => Some(ReservedAddress::HighSpeedReserved10),
            7 => Some(ReservedAddress::HighSpeedReserved11),
            0x78 => Some(ReservedAddress::TenBitPrefix00),
            0x79 => Some(ReservedAddress::TenBitPrefix01),
            0x7a => Some(ReservedAddress::TenBitPrefix10),
            0x7b => Some(ReservedAddress::TenBitPrefix11),
            0x7c => Some(ReservedAddress::TenBit00),
            0x7d => Some(ReservedAddress::TenBit01),
            0x7e => Some(ReservedAddress::TenBit10),
            0x7f => Some(ReservedAddress::TenBit11),
            _ => None,
        }
    }
}

/// Operation codes of the server.
#[derive(Copy, Clone, Debug, PartialEq, Eq, Structural)]
pub enum Op {
    /// Write/read pairs, all of them plain reads and writes.
    WriteRead,
    /// Write/read pairs where only the final read is an SMBus block read.
    WriteReadBlock,
    /// Configure the controller to answer as a slave at an address.
    ConfigureSlaveAddress,
    /// Start buffering messages sent to the slave address.
    EnableSlaveReceive,
    /// Stop answering slave transactions.
    DisableSlaveReceive,
    /// Retrieve buffered slave messages as `[source, length, data...]` records.
    CheckSlaveBuffer,
}

impl Op {
    /// The operation code on the wire.
    pub open spec fn spec_id(self) -> u16 {
        match self {
            Op::WriteRead => 1,
            Op::WriteReadBlock => 2,
            Op::ConfigureSlaveAddress => 3,
            Op::EnableSlaveReceive => 4,
            Op::DisableSlaveReceive => 5,
            Op::CheckSlaveBuffer => 6,
        }
    }

    pub fn id(self) -> (r: u16)
        ensures
            r == self.spec_id(),
    {
        match self {
            Op::WriteRead => 1,
            Op::WriteReadBlock => 2,
            Op::ConfigureSlaveAddress => 3,
            Op::EnableSlaveReceive => 4,
            Op::DisableSlaveReceive => 5,
            Op::CheckSlaveBuffer => 6,
        }
    }

    /// The value with wire code `v`, if there is one.
    pub open spec fn spec_from_u16(v: u16) -> Option<Op> {
        match v {
            1 => Some(Op::WriteRead),
            2 => Some(Op::WriteReadBlock),
            3 => Some(Op::ConfigureSlaveAddress),
            4 => Some(Op::EnableSlaveReceive),
            5 => Some(Op::DisableSlaveReceive),
            6 => Some(Op::CheckSlaveBuffer),
            _ => None,
        }
    }

    /// The operation with code `v`, if there is one.
    pub fn from_u16(v: u16) -> (r: Option<Op>)
        ensures
            r == Op::spec_from_u16(v),
            match r {
                Some(x) => x.spec_id() == v,
                None => v == 0 || v > 6,
            },
    {
        match v {
            1 => Some(Op::WriteRead),
            2 => Some(Op::WriteReadBlock),
            3 => Some(Op::ConfigureSlaveAddress),
            4 => Some(Op::EnableSlaveReceive),
            5 => Some(Op::DisableSlaveReceive),
            6 => Some(Op::CheckSlaveBuffer),
            _ => None,
        }
    }
}

/// The response codes of the server: the closed set of its failures.
#[derive(Copy, Clone, Debug, PartialEq, Eq, Structural)]
pub enum ResponseCode {
    /// Bad response from server
    BadResponse,
    /// Bad argument sent to server
    BadArg,
    /// Indicated I2C device is invalid
    NoDevice,
    /// Indicated I2C controller is invalid
    BadController,
    /// Device address is reserved
    ReservedAddress,
    /// Indicated port is invalid
    BadPort,
    /// Device does not have indicated register
    NoRegister,
    /// Indicated mux is an invalid mux identifier
    BadMux,
    /// Indicated segment is an invalid segment identifier
    BadSegment,
    /// Indicated mux does not exist on this controller
    MuxNotFound,
    /// Indicated segment does not exist on this controller
    SegmentNotFound,
    /// Segment disconnected during operation
    SegmentDisconnected,
    /// Mux disconnected during operation
    MuxDisconnected,
    /// No device at address used for mux in-band management
    MuxMissing,
    /// Register used for mux in-band management is invalid
    BadMuxRegister,
    /// I2C bus was spontaneously reset during operation
    BusReset,
    /// I2C bus was reset during a mux in-band management operation
    BusResetMux,
    /// I2C bus locked up and was reset
    BusLocked,
    /// I2C bus locked up during in-band management operation and was reset
    BusLockedMux,
    /// I2C controller appeared to be busy and was reset
    ControllerBusy,
    /// I2C bus error
    BusError,
    /// Bad device state of unknown origin
    BadDeviceState,
    /// Requested operation is not supported
    OperationNotSupported,
    /// Illegal number of leases
    IllegalLeaseCount,
    /// Too much data -- or not enough buffer
    TooMuchData,
    /// Slave address is already in use by another configuration
    SlaveAddressInUse,
    /// Slave mode is not supported on this controller/port combination
    SlaveNotSupported,
    /// Slave receive is not enabled for this controller/port
    SlaveNotEnabled,
    /// Slave receive buffer is full, messages may have been dropped
    SlaveBufferFull,
    /// Slave address is invalid (must be 7-bit, non-reserved)
    BadSlaveAddress,
    /// Slave mode configuration failed due to hardware limitations
    SlaveConfigurationFailed,
}

impl ResponseCode {
    /// The code on the wire.
    pub open spec fn spec_id(self) -> u32 {
        match self {
            ResponseCode::BadResponse => 1,
            ResponseCode::BadArg => 2,
            ResponseCode::NoDevice => 3,
            ResponseCode::BadController => 4,
            ResponseCode::ReservedAddress => 5,
            ResponseCode::BadPort => 6,
            ResponseCode::NoRegister => 7,
            ResponseCode::BadMux => 8,
            ResponseCode::BadSegment => 9,
            ResponseCode::MuxNotFound => 10,
            ResponseCode::SegmentNotFound => 11,
            ResponseCode::SegmentDisconnected => 12,
            ResponseCode::MuxDisconnected => 13,
            ResponseCode::MuxMissing => 14,
            ResponseCode::BadMuxRegister => 15,
            ResponseCode::BusReset => 16,
            ResponseCode::BusResetMux => 17,
            ResponseCode::BusLocked => 18,
            ResponseCode::BusLockedMux => 19,
            ResponseCode::ControllerBusy => 20,
            ResponseCode::BusError => 21,
            ResponseCode::BadDeviceState => 22,
            ResponseCode::OperationNotSupported => 23,
            ResponseCode::IllegalLeaseCount => 24,
            ResponseCode::TooMuchData => 25,
            ResponseCode::SlaveAddressInUse => 26,
            ResponseCode::SlaveNotSupported => 27,
            ResponseCode::SlaveNotEnabled => 28,
            ResponseCode::SlaveBufferFull => 29,
            ResponseCode::BadSlaveAddress => 30,
            ResponseCode::SlaveConfigurationFailed => 31,
        }
    }

    pub fn id(self) -> (r: u32)
        ensures
            r == self.spec_id(),
    {
        match self {
            ResponseCode::BadResponse => 1,
            ResponseCode::BadArg => 2,
            ResponseCode::NoDevice => 3,
            ResponseCode::BadController => 4,
            ResponseCode::ReservedAddress => 5,
            ResponseCode::BadPort => 6,
            ResponseCode::NoRegister => 7,
            ResponseCode::BadMux => 8,
            ResponseCode::BadSegment => 9,
            ResponseCode::MuxNotFound => 10,
            ResponseCode::SegmentNotFound => 11,
            ResponseCode::SegmentDisconnected => 12,
            ResponseCode::MuxDisconnected => 13,
            ResponseCode::MuxMissing => 14,
            ResponseCode::BadMuxRegister => 15,
            ResponseCode::BusReset => 16,
            ResponseCode::BusResetMux => 17,
            ResponseCode::BusLocked => 18,
            ResponseCode::BusLockedMux => 19,
            ResponseCode::ControllerBusy => 20,
            ResponseCode::BusError => 21,
            ResponseCode::BadDeviceState => 22,
            ResponseCode::OperationNotSupported => 23,
            ResponseCode::IllegalLeaseCount => 24,
            ResponseCode::TooMuchData => 25,
            ResponseCode::SlaveAddressInUse => 26,
            ResponseCode::SlaveNotSupported => 27,
            ResponseCode::SlaveNotEnabled => 28,
            ResponseCode::SlaveBufferFull => 29,
            ResponseCode::BadSlaveAddress => 30,
            ResponseCode::SlaveConfigurationFailed => 31,
        }
    }

    /// The value with wire code `v`, if there is one.
    pub open spec fn spec_from_u32(v: u32) -> Option<ResponseCode> {
        match v {
            1 => Some(ResponseCode::BadResponse),
            2 => Some(ResponseCode::BadArg),
            3 => Some(ResponseCode::NoDevice),
            4 => Some(ResponseCode::BadController),
            5 => Some(ResponseCode::ReservedAddress),
            6 => Some(ResponseCode::BadPort),
            7 => Some(ResponseCode::NoRegister),
            8 => Some(ResponseCode::BadMux),
            9 => Some(ResponseCode::BadSegment),
            10 => Some(ResponseCode::MuxNotFound),
            11 => Some(ResponseCode::SegmentNotFound),
            12 => Some(ResponseCode::SegmentDisconnected),
            13 => Some(ResponseCode::MuxDisconnected),
            14 => Some(ResponseCode::MuxMissing),
            15 => Some(ResponseCode::BadMuxRegister),
            16 => Some(ResponseCode::BusReset),
            17 => Some(ResponseCode::BusResetMux),
            18 => Some(ResponseCode::BusLocked),
            19 => Some(ResponseCode::BusLockedMux),
            20 => Some(ResponseCode::ControllerBusy),
            21 => Some(ResponseCode::BusError),
            22 => Some(ResponseCode::BadDeviceState),
            23 => Some(ResponseCode::OperationNotSupported),
            24 => Some(ResponseCode::IllegalLeaseCount),
            25 => Some(ResponseCode::TooMuchData),
            26 => Some(ResponseCode::SlaveAddressInUse),
            27 => Some(ResponseCode::SlaveNotSupported),
            28 => Some(ResponseCode::SlaveNotEnabled),
            29 => Some(ResponseCode::SlaveBufferFull),
            30 => Some(ResponseCode::BadSlaveAddress),
            31 => Some(ResponseCode::SlaveConfigurationFailed),
            _ => None,
        }
    }

    /// The response code with value `v`, if there is one.
    pub fn from_u32(v: u32) -> (r: Option<ResponseCode>)
        ensures
            r == ResponseCode::spec_from_u32(v),
            match r {
                Some(x) => x.spec_id() == v,
                None => v == 0 || v > 31,
            },
    {
        match v {
            1 => Some(ResponseCode::BadResponse),
            2 => Some(ResponseCode::BadArg),
            3 => Some(ResponseCode::NoDevice),
            4 => Some(ResponseCode::BadController),
            5 => Some(ResponseCode::ReservedAddress),
            6 => Some(ResponseCode::BadPort),
            7 => Some(ResponseCode::NoRegister),
            8 => Some(ResponseCode::BadMux),
            9 => Some(ResponseCode::BadSegment),
            10 => Some(ResponseCode::MuxNotFound),
            11 => Some(ResponseCode::SegmentNotFound),
            12 => Some(ResponseCode::SegmentDisconnected),
            13 => Some(ResponseCode::MuxDisconnected),
            14 => Some(ResponseCode::MuxMissing),
            15 => Some(ResponseCode::BadMuxRegister),
            16 => Some(ResponseCode::BusReset),
            17 => Some(ResponseCode::BusResetMux),
            18 => Some(ResponseCode::BusLocked),
            19 => Some(ResponseCode::BusLockedMux),
            20 => Some(ResponseCode::ControllerBusy),
            21 => Some(ResponseCode::BusError),
            22 => Some(ResponseCode::BadDeviceState),
            23 => Some(ResponseCode::OperationNotSupported),
            24 => Some(ResponseCode::IllegalLeaseCount),
            25 => Some(ResponseCode::TooMuchData),
            26 => Some(ResponseCode::SlaveAddressInUse),
            27 => Some(ResponseCode::SlaveNotSupported),
            28 => Some(ResponseCode::SlaveNotEnabled),
            29 => Some(ResponseCode::SlaveBufferFull),
            30 => Some(ResponseCode::BadSlaveAddress),
            31 => Some(ResponseCode::SlaveConfigurationFailed),
            _ => None,
        }
    }
}

/// Largest 7-bit address.
pub const MAX_ADDRESS: u8 = 0x7f;

/// Whether `a` is one of the 7-bit addresses that the I2C specification
/// reserves: general call, CBUS, the high-speed codes and the 10-bit and
/// device-id prefixes.
pub open spec fn is_reserved_address(a: u8) -> bool {
    a <= 0x07 || (0x78 <= a && a <= 0x7f)
}

/// Whether `a` may be used as the address of a device.
pub fn reserved_address(a: u8) -> (r: bool)
    ensures
        r == is_reserved_address(a),
{
    ReservedAddress::from_u8(a).is_some()
}

/// I2C bus speeds.
#[derive(Copy, Clone, Debug, PartialEq, Eq, Structural)]
pub enum I2cSpeed {
    /// Standard mode: 100 kHz
    Standard,
    /// Fast mode: 400 kHz
    Fast,
    /// Fast mode plus: 1 MHz
    FastPlus,
    /// High speed mode: 3.4 MHz
    HighSpeed,
}

/// Status of a controller's slave mode.
#[derive(Copy, Clone, Debug, PartialEq, Eq, Structural)]
pub struct SlaveStatus {
    /// Whether slave receive mode is currently enabled
    pub enabled: bool,
    /// Number of complete messages received since last status check
    pub messages_received: u32,
    /// Number of messages dropped due to buffer overflow
    pub messages_dropped: u32,
    /// Number of address matches detected
    pub address_matches: u32,
    /// Number of bus errors during slave operations
    pub bus_errors: u32,
    /// Whether receive buffers are currently full
    pub buffer_full: bool,
}

/// Largest payload of one slave message.
pub const MAX_SLAVE_DATA: usize = 255;

/// One message received while the controller acts as a slave.
#[derive(Copy, Clone, Debug, PartialEq, Eq)]
pub struct SlaveMessage {
    /// The 7-bit address of the master that sent this message
    pub source_address: u8,
    /// Length of the message data in bytes
    pub data_length: u8,
    /// The message data; only the first `data_length` bytes are valid
    pub data: [u8; 255],
}

impl SlaveMessage {
    /// The payload that the message carries.
    pub open spec fn payload(&self) -> Seq<u8> {
        self.data@.subrange(0, self.data_length as int)
    }

    /// A message from `source_address` carrying `data`; `TooMuchData` where
    /// `data` is longer than 255 bytes.
    pub fn new(source_address: u8, data: &[u8]) -> (r: Result<Self, ResponseCode>)
        ensures
            data@.len() > MAX_SLAVE_DATA ==> r == Err::<Self, ResponseCode>(ResponseCode::TooMuchData),
            data@.len() <= MAX_SLAVE_DATA ==> (r matches Ok(m) && m.source_address == source_address
                && m.data_length as int == data@.len() && m.payload() == data@
                && forall|i: int| data@.len() <= i < 255 ==> m.data@[i] == 0),
    {
        if data.len() > MAX_SLAVE_DATA {
            return Err(ResponseCode::TooMuchData);
        }
        let mut buf = [0u8; 255];
        let n = data.len();
        assert(forall|j: int| 0 <= j < 255 ==> buf@[j] == 0);
        let mut i: usize = 0;
        while i < n
            invariant
                n == data@.len(),
                n <= 255,
                i <= n,
                buf@.len() == 255,
                forall|j: int| 0 <= j < i ==> buf@[j] == data@[j],
                forall|j: int| n <= j < 255 ==> buf@[j] == 0,
            decreases n - i,
        {
            buf[i] = data[i];
            i = i + 1;
        }
        let msg = SlaveMessage { source_address, data_length: n as u8, data: buf };
        assert(msg.payload() =~= data@);
        Ok(msg)
    }

    /// The valid part of the payload.
    pub fn data(&self) -> (r: &[u8])
        ensures
            r@ == self.payload(),
    {
        &self.data[0..self.data_length as usize]
    }
}

/// A controller, port and 7-bit address that a controller answers at as a
/// slave.
#[derive(Copy, Clone, Debug, PartialEq, Eq, Structural)]
pub struct SlaveConfig {
    /// The controller to configure for slave operation
    pub controller: Controller,
    /// The port index for this controller
    pub port: PortIndex,
    /// The 7-bit slave address to respond to
    pub address: u8,
}

/// Whether `a` may be a slave address: a 7-bit address that is not reserved.
pub open spec fn valid_slave_address(a: u8) -> bool {
    a <= MAX_ADDRESS && !is_reserved_address(a)
}

impl SlaveConfig {
    /// The configuration, or `BadSlaveAddress` where `address` is reserved or
    /// wider than 7 bits.
    pub fn new(controller: Controller, port: PortIndex, address: u8) -> (r: Result<Self, ResponseCode>)
        ensures
            valid_slave_address(address) ==> r == Ok::<Self, ResponseCode>(
                SlaveConfig { controller, port, address },
            ),
            !valid_slave_address(address) ==> r == Err::<Self, ResponseCode>(ResponseCode::BadSlaveAddress),
    {
        if reserved_address(address) {
            return Err(ResponseCode::BadSlaveAddress);
        }
        if address > MAX_ADDRESS {
            return Err(ResponseCode::BadSlaveAddress);
        }
        Ok(SlaveConfig { controller, port, address })
    }
}

} // verus!
