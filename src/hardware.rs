//! The operation set that a platform's I2C driver offers to the server.
//!
//! Each method is one complete bus transaction or configuration change. The
//! server's orchestration is written against this trait alone, so that every
//! platform, and a software double, plugs into it unchanged.
//!
//! An implementation keeps a log of the bus operations it performed
//! (`ops`): each write/read and each bus reset, with what it sent, what it
//! read and how it ended. Contracts of the server speak of this log.

use vstd::prelude::*;
use crate::types::{Controller, I2cSpeed, ResponseCode, SlaveConfig, SlaveMessage, SlaveStatus};

verus! {

/// The kind of a bus operation.
#[derive(Copy, Clone, Debug, PartialEq, Eq, Structural)]
pub enum BusOpKind {
    /// A write followed by a read
    Transfer,
    /// A reset and recovery of the bus
    Reset,
    /// A slave address configured
    SlaveConfig,
    /// Slave receive switched on
    SlaveEnable,
    /// Slave receive switched off
    SlaveDisable,
    /// Buffered slave messages taken
    SlavePoll,
}

/// One bus operation as the hardware performed it.
#[derive(Debug, PartialEq, Eq)]
pub struct BusOp {
    pub kind: BusOpKind,
    pub controller: Controller,
    /// Device address (transfers only)
    pub addr: u8,
    /// Bytes written (transfers only)
    pub write: Vec<u8>,
    /// Length of the read buffer (transfers only)
    pub read_len: usize,
    /// Whether the read was an SMBus block read
    pub block: bool,
    /// What the operation returned: bytes read, or the failure
    pub result: Result<usize, ResponseCode>,
    /// The read buffer afterwards (transfers only)
    pub read: Vec<u8>,
    /// The slave configuration handed over (slave configuration only)
    pub config: Option<SlaveConfig>,
    /// The message buffer afterwards (slave polls only)
    pub messages: Vec<SlaveMessage>,
}

/// `after` is `before` with one more operation, of `kind` on `controller`.
pub open spec fn one_more_op(before: Seq<BusOp>, after: Seq<BusOp>, kind: BusOpKind, controller: Controller) -> bool {
    &&& after.len() == before.len() + 1
    &&& after.drop_last() == before
    &&& after.last().kind == kind
    &&& after.last().controller == controller
}

/// The result of a call without a value, as a log entry holds it.
pub open spec fn unit_result(r: Result<(), ResponseCode>) -> Result<usize, ResponseCode> {
    match r {
        Ok(()) => Ok(0),
        Err(e) => Err(e),
    }
}

/// Whether `op` is the transfer described by the other arguments.
pub open spec fn is_transfer(
    op: BusOp,
    controller: Controller,
    addr: u8,
    write: Seq<u8>,
    read_len: int,
    block: bool,
) -> bool {
    &&& op.kind == BusOpKind::Transfer
    &&& op.controller == controller
    &&& op.addr == addr
    &&& op.write@ == write
    &&& op.read_len == read_len
    &&& op.block == block
}

/// Whether `op` is a reset of `controller`'s bus.
pub open spec fn is_reset(op: BusOp, controller: Controller) -> bool {
    op.kind == BusOpKind::Reset && op.controller == controller
}

/// A platform's I2C controllers.
pub trait I2cHardware {
    /// Every bus operation performed so far, oldest first.
    spec fn ops(&self) -> Seq<BusOp>;

    /// Writes `write_data` to the device at `addr`, then fills `read_buffer`
    /// from it; returns the number of bytes read.
    fn write_read(
        &mut self,
        controller: Controller,
        addr: u8,
        write_data: &[u8],
        read_buffer: &mut [u8],
    ) -> (r: Result<usize, ResponseCode>)
        ensures
            final(read_buffer)@.len() == old(read_buffer)@.len(),
            final(self).ops().len() == old(self).ops().len() + 1,
            final(self).ops().drop_last() == old(self).ops(),
            is_transfer(final(self).ops().last(), controller, addr, write_data@, old(read_buffer)@.len() as int, false),
            final(self).ops().last().result == r,
            final(self).ops().last().read@ == final(read_buffer)@,
    ;

    /// As `write_read`, but the read is an SMBus block read: the device's
    /// first byte is a count, consumed here and not stored.
    fn write_read_block(
        &mut self,
        controller: Controller,
        addr: u8,
        write_data: &[u8],
        read_buffer: &mut [u8],
    ) -> (r: Result<usize, ResponseCode>)
        ensures
            final(read_buffer)@.len() == old(read_buffer)@.len(),
            final(self).ops().len() == old(self).ops().len() + 1,
            final(self).ops().drop_last() == old(self).ops(),
            is_transfer(final(self).ops().last(), controller, addr, write_data@, old(read_buffer)@.len() as int, true),
            final(self).ops().last().result == r,
            final(self).ops().last().read@ == final(read_buffer)@,
    ;

    /// Sets the bus timing of a controller.
    fn configure_timing(&mut self, controller: Controller, speed: I2cSpeed) -> Result<(), ResponseCode>;

    /// Resets and recovers a locked bus.
    fn reset_bus(&mut self, controller: Controller) -> (r: Result<(), ResponseCode>)
        ensures
            final(self).ops() == old(self).ops().push(final(self).ops().last()),
            is_reset(final(self).ops().last(), controller),
    ;

    /// Powers and configures a controller.
    fn enable_controller(&mut self, controller: Controller) -> Result<(), ResponseCode>;

    /// Shuts a controller down.
    fn disable_controller(&mut self, controller: Controller) -> Result<(), ResponseCode>;

    /// Makes a controller answer as a slave at the configured address.
    fn configure_slave_mode(&mut self, controller: Controller, config: &SlaveConfig) -> (r: Result<(), ResponseCode>)
        ensures
            one_more_op(old(self).ops(), final(self).ops(), BusOpKind::SlaveConfig, controller),
            final(self).ops().last().config == Some(*config),
            final(self).ops().last().result == unit_result(r),
    ;

    /// Starts buffering messages sent to the slave address.
    fn enable_slave_receive(&mut self, controller: Controller) -> (r: Result<(), ResponseCode>)
        ensures
            one_more_op(old(self).ops(), final(self).ops(), BusOpKind::SlaveEnable, controller),
            final(self).ops().last().result == unit_result(r),
    ;

    /// Stops answering slave transactions.
    fn disable_slave_receive(&mut self, controller: Controller) -> (r: Result<(), ResponseCode>)
        ensures
            one_more_op(old(self).ops(), final(self).ops(), BusOpKind::SlaveDisable, controller),
            final(self).ops().last().result == unit_result(r),
    ;

    /// Moves buffered slave messages into `messages`; returns how many.
    fn poll_slave_messages(&mut self, controller: Controller, messages: &mut [SlaveMessage]) -> (r:
        Result<usize, ResponseCode>)
        ensures
            final(messages)@.len() == old(messages)@.len(),
            one_more_op(old(self).ops(), final(self).ops(), BusOpKind::SlavePoll, controller),
            final(self).ops().last().result == r,
            final(self).ops().last().messages@ == final(messages)@,
    ;

    /// The state of a controller's slave mode.
    fn get_slave_status(&self, controller: Controller) -> Result<SlaveStatus, ResponseCode>;
}

} // verus!
