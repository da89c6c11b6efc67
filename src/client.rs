//! The client's side of the protocol: a handle naming one device, the
//! headers it sends, and the reading of the server's replies.

use vstd::prelude::*;
use crate::marshal::{encode_header, encode_spec};
use crate::slave::{message_parts, parse_records, parse_spec, zero_padded};
use crate::types::{Controller, Mux, PortIndex, ResponseCode, Segment, SlaveMessage};

verus! {

/// The 5-tuple that names an I2C device, with the server task that owns its
/// bus. The mux and the segment come together or not at all.
#[derive(Copy, Clone, Debug)]
pub struct I2cDevice {
    /// Task of the I2C server that owns the hardware
    pub task: u16,
    /// I2C controller/peripheral to use
    pub controller: Controller,
    /// Port/pin configuration for the controller
    pub port: PortIndex,
    /// Optional multiplexer and segment
    pub segment: Option<(Mux, Segment)>,
    /// 7-bit I2C device address
    pub address: u8,
}

/// How the server answered a call.
#[derive(Copy, Clone, Debug, PartialEq, Eq, Structural)]
pub enum ServerReply {
    /// The call succeeded.
    Success,
    /// The call failed with this code.
    Failed(ResponseCode),
    /// The server restarted since the handle was made; this is its new
    /// generation. A client should restart too, with clean state.
    Restarted(u8),
}

/// The codes at or above this one report a dead task; the low byte is the
/// task's new generation.
pub const DEAD_TASK_CODE: u32 = 0xffff_ff00;

/// What a reply code means.
pub open spec fn reply_spec(code: u32) -> ServerReply {
    if code == 0 {
        ServerReply::Success
    } else if code >= DEAD_TASK_CODE {
        ServerReply::Restarted((code - DEAD_TASK_CODE) as u8)
    } else {
        match ResponseCode::spec_from_u32(code) {
            Some(rc) => ServerReply::Failed(rc),
            None => ServerReply::Failed(ResponseCode::BadResponse),
        }
    }
}

/// Reads a reply code: zero is success, a dead-task code a restart, any
/// other a response code, `BadResponse` where it is none.
pub fn classify_reply(code: u32) -> (r: ServerReply)
    ensures
        r == reply_spec(code),
{
    if code == 0 {
        ServerReply::Success
    } else if code >= DEAD_TASK_CODE {
        ServerReply::Restarted((code - DEAD_TASK_CODE) as u8)
    } else {
        match ResponseCode::from_u32(code) {
            Some(rc) => ServerReply::Failed(rc),
            None => ServerReply::Failed(ResponseCode::BadResponse),
        }
    }
}

impl I2cDevice {
    /// A handle on the device; makes no call.
    pub fn new(task: u16, controller: Controller, port: PortIndex, segment: Option<(Mux, Segment)>, address: u8) -> (r:
        Self)
        ensures
            r.task == task,
            r.controller == controller,
            r.port == port,
            r.segment == segment,
            r.address == address,
    {
        I2cDevice { task, controller, port, segment, address }
    }

    /// The header of every write/read call to the device.
    pub fn header(&self) -> (r: [u8; 4])
        ensures
            r@ == encode_spec((self.address, self.controller, self.port, self.segment)),
    {
        encode_header(&(self.address, self.controller, self.port, self.segment))
    }

    /// The header of the slave-mode calls other than configuration: the
    /// device's bus, with address 0.
    pub fn slave_header(&self) -> (r: [u8; 4])
        ensures
            r@ == encode_spec((0u8, self.controller, self.port, self.segment)),
    {
        encode_header(&(0u8, self.controller, self.port, self.segment))
    }

    /// The header that configures `slave_address` on the device's
    /// controller and port: `[slave_address, controller, port, 0]`.
    pub fn slave_address_header(&self, slave_address: u8) -> (r: [u8; 4])
        ensures
            r@ == encode_spec((slave_address, self.controller, self.port, None)),
    {
        encode_header(&(slave_address, self.controller, self.port, None))
    }

    /// Unpacks the records that a `CheckSlaveBuffer` call left in the first
    /// `bytes_read` bytes of `buf` into `messages`; returns how many.
    pub fn unpack_slave_messages(buf: &[u8], bytes_read: usize, messages: &mut [SlaveMessage]) -> (r: usize)
        requires
            bytes_read <= buf@.len(),
        ensures
            final(messages)@.len() == old(messages)@.len(),
            final(messages)@.subrange(0, r as int).map_values(|m: SlaveMessage| message_parts(m)) == parse_spec(
                buf@.subrange(0, bytes_read as int),
                old(messages)@.len() as int,
            ),
            r <= old(messages)@.len(),
            forall|i: int| 0 <= i < r ==> zero_padded(#[trigger] final(messages)@[i]),
            final(messages)@.subrange(r as int, old(messages)@.len() as int) == old(messages)@.subrange(
                r as int,
                old(messages)@.len() as int,
            ),
    {
        let parsed = parse_records(buf, bytes_read, messages.len());
        let n = parsed.len();
        proof {
            assert(n <= messages@.len()) by {
                lemma_parse_len(buf@.subrange(0, bytes_read as int), messages@.len() as int);
                assert(parsed@.map_values(|m: SlaveMessage| message_parts(m)).len() == n);
            }
        }
        let mut i: usize = 0;
        while i < n
            invariant
                n == parsed@.len(),
                n <= messages@.len(),
                messages@.len() == old(messages)@.len(),
                i <= n,
                forall|j: int| 0 <= j < i ==> messages@[j] == parsed@[j],
                forall|j: int| 0 <= j < n ==> zero_padded(#[trigger] parsed@[j]),
                forall|j: int| n <= j < messages@.len() ==> messages@[j] == old(messages)@[j],
            decreases n - i,
        {
            messages[i] = parsed[i];
            i = i + 1;
        }
        assert(messages@.subrange(0, n as int) =~= parsed@);
        assert forall|i: int| 0 <= i < n implies zero_padded(#[trigger] messages@[i]) by {
            assert(messages@[i] == parsed@[i]);
        }
        assert(messages@.subrange(n as int, messages@.len() as int) =~= old(messages)@.subrange(
            n as int,
            old(messages)@.len() as int,
        ));
        n
    }
}

/// At most `max` messages are read from a record buffer.
proof fn lemma_parse_len(b: Seq<u8>, max: int)
    ensures
        parse_spec(b, max).len() <= if max < 0 {
            0
        } else {
            max
        },
    decreases b.len(),
{
    if max <= 0 || b.len() < 2 || b.len() < 2 + b[1] {
    } else {
        lemma_parse_len(b.subrange(2 + b[1], b.len() as int), max - 1);
    }
}

} // verus!
