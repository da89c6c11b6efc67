//! Slave mode: a controller that answers other bus masters at its own
//! address and buffers what they send, until a client polls for it.
//!
//! Polled messages travel as records `[source address, length, data...]`,
//! one after another.

use vstd::prelude::*;
use crate::hardware::{one_more_op, unit_result, BusOpKind, I2cHardware};
use crate::marshal::{decode_header, decode_spec};
use crate::types::{valid_slave_address, Controller, ResponseCode, SlaveConfig, SlaveMessage};

verus! {

/// What a `ConfigureSlaveAddress` header `[address, controller, port, 0]`
/// asks for: the configuration, or why it is refused.
pub open spec fn slave_config_check(h: Seq<u8>) -> Result<SlaveConfig, ResponseCode> {
    match decode_spec(h) {
        Err(e) => Err(e),
        Ok(m) => if valid_slave_address(m.0) {
            Ok(SlaveConfig { controller: m.1, port: m.2, address: m.0 })
        } else {
            Err(ResponseCode::BadSlaveAddress)
        },
    }
}

/// The controller that a slave-mode header names.
pub open spec fn header_controller(h: Seq<u8>) -> Result<Controller, ResponseCode> {
    match decode_spec(h) {
        Err(e) => Err(e),
        Ok(m) => Ok(m.1),
    }
}

/// Handles `ConfigureSlaveAddress`. A malformed header or an address that
/// is reserved or wider than 7 bits is refused before the hardware is
/// touched; otherwise the configuration goes to the hardware, whose failure
/// is returned.
pub fn configure_slave_address<H: I2cHardware>(hw: &mut H, header: &[u8; 4]) -> (r: Result<SlaveConfig, ResponseCode>)
    ensures
        match slave_config_check(header@) {
            Err(e) => r == Err::<SlaveConfig, ResponseCode>(e) && *final(hw) == *old(hw),
            Ok(cfg) => one_more_op(old(hw).ops(), final(hw).ops(), BusOpKind::SlaveConfig, cfg.controller)
                && final(hw).ops().last().config == Some(cfg) && r == match final(hw).ops().last().result {
                Ok(_) => Ok::<SlaveConfig, ResponseCode>(cfg),
                Err(e) => Err(e),
            },
        },
{
    let (address, controller, port, _mux) = match decode_header(header) {
        Ok(m) => m,
        Err(e) => return Err(e),
    };
    let config = match SlaveConfig::new(controller, port, address) {
        Ok(c) => c,
        Err(e) => return Err(e),
    };
    match hw.configure_slave_mode(controller, &config) {
        Ok(()) => Ok(config),
        Err(e) => Err(e),
    }
}

/// Handles `EnableSlaveReceive` (`on`) and `DisableSlaveReceive`.
pub fn set_slave_receive<H: I2cHardware>(hw: &mut H, header: &[u8; 4], on: bool) -> (r: Result<(), ResponseCode>)
    ensures
        header_controller(header@) matches Err(e) ==> r == Err::<(), ResponseCode>(e) && *final(hw) == *old(hw),
        header_controller(header@) matches Ok(c) ==> one_more_op(
            old(hw).ops(),
            final(hw).ops(),
            if on {
                BusOpKind::SlaveEnable
            } else {
                BusOpKind::SlaveDisable
            },
            c,
        ) && unit_result(r) == final(hw).ops().last().result,
{
    let (_address, controller, _port, _mux) = match decode_header(header) {
        Ok(m) => m,
        Err(e) => return Err(e),
    };
    let res = if on {
        hw.enable_slave_receive(controller)
    } else {
        hw.disable_slave_receive(controller)
    };
    match res {
        Ok(()) => Ok(()),
        Err(e) => Err(e),
    }
}

/// The record of one message.
pub open spec fn record(m: SlaveMessage) -> Seq<u8> {
    seq![m.source_address, m.data_length] + m.payload()
}

/// The records of the messages, in order, as far as they fit in `cap`
/// bytes: a message that does not fit ends the list.
pub open spec fn records_within(ms: Seq<SlaveMessage>, cap: int) -> Seq<u8>
    decreases ms.len(),
{
    if ms.len() == 0 || record(ms[0]).len() > cap {
        seq![]
    } else {
        record(ms[0]) + records_within(ms.subrange(1, ms.len() as int), cap - record(ms[0]).len())
    }
}

/// Records `ms` into at most `capacity` bytes.
pub fn encode_records(ms: &[SlaveMessage], capacity: usize) -> (r: Vec<u8>)
    ensures
        r@ == records_within(ms@, capacity as int),
        r@.len() <= capacity,
{
    let mut out: Vec<u8> = Vec::new();
    let mut i: usize = 0;
    assert(ms@.subrange(0, ms@.len() as int) =~= ms@);
    assert(out@ + records_within(ms@, capacity as int) =~= records_within(ms@, capacity as int));
    while i < ms.len()
        invariant
            i <= ms@.len(),
            out@.len() <= capacity,
            out@ + records_within(ms@.subrange(i as int, ms@.len() as int), capacity - out@.len())
                == records_within(ms@, capacity as int),
        ensures
            out@.len() <= capacity,
            out@ + records_within(ms@.subrange(i as int, ms@.len() as int), capacity - out@.len())
                == records_within(ms@, capacity as int),
            records_within(ms@.subrange(i as int, ms@.len() as int), capacity - out@.len()) == Seq::<
                u8,
            >::empty(),
        decreases ms@.len() - i,
    {
        let m = ms[i];
        let ghost rest = ms@.subrange(i as int, ms@.len() as int);
        assert(rest[0] == m);
        assert(rest.subrange(1, rest.len() as int) =~= ms@.subrange(i + 1, ms@.len() as int));
        let need = 2 + m.data_length as usize;
        assert(m.payload().len() == m.data_length);
        if need > capacity - out.len() {
            assert(record(m).len() == need);
            assert(records_within(rest, capacity - out@.len()) =~= Seq::<u8>::empty());
            break;
        }
        let ghost before = out@;
        out.push(m.source_address);
        out.push(m.data_length);
        let data = m.data();
        let mut j: usize = 0;
        while j < data.len()
            invariant
                j <= data@.len(),
                data@ == m.payload(),
                out@ == before + seq![m.source_address, m.data_length] + data@.subrange(0, j as int),
            decreases data@.len() - j,
        {
            out.push(data[j]);
            j = j + 1;
            assert(data@.subrange(0, j as int) =~= data@.subrange(0, j - 1) + seq![data@[j - 1]]);
        }
        assert(data@.subrange(0, data@.len() as int) =~= data@);
        assert(out@ =~= before + record(m));
        assert(out@ + records_within(ms@.subrange(i + 1, ms@.len() as int), capacity - out@.len())
            =~= before + records_within(rest, capacity - before.len()));
        i = i + 1;
        proof {
            if i == ms.len() {
                assert(ms@.subrange(i as int, ms@.len() as int) =~= Seq::<SlaveMessage>::empty());
            }
        }
    }
    assert(out@ + Seq::<u8>::empty() =~= out@);
    out
}

/// Largest number of messages taken from the hardware in one poll.
pub const MAX_POLLED: usize = 8;

/// A message with no payload.
pub fn empty_message() -> (r: SlaveMessage)
    ensures
        r.source_address == 0,
        r.data_length == 0,
{
    SlaveMessage { source_address: 0, data_length: 0, data: [0u8; 255] }
}

/// How many messages one poll may take so that their records surely fit
/// in `capacity` bytes: at most eight, and no more than records of the
/// longest kind that fit.
pub open spec fn poll_limit(capacity: usize) -> usize {
    if capacity / MAX_RECORD_LEN < MAX_POLLED {
        capacity / MAX_RECORD_LEN
    } else {
        MAX_POLLED
    }
}

/// Handles `CheckSlaveBuffer`: polls as many messages as surely fit in
/// `capacity` bytes (see `poll_limit`) and returns their records, every
/// one of them, since the hardware has consumed what it handed over.
/// Where not even one record surely fits, nothing is polled.
pub fn check_slave_buffer<H: I2cHardware>(hw: &mut H, header: &[u8; 4], capacity: usize) -> (r: Result<
    Vec<u8>,
    ResponseCode,
>)
    ensures
        header_controller(header@) matches Err(e) ==> r == Err::<Vec<u8>, ResponseCode>(e) && *final(hw) == *old(hw),
        header_controller(header@) is Ok && poll_limit(capacity) == 0 ==> r is Ok && r->Ok_0@ == Seq::<u8>::empty()
            && *final(hw) == *old(hw),
        header_controller(header@) is Ok && poll_limit(capacity) > 0 ==> ({
            let op = final(hw).ops().last();
            &&& one_more_op(old(hw).ops(), final(hw).ops(), BusOpKind::SlavePoll, header_controller(header@)->Ok_0)
            &&& op.messages@.len() == poll_limit(capacity)
            &&& match op.result {
                Err(e) => r == Err::<Vec<u8>, ResponseCode>(e),
                Ok(n) => {
                    let taken = op.messages@.subrange(
                        0,
                        if n < poll_limit(capacity) {
                            n as int
                        } else {
                            poll_limit(capacity) as int
                        },
                    );
                    &&& r is Ok
                    &&& r->Ok_0@ == records_within(taken, capacity as int)
                    &&& parse_spec(r->Ok_0@, taken.len() as int) == taken.map_values(|m: SlaveMessage| message_parts(m))
                },
            }
        }),
{
    let (_address, controller, _port, _mux) = match decode_header(header) {
        Ok(m) => m,
        Err(e) => return Err(e),
    };
    let limit = if capacity / MAX_RECORD_LEN < MAX_POLLED {
        capacity / MAX_RECORD_LEN
    } else {
        MAX_POLLED
    };
    if limit == 0 {
        return Ok(Vec::new());
    }
    let mut polled: Vec<SlaveMessage> = Vec::new();
    let mut i: usize = 0;
    while i < limit
        invariant
            i <= limit,
            polled@.len() == i,
        decreases limit - i,
    {
        polled.push(empty_message());
        i = i + 1;
    }
    let n = match hw.poll_slave_messages(controller, polled.as_mut_slice()) {
        Ok(n) => n,
        Err(e) => return Err(e),
    };
    let count = if n < limit {
        n
    } else {
        limit
    };
    let ghost all = polled@;
    polled.truncate(count);
    let v = encode_records(polled.as_slice(), capacity);
    proof {
        assert(polled@ == all.subrange(0, count as int));
        assert(capacity >= MAX_RECORD_LEN * polled@.len()) by (nonlinear_arith)
            requires
                polled@.len() <= limit,
                limit <= capacity / MAX_RECORD_LEN,
                MAX_RECORD_LEN == 257,
        ;
        lemma_records_round_trip(polled@, capacity as int, polled@.len() as int);
    }
    Ok(v)
}

/// The messages that a record buffer holds, as (source address, payload),
/// at most `max` of them: reading stops at the first record that is cut
/// short.
pub open spec fn parse_spec(b: Seq<u8>, max: int) -> Seq<(u8, Seq<u8>)>
    decreases b.len(),
{
    if max <= 0 || b.len() < 2 || b.len() < 2 + b[1] {
        seq![]
    } else {
        seq![(b[0], b.subrange(2, 2 + b[1]))] + parse_spec(b.subrange(2 + b[1], b.len() as int), max - 1)
    }
}

/// Longest record: two header bytes and 255 of payload.
pub const MAX_RECORD_LEN: usize = 257;

/// Reading back the records of messages gives the messages: where the
/// buffer has room for every record and the reader takes at least as many
/// messages as were written, each comes back with its source and payload,
/// in order.
pub proof fn lemma_records_round_trip(ms: Seq<SlaveMessage>, cap: int, max: int)
    requires
        cap >= MAX_RECORD_LEN * ms.len(),
        max >= ms.len(),
    ensures
        parse_spec(records_within(ms, cap), max) == ms.map_values(|m: SlaveMessage| message_parts(m)),
    decreases ms.len(),
{
    if ms.len() == 0 {
        assert(ms.map_values(|m: SlaveMessage| message_parts(m)) =~= Seq::<(u8, Seq<u8>)>::empty());
    } else {
        let m = ms[0];
        let rest = ms.subrange(1, ms.len() as int);
        let r = record(m);
        assert(m.payload().len() == m.data_length);
        assert(r.len() <= MAX_RECORD_LEN);
        assert(cap - r.len() >= MAX_RECORD_LEN * rest.len()) by (nonlinear_arith)
            requires
                cap >= MAX_RECORD_LEN * ms.len(),
                rest.len() == ms.len() - 1,
                r.len() <= MAX_RECORD_LEN,
        ;
        lemma_records_round_trip(rest, cap - r.len(), max - 1);
        let b = records_within(ms, cap);
        let tail = records_within(rest, cap - r.len());
        assert(b == r + tail);
        assert(b[1] == m.data_length);
        assert(b.subrange(2, 2 + b[1]) =~= m.payload());
        assert(b.subrange(2 + b[1], b.len() as int) =~= tail);
        assert(ms.map_values(|m: SlaveMessage| message_parts(m)) =~= seq![message_parts(m)]
            + rest.map_values(|m: SlaveMessage| message_parts(m)));
    }
}

/// Whether the bytes of `m` past its length are zero, as `SlaveMessage::new`
/// leaves them: with its source and payload, this fixes the message.
pub open spec fn zero_padded(m: SlaveMessage) -> bool {
    forall|j: int| m.data_length <= j < 255 ==> m.data@[j] == 0
}

/// A message's source and payload.
pub open spec fn message_parts(m: SlaveMessage) -> (u8, Seq<u8>) {
    (m.source_address, m.payload())
}

/// Reads the messages from the first `len` bytes of a record buffer, at
/// most `max` of them.
pub fn parse_records(buf: &[u8], len: usize, max: usize) -> (r: Vec<SlaveMessage>)
    requires
        len <= buf@.len(),
    ensures
        r@.map_values(|m: SlaveMessage| message_parts(m)) == parse_spec(buf@.subrange(0, len as int), max as int),
        forall|i: int| 0 <= i < r@.len() ==> zero_padded(#[trigger] r@[i]),
{
    let ghost b = buf@.subrange(0, len as int);
    let mut out: Vec<SlaveMessage> = Vec::new();
    let mut pos: usize = 0;
    assert(b.subrange(0, len as int) =~= b);
    assert(out@.map_values(|m: SlaveMessage| message_parts(m)) + parse_spec(b, max as int) =~= parse_spec(
        b,
        max as int,
    ));
    while pos < len && out.len() < max
        invariant
            len <= buf@.len(),
            b == buf@.subrange(0, len as int),
            pos <= len,
            out@.len() <= max,
            forall|i: int| 0 <= i < out@.len() ==> zero_padded(#[trigger] out@[i]),
            out@.map_values(|m: SlaveMessage| message_parts(m)) + parse_spec(
                b.subrange(pos as int, len as int),
                max - out@.len(),
            ) == parse_spec(b, max as int),
        ensures
            forall|i: int| 0 <= i < out@.len() ==> zero_padded(#[trigger] out@[i]),
            out@.map_values(|m: SlaveMessage| message_parts(m)) + parse_spec(
                b.subrange(pos as int, len as int),
                max - out@.len(),
            ) == parse_spec(b, max as int),
            parse_spec(b.subrange(pos as int, len as int), max - out@.len()) == Seq::<(u8, Seq<u8>)>::empty(),
        decreases len - pos,
    {
        let ghost rest = b.subrange(pos as int, len as int);
        if len - pos < 2 {
            assert(parse_spec(rest, max - out@.len()) =~= Seq::<(u8, Seq<u8>)>::empty());
            break;
        }
        let source = buf[pos];
        let n = buf[pos + 1] as usize;
        assert(rest[0] == source && rest[1] as usize == n);
        if n > len - pos - 2 {
            assert(parse_spec(rest, max - out@.len()) =~= Seq::<(u8, Seq<u8>)>::empty());
            break;
        }
        let data = slice_range(buf, pos + 2, pos + 2 + n);
        let m = match SlaveMessage::new(source, data) {
            Ok(m) => m,
            Err(_) => {
                assert(false);
                break;
            },
        };
        let ghost before = out@.map_values(|m: SlaveMessage| message_parts(m));
        out.push(m);
        assert(data@ =~= rest.subrange(2, 2 + n));
        assert(b.subrange(pos + 2 + n, len as int) =~= rest.subrange(2 + n, rest.len() as int));
        assert(out@.map_values(|m: SlaveMessage| message_parts(m)) =~= before.push((source, data@)));
        pos = pos + 2 + n;
        proof {
            let rest2 = b.subrange(pos as int, len as int);
            if pos >= len || out@.len() >= max {
                assert(parse_spec(rest2, max - out@.len()) =~= Seq::<(u8, Seq<u8>)>::empty());
            }
        }
    }
    assert(out@.map_values(|m: SlaveMessage| message_parts(m)) + Seq::<(u8, Seq<u8>)>::empty()
        =~= out@.map_values(|m: SlaveMessage| message_parts(m)));
    out
}

/// The bytes `start..end` of `buf`.
fn slice_range(buf: &[u8], start: usize, end: usize) -> (r: &[u8])
    requires
        start <= end <= buf@.len(),
    ensures
        r@ == buf@.subrange(start as int, end as int),
{
    &buf[start..end]
}

} // verus!
