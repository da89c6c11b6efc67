//! A software double of the I2C hardware, for exercising the server
//! without a board. It answers one configured device with fixed bytes or a
//! fixed error; every other device echoes what it is sent, or, for a pure
//! read, returns the bytes `addr, addr + 1, ...`.

use vstd::prelude::*;
use vstd::arithmetic::div_mod::lemma_add_mod_noop;
use crate::hardware::{is_transfer, one_more_op, BusOp, BusOpKind, I2cHardware};
use crate::mux::{GpioPin, PinEvent};
use vstd::slice::slice_to_vec;
use crate::types::{Controller, I2cSpeed, ResponseCode, SlaveConfig, SlaveMessage, SlaveStatus};

verus! {

#[verifier::external_type_specification]
#[verifier::external_body]
#[verifier::reject_recursive_types(T)]
pub struct ExHeaplessVec<T, const N: usize>(heapless::Vec<T, N>);

/// Capacity of the configured response.
pub const RESPONSE_CAPACITY: usize = 16;

/// Capacity of the slave message queue.
pub const QUEUE_CAPACITY: usize = 4;

/// The bytes that the response buffer holds.
pub uninterp spec fn response_bytes(v: heapless::Vec<u8, 16>) -> Seq<u8>;

/// The messages that the slave queue holds, oldest first.
pub uninterp spec fn queued_messages(v: heapless::Vec<SlaveMessage, 4>) -> Seq<SlaveMessage>;

/// Relies on heapless::Vec::new: a new vector is empty.
#[verifier::external_body]
fn response_new() -> (r: heapless::Vec<u8, 16>)
    ensures
        response_bytes(r) == Seq::<u8>::empty(),
{
    heapless::Vec::new()
}

/// Relies on heapless::Vec::extend_from_slice: appends all of `data` where
/// it fits the capacity, else changes nothing and fails.
#[verifier::external_body]
fn response_extend(v: &mut heapless::Vec<u8, 16>, data: &[u8]) -> (r: Result<(), ()>)
    ensures
        response_bytes(*old(v)).len() + data@.len() > RESPONSE_CAPACITY ==> r is Err && response_bytes(
            *final(v),
        ) == response_bytes(*old(v)),
        response_bytes(*old(v)).len() + data@.len() <= RESPONSE_CAPACITY ==> r is Ok && response_bytes(
            *final(v),
        ) == response_bytes(*old(v)) + data@,
{
    v.extend_from_slice(data)
}

/// Relies on heapless::Vec::as_slice: the elements, in order.
#[verifier::external_body]
fn response_slice(v: &heapless::Vec<u8, 16>) -> (r: &[u8])
    ensures
        r@ == response_bytes(*v),
{
    v.as_slice()
}

/// Relies on heapless::Vec::new: a new vector is empty.
#[verifier::external_body]
fn queue_new() -> (r: heapless::Vec<SlaveMessage, 4>)
    ensures
        queued_messages(r) == Seq::<SlaveMessage>::empty(),
{
    heapless::Vec::new()
}

/// Relies on heapless::Vec::len, which never exceeds the capacity.
#[verifier::external_body]
fn queue_len(q: &heapless::Vec<SlaveMessage, 4>) -> (r: usize)
    ensures
        r == queued_messages(*q).len(),
        r <= QUEUE_CAPACITY,
{
    q.len()
}

/// Relies on indexing a heapless::Vec through its slice.
#[verifier::external_body]
fn queue_get(q: &heapless::Vec<SlaveMessage, 4>, i: usize) -> (r: SlaveMessage)
    requires
        i < queued_messages(*q).len(),
    ensures
        r == queued_messages(*q)[i as int],
{
    q[i]
}

/// Relies on heapless::Vec::clear: the vector becomes empty.
#[verifier::external_body]
fn queue_clear(q: &mut heapless::Vec<SlaveMessage, 4>)
    ensures
        queued_messages(*final(q)) == Seq::<SlaveMessage>::empty(),
{
    q.clear()
}

/// Relies on heapless::Vec::is_full: the length equals the capacity.
#[verifier::external_body]
fn queue_is_full(q: &heapless::Vec<SlaveMessage, 4>) -> (r: bool)
    ensures
        r == (queued_messages(*q).len() == QUEUE_CAPACITY),
{
    q.is_full()
}

/// The bytes of the pattern that an unconfigured device returns to a pure
/// read: `addr, addr + 1, ...`, wrapping.
pub open spec fn read_pattern(addr: u8, n: int) -> Seq<u8> {
    Seq::new(n as nat, |i: int| ((addr as int + i) % 256) as u8)
}

/// A double of the I2C hardware.
pub struct MockI2cDriver {
    transaction_counter: u32,
    test_device: Option<(Controller, u8)>,
    test_response: Option<heapless::Vec<u8, 16>>,
    test_error: Option<ResponseCode>,
    slave_config: Option<SlaveConfig>,
    slave_receive_enabled: bool,
    slave_messages: heapless::Vec<SlaveMessage, 4>,
    history: Vec<BusOp>,
}

impl MockI2cDriver {
    /// Number of transactions so far, wrapping.
    pub closed spec fn transactions(&self) -> u32 {
        self.transaction_counter
    }

    /// The error that the device at (`c`, `addr`) is configured to return.
    pub closed spec fn error_for(&self, c: Controller, addr: u8) -> Option<ResponseCode> {
        if self.test_device == Some((c, addr)) {
            self.test_error
        } else {
            None
        }
    }

    /// The bytes that the device at (`c`, `addr`) returns when sent `w`:
    /// its configured response, else `w` itself; `None` for the read
    /// pattern.
    pub closed spec fn reply_for(&self, c: Controller, addr: u8, w: Seq<u8>) -> Option<Seq<u8>> {
        if self.test_device == Some((c, addr)) && self.test_response is Some {
            Some(response_bytes(self.test_response->Some_0))
        } else if w.len() == 0 {
            None
        } else {
            Some(w)
        }
    }

    /// Whether the device at (`c`, `a`) is not configured: it has no error
    /// and echoes what it is sent, or answers a pure read with the pattern.
    /// Only one device is configured at a time: configuring one forgets the
    /// last.
    pub open spec fn plain_device(&self, c: Controller, a: u8) -> bool {
        &&& self.error_for(c, a) == None::<ResponseCode>
        &&& forall|w: Seq<u8>| #![auto] self.reply_for(c, a, w) == if w.len() == 0 {
            None::<Seq<u8>>
        } else {
            Some(w)
        }
    }

    /// The slave configuration last set.
    pub closed spec fn slave_configuration(&self) -> Option<SlaveConfig> {
        self.slave_config
    }

    /// Whether slave receive is on.
    pub closed spec fn receive_enabled(&self) -> bool {
        self.slave_receive_enabled
    }

    /// The slave messages waiting to be polled.
    pub closed spec fn queued(&self) -> Seq<SlaveMessage> {
        queued_messages(self.slave_messages)
    }

    /// Whether `after` is `before` with one more logged operation and
    /// nothing else changed but, possibly, the slave state.
    pub open spec fn one_more_logged(before: Self, after: Self) -> bool {
        &&& after.transactions() == before.transactions()
        &&& after.log().len() == before.log().len() + 1
        &&& after.log().drop_last() == before.log()
        &&& (forall|c: Controller, a: u8| #![auto] after.error_for(c, a) == before.error_for(c, a))
        &&& (forall|c: Controller, a: u8, w: Seq<u8>| #![auto] after.reply_for(c, a, w) == before.reply_for(c, a, w))
    }

    /// Whether `after` is `before` with slave receive switched to `on`:
    /// the configuration, the queue and the transaction count stay.
    pub open spec fn receive_switched(before: Self, after: Self, on: bool) -> bool {
        &&& Self::one_more_logged(before, after)
        &&& after.receive_enabled() == on
        &&& after.slave_configuration() == before.slave_configuration()
        &&& after.queued() == before.queued()
    }

    /// Switching slave receive on or off is idempotent: doing it twice
    /// leaves the slave state as doing it once, and neither counts as a
    /// transaction.
    pub proof fn lemma_receive_idempotent(a: Self, b: Self, c: Self, on: bool)
        requires
            Self::receive_switched(a, b, on),
            Self::receive_switched(b, c, on),
        ensures
            c.receive_enabled() == b.receive_enabled(),
            b.receive_enabled() == on,
            c.slave_configuration() == b.slave_configuration(),
            b.slave_configuration() == a.slave_configuration(),
            c.queued() == b.queued(),
            b.queued() == a.queued(),
            c.transactions() == a.transactions(),
    {
    }

    fn log_slave_op(
        &mut self,
        kind: BusOpKind,
        controller: Controller,
        result: Result<usize, ResponseCode>,
        config: Option<SlaveConfig>,
        messages: Vec<SlaveMessage>,
    )
        ensures
            one_more_op(old(self).log(), final(self).log(), kind, controller),
            final(self).log().last().result == result,
            final(self).log().last().config == config,
            final(self).log().last().messages@ == messages@,
            final(self).transactions() == old(self).transactions(),
            final(self).same_behaviour(old(self)),
    {
        self.history.push(
            BusOp {
                kind,
                controller,
                addr: 0,
                write: Vec::new(),
                read_len: 0,
                block: false,
                result,
                read: Vec::new(),
                config,
                messages,
            },
        );
        assert(self.history@.drop_last() =~= old(self).history@);
    }

    /// A double with no configured device, no slave configuration and no
    /// transaction yet.
    pub fn new() -> (r: Self)
        ensures
            r.transactions() == 0,
            forall|c: Controller, a: u8| #![auto] r.error_for(c, a) == None::<ResponseCode>,
            forall|c: Controller, a: u8, w: Seq<u8>| #![auto] r.reply_for(c, a, w) == if w.len() == 0 {
                None::<Seq<u8>>
            } else {
                Some(w)
            },
            r.slave_configuration() == None::<SlaveConfig>,
            !r.receive_enabled(),
            r.queued() == Seq::<SlaveMessage>::empty(),
            r.log() == Seq::<BusOp>::empty(),
    {
        MockI2cDriver {
            transaction_counter: 0,
            test_device: None,
            test_response: None,
            test_error: None,
            slave_config: None,
            slave_receive_enabled: false,
            slave_messages: queue_new(),
            history: Vec::new(),
        }
    }

    /// Makes the device at (`controller`, `addr`) answer every read with
    /// `response`; fails, changing nothing, where `response` is longer than
    /// 16 bytes.
    pub fn set_device_response(&mut self, controller: Controller, addr: u8, response: &[u8]) -> (r: Result<
        (),
        (),
    >)
        ensures
            response@.len() > RESPONSE_CAPACITY ==> r is Err && *final(self) == *old(self),
            response@.len() <= RESPONSE_CAPACITY ==> r is Ok && final(self).error_for(controller, addr) == None::<
                ResponseCode,
            > && (forall|w: Seq<u8>| #![auto] final(self).reply_for(controller, addr, w) == Some(response@))
                && (forall|c: Controller, a: u8| #![auto] (c, a) != (controller, addr) ==> final(self).plain_device(c, a)),
            final(self).transactions() == old(self).transactions(),
            final(self).log() == old(self).log(),
            final(self).slave_configuration() == old(self).slave_configuration(),
            final(self).receive_enabled() == old(self).receive_enabled(),
            final(self).queued() == old(self).queued(),
    {
        let mut v = response_new();
        if response_extend(&mut v, response).is_err() {
            return Err(());
        }
        assert(response_bytes(v) =~= response@);
        self.test_device = Some((controller, addr));
        self.test_response = Some(v);
        self.test_error = None;
        Ok(())
    }

    /// Makes every transaction with the device at (`controller`, `addr`)
    /// fail with `error`.
    pub fn set_device_error(&mut self, controller: Controller, addr: u8, error: ResponseCode) -> (r: Result<
        (),
        (),
    >)
        ensures
            r is Ok,
            final(self).error_for(controller, addr) == Some(error),
            forall|c: Controller, a: u8| #![auto] (c, a) != (controller, addr) ==> final(self).plain_device(c, a),
            final(self).transactions() == old(self).transactions(),
            final(self).log() == old(self).log(),
            final(self).slave_configuration() == old(self).slave_configuration(),
            final(self).receive_enabled() == old(self).receive_enabled(),
            final(self).queued() == old(self).queued(),
    {
        self.test_device = Some((controller, addr));
        self.test_response = None;
        self.test_error = Some(error);
        Ok(())
    }

    /// Forgets the configured device, the slave state and the count.
    pub fn reset(&mut self)
        ensures
            final(self).transactions() == 0,
            forall|c: Controller, a: u8| #![auto] final(self).error_for(c, a) == None::<ResponseCode>,
            forall|c: Controller, a: u8, w: Seq<u8>| #![auto] final(self).reply_for(c, a, w) == if w.len()
                == 0 {
                None::<Seq<u8>>
            } else {
                Some(w)
            },
            final(self).slave_configuration() == None::<SlaveConfig>,
            !final(self).receive_enabled(),
            final(self).queued() == Seq::<SlaveMessage>::empty(),
            final(self).log() == Seq::<BusOp>::empty(),
    {
        self.history = Vec::new();
        self.test_device = None;
        self.test_response = None;
        self.test_error = None;
        self.transaction_counter = 0;
        self.slave_config = None;
        self.slave_receive_enabled = false;
        queue_clear(&mut self.slave_messages);
    }

    /// Number of transactions so far.
    pub fn transaction_count(&self) -> (r: u32)
        ensures
            r == self.transactions(),
    {
        self.transaction_counter
    }

    /// How the double answers a transaction: with the configured error, or
    /// by copying the device's reply into the read buffer as far as both
    /// go, or by filling the buffer with the read pattern.
    pub open spec fn answers(
        &self,
        controller: Controller,
        addr: u8,
        write: Seq<u8>,
        before: Seq<u8>,
        r: Result<usize, ResponseCode>,
        after: Seq<u8>,
    ) -> bool {
        match self.error_for(controller, addr) {
            Some(e) => r == Err::<usize, ResponseCode>(e) && after == before,
            None => match self.reply_for(controller, addr, write) {
                None => r == Ok::<usize, ResponseCode>(before.len() as usize) && after == read_pattern(
                    addr,
                    before.len() as int,
                ),
                Some(reply) => {
                    let n = if reply.len() < before.len() {
                        reply.len()
                    } else {
                        before.len()
                    };
                    r == Ok::<usize, ResponseCode>(n as usize) && after == reply.subrange(0, n as int)
                        + before.subrange(n as int, before.len() as int)
                },
            },
        }
    }

    fn respond(&self, controller: Controller, addr: u8, write_data: &[u8], read_buffer: &mut [u8]) -> (r:
        Result<usize, ResponseCode>)
        ensures
            final(read_buffer)@.len() == old(read_buffer)@.len(),
            self.answers(controller, addr, write_data@, old(read_buffer)@, r, final(read_buffer)@),
    {
        let configured = match self.test_device {
            Some((c, a)) => c == controller && a == addr,
            None => false,
        };
        if configured {
            if let Some(e) = self.test_error {
                return Err(e);
            }
        }
        let n = read_buffer.len();
        let reply: &[u8] = if configured && self.test_response.is_some() {
            match &self.test_response {
                Some(v) => response_slice(v),
                None => write_data,
            }
        } else if write_data.len() == 0 {
            let mut i: usize = 0;
            while i < n
                invariant
                    n == read_buffer@.len(),
                    i <= n,
                    forall|j: int| 0 <= j < i ==> read_buffer@[j] == ((addr as int + j) % 256) as u8,
                decreases n - i,
            {
                let step = (i % 256) as u8;
                proof {
                    lemma_add_mod_noop(addr as int, i as int, 256);
                    assert(addr as int % 256 == addr as int);
                    assert(step as int % 256 == step as int);
                }
                read_buffer[i] = addr.wrapping_add(step);
                i = i + 1;
            }
            assert(read_buffer@ =~= read_pattern(addr, n as int));
            return Ok(n);
        } else {
            write_data
        };
        let count = if reply.len() < n {
            reply.len()
        } else {
            n
        };
        let ghost before = read_buffer@;
        let mut i: usize = 0;
        while i < count
            invariant
                count <= n,
                count <= reply@.len(),
                n == read_buffer@.len(),
                i <= count,
                before.len() == n,
                forall|j: int| 0 <= j < i ==> read_buffer@[j] == reply@[j],
                forall|j: int| i <= j < n ==> read_buffer@[j] == before[j],
            decreases count - i,
        {
            read_buffer[i] = reply[i];
            i = i + 1;
        }
        assert(read_buffer@ =~= reply@.subrange(0, count as int) + before.subrange(count as int, n as int));
        Ok(count)
    }

    /// One transaction: counts it, answers it (see `answers`) and logs it.
    pub fn transact(
        &mut self,
        controller: Controller,
        addr: u8,
        write_data: &[u8],
        read_buffer: &mut [u8],
        block: bool,
    ) -> (r: Result<usize, ResponseCode>)
        ensures
            final(read_buffer)@.len() == old(read_buffer)@.len(),
            old(self).answers(controller, addr, write_data@, old(read_buffer)@, r, final(read_buffer)@),
            final(self).transactions() == (old(self).transactions() as int + 1) % 0x1_0000_0000,
            final(self).log().len() == old(self).log().len() + 1,
            final(self).log().drop_last() == old(self).log(),
            is_transfer(final(self).log().last(), controller, addr, write_data@, old(read_buffer)@.len() as int, block),
            final(self).log().last().result == r,
            final(self).log().last().read@ == final(read_buffer)@,
            final(self).same_behaviour(old(self)),
    {
        self.transaction_counter = self.transaction_counter.wrapping_add(1);
        let r = self.respond(controller, addr, write_data, read_buffer);
        let op = BusOp {
            kind: BusOpKind::Transfer,
            controller,
            addr,
            write: slice_to_vec(write_data),
            read_len: read_buffer.len(),
            block,
            result: r,
            read: slice_to_vec(read_buffer),
            config: None,
            messages: Vec::new(),
        };
        self.history.push(op);
        r
    }

    /// The log of bus operations.
    pub closed spec fn log(&self) -> Seq<BusOp> {
        self.history@
    }

    /// The bus operations performed so far, oldest first.
    pub fn history(&self) -> (r: &Vec<BusOp>)
        ensures
            r@ == self.log(),
    {
        &self.history
    }

    /// Everything but the count and the log is as in `other`.
    pub open spec fn same_behaviour(&self, other: &Self) -> bool {
        &&& self.slave_configuration() == other.slave_configuration()
        &&& self.receive_enabled() == other.receive_enabled()
        &&& self.queued() == other.queued()
        &&& (forall|c: Controller, a: u8| #![auto] self.error_for(c, a) == other.error_for(c, a))
        &&& (forall|c: Controller, a: u8, w: Seq<u8>| #![auto] self.reply_for(c, a, w) == other.reply_for(c, a, w))
    }
}

impl I2cHardware for MockI2cDriver {
    closed spec fn ops(&self) -> Seq<BusOp> {
        self.history@
    }

    fn write_read(
        &mut self,
        controller: Controller,
        addr: u8,
        write_data: &[u8],
        read_buffer: &mut [u8],
    ) -> (r: Result<usize, ResponseCode>)
        ensures
            old(self).answers(controller, addr, write_data@, old(read_buffer)@, r, final(read_buffer)@),
            final(self).transactions() == (old(self).transactions() as int + 1) % 0x1_0000_0000,
            final(self).log() == final(self).ops(),
            final(self).same_behaviour(old(self)),
    {
        self.transact(controller, addr, write_data, read_buffer, false)
    }

    /// The double makes no difference between a block read and a plain one.
    fn write_read_block(
        &mut self,
        controller: Controller,
        addr: u8,
        write_data: &[u8],
        read_buffer: &mut [u8],
    ) -> (r: Result<usize, ResponseCode>)
        ensures
            old(self).answers(controller, addr, write_data@, old(read_buffer)@, r, final(read_buffer)@),
            final(self).transactions() == (old(self).transactions() as int + 1) % 0x1_0000_0000,
            final(self).log() == final(self).ops(),
            final(self).same_behaviour(old(self)),
    {
        self.transact(controller, addr, write_data, read_buffer, true)
    }

    fn configure_timing(&mut self, _controller: Controller, _speed: I2cSpeed) -> (r: Result<(), ResponseCode>)
        ensures
            r is Ok,
            *final(self) == *old(self),
    {
        Ok(())
    }

    /// The double's bus never locks: a reset only counts in the log.
    fn reset_bus(&mut self, controller: Controller) -> (r: Result<(), ResponseCode>)
        ensures
            r is Ok,
            final(self).log() == final(self).ops(),
            final(self).transactions() == old(self).transactions(),
            final(self).same_behaviour(old(self)),
    {
        self.history.push(
            BusOp {
                kind: BusOpKind::Reset,
                controller,
                addr: 0,
                write: Vec::new(),
                read_len: 0,
                block: false,
                result: Ok(0),
                read: Vec::new(),
                config: None,
                messages: Vec::new(),
            },
        );
        Ok(())
    }

    fn enable_controller(&mut self, _controller: Controller) -> (r: Result<(), ResponseCode>)
        ensures
            r is Ok,
            *final(self) == *old(self),
    {
        Ok(())
    }

    fn disable_controller(&mut self, _controller: Controller) -> (r: Result<(), ResponseCode>)
        ensures
            r is Ok,
            *final(self) == *old(self),
    {
        Ok(())
    }

    fn configure_slave_mode(&mut self, controller: Controller, config: &SlaveConfig) -> (r: Result<
        (),
        ResponseCode,
    >)
        ensures
            r is Ok,
            Self::one_more_logged(*old(self), *final(self)),
            final(self).slave_configuration() == Some(*config),
            final(self).receive_enabled() == old(self).receive_enabled(),
            final(self).queued() == old(self).queued(),
    {
        self.slave_config = Some(*config);
        self.log_slave_op(BusOpKind::SlaveConfig, controller, Ok(0), Some(*config), Vec::new());
        Ok(())
    }

    fn enable_slave_receive(&mut self, controller: Controller) -> (r: Result<(), ResponseCode>)
        ensures
            r is Ok,
            Self::receive_switched(*old(self), *final(self), true),
    {
        self.slave_receive_enabled = true;
        self.log_slave_op(BusOpKind::SlaveEnable, controller, Ok(0), None, Vec::new());
        Ok(())
    }

    fn disable_slave_receive(&mut self, controller: Controller) -> (r: Result<(), ResponseCode>)
        ensures
            r is Ok,
            Self::receive_switched(*old(self), *final(self), false),
    {
        self.slave_receive_enabled = false;
        self.log_slave_op(BusOpKind::SlaveDisable, controller, Ok(0), None, Vec::new());
        Ok(())
    }

    fn poll_slave_messages(&mut self, controller: Controller, messages: &mut [SlaveMessage]) -> (r: Result<
        usize,
        ResponseCode,
    >)
        ensures
            ({
                let n = if old(self).queued().len() < old(messages)@.len() {
                    old(self).queued().len()
                } else {
                    old(messages)@.len()
                };
                &&& r == Ok::<usize, ResponseCode>(n as usize)
                &&& final(messages)@ == old(self).queued().subrange(0, n as int) + old(messages)@.subrange(
                    n as int,
                    old(messages)@.len() as int,
                )
            }),
            final(self).queued() == Seq::<SlaveMessage>::empty(),
            final(self).receive_enabled() == old(self).receive_enabled(),
            final(self).slave_configuration() == old(self).slave_configuration(),
            Self::one_more_logged(*old(self), *final(self)),
    {
        let ghost before = messages@;
        let queued = queue_len(&self.slave_messages);
        let count = if queued < messages.len() {
            queued
        } else {
            messages.len()
        };
        let mut i: usize = 0;
        while i < count
            invariant
                count <= queued,
                queued == queued_messages(self.slave_messages).len(),
                count <= messages@.len(),
                messages@.len() == old(messages)@.len(),
                before == old(messages)@,
                i <= count,
                forall|j: int| 0 <= j < i ==> messages@[j] == queued_messages(self.slave_messages)[j],
                forall|j: int| i <= j < messages@.len() ==> messages@[j] == before[j],
            decreases count - i,
        {
            messages[i] = queue_get(&self.slave_messages, i);
            i = i + 1;
        }
        assert(messages@ =~= queued_messages(self.slave_messages).subrange(0, count as int) + before.subrange(
            count as int,
            before.len() as int,
        ));
        // What was read is consumed.
        queue_clear(&mut self.slave_messages);
        let taken = slice_to_vec(messages);
        self.log_slave_op(BusOpKind::SlavePoll, controller, Ok(count), None, taken);
        Ok(count)
    }

    fn get_slave_status(&self, _controller: Controller) -> (r: Result<SlaveStatus, ResponseCode>)
        ensures
            r == Ok::<SlaveStatus, ResponseCode>(
                SlaveStatus {
                    enabled: self.receive_enabled(),
                    messages_received: self.queued().len() as u32,
                    messages_dropped: 0,
                    address_matches: 0,
                    bus_errors: 0,
                    buffer_full: self.queued().len() == QUEUE_CAPACITY,
                },
            ),
    {
        let n = queue_len(&self.slave_messages);
        Ok(SlaveStatus {
            enabled: self.slave_receive_enabled,
            messages_received: n as u32,
            messages_dropped: 0,
            address_matches: 0,
            bus_errors: 0,
            buffer_full: queue_is_full(&self.slave_messages),
        })
    }
}

/// A double of a GPIO line: it only logs what is done to it.
pub struct MockPin {
    events: Vec<PinEvent>,
}

impl MockPin {
    /// A line with nothing done to it yet.
    pub fn new() -> (r: Self)
        ensures
            r.events() == Seq::<PinEvent>::empty(),
    {
        MockPin { events: Vec::new() }
    }

    /// What was done to the line, oldest first.
    pub fn history(&self) -> (r: &Vec<PinEvent>)
        ensures
            r@ == self.events(),
    {
        &self.events
    }
}

impl GpioPin for MockPin {
    closed spec fn events(&self) -> Seq<PinEvent> {
        self.events@
    }

    fn set_high(&mut self) {
        self.events.push(PinEvent::High);
    }

    fn set_low(&mut self) {
        self.events.push(PinEvent::Low);
    }

    fn configure_as_output(&mut self) {
        self.events.push(PinEvent::Output);
    }
}

} // verus!
