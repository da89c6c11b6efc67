//! Write/read requests: validation of the header and the memory grants
//! (leases) that come with them, then the transfer itself.
//!
//! A request carries the 4-byte device header and an even, non-zero number
//! of leases, taken as pairs (write lease, read lease). Validation happens
//! before any hardware access; the transfer then selects the device's
//! multiplexer segment and runs each pair in turn.

use vstd::prelude::*;
use crate::hardware::I2cHardware;
use crate::marshal::{decode_header, decode_spec, I2cMessage};
use crate::mux::GpioPin;
use crate::hardware::{is_reset, is_transfer, BusOp};
use crate::topology::{
    step_error, disable_all, is_bus_fault, lemma_disable_all_issuable, lemma_repeated_selection, mux_next, mux_plan, needs_reset, steps_match,
    steps_ran, steps_result, I2cServer, MuxRequest, MuxSite, MuxState, PortSwitch,
};
use crate::types::{is_reserved_address, reserved_address, Controller, Mux, Op, PortIndex, ResponseCode, Segment};

verus! {

/// Largest lease, in bytes.
pub const MAX_LEASE_LEN: usize = 255;

/// What the caller's lease offers: its length and whether the server may
/// read or write it.
#[derive(Copy, Clone, Debug, PartialEq, Eq, Structural)]
pub struct LeaseInfo {
    pub len: usize,
    pub readable: bool,
    pub writable: bool,
}

/// Whether `n` leases form a non-empty sequence of pairs.
pub open spec fn lease_count_ok(n: int) -> bool {
    n >= 2 && n % 2 == 0
}

/// What is wrong with a (write, read) lease pair, if anything: a lease over
/// 255 bytes, a write lease the server may not read, a non-empty read lease
/// it may not write, or a pair that moves no byte at all.
pub open spec fn pair_error(w: LeaseInfo, r: LeaseInfo) -> Option<ResponseCode> {
    if w.len > MAX_LEASE_LEN || r.len > MAX_LEASE_LEN {
        Some(ResponseCode::TooMuchData)
    } else if !w.readable || (r.len > 0 && !r.writable) {
        Some(ResponseCode::BadArg)
    } else if w.len == 0 && r.len == 0 {
        Some(ResponseCode::BadArg)
    } else {
        None
    }
}

/// The error of the first bad pair at or after lease `i`.
pub open spec fn leases_error_from(l: Seq<LeaseInfo>, i: int) -> Option<ResponseCode>
    decreases l.len() - i,
{
    if i < 0 || i + 1 >= l.len() {
        None
    } else {
        match pair_error(l[i], l[i + 1]) {
            Some(e) => Some(e),
            None => leases_error_from(l, i + 2),
        }
    }
}

/// What checking the leases gives.
pub open spec fn leases_check(l: Seq<LeaseInfo>) -> Result<(), ResponseCode> {
    if !lease_count_ok(l.len() as int) {
        Err(ResponseCode::IllegalLeaseCount)
    } else {
        match leases_error_from(l, 0) {
            Some(e) => Err(e),
            None => Ok(()),
        }
    }
}

/// Checks the lease count, then each pair in order.
pub fn check_leases(leases: &Vec<LeaseInfo>) -> (r: Result<(), ResponseCode>)
    ensures
        r == leases_check(leases@),
{
    let n = leases.len();
    if n < 2 || n % 2 != 0 {
        return Err(ResponseCode::IllegalLeaseCount);
    }
    let mut i: usize = 0;
    while i < n
        invariant
            n == leases@.len(),
            n % 2 == 0,
            i % 2 == 0,
            i <= n,
            leases_error_from(leases@, 0) == leases_error_from(leases@, i as int),
        decreases n - i,
    {
        let w = leases[i];
        let r = leases[i + 1];
        if w.len > MAX_LEASE_LEN || r.len > MAX_LEASE_LEN {
            return Err(ResponseCode::TooMuchData);
        }
        if !w.readable || (r.len > 0 && !r.writable) {
            return Err(ResponseCode::BadArg);
        }
        if w.len == 0 && r.len == 0 {
            return Err(ResponseCode::BadArg);
        }
        i = i + 2;
    }
    Ok(())
}

/// A validated write/read request, ready to run once the port's pins are
/// routed.
#[derive(Copy, Clone, Debug, PartialEq, Eq)]
pub struct Transfer {
    /// Whether the final read is an SMBus block read
    pub block: bool,
    pub address: u8,
    pub controller: Controller,
    pub port: PortIndex,
    pub mux: Option<(Mux, Segment)>,
    /// The pin change to make before the transfer runs, if any
    pub port_switch: Option<PortSwitch>,
}

/// The outcome of a transfer: the bytes read for each pair, to be copied
/// back into its read lease, and their total.
pub struct TransferReply {
    pub total: usize,
    pub reads: Vec<Vec<u8>>,
}

/// The sum of the lengths of `reads`.
pub open spec fn total_len(reads: Seq<Vec<u8>>) -> int
    decreases reads.len(),
{
    if reads.len() == 0 {
        0
    } else {
        total_len(reads.drop_last()) + reads.last()@.len()
    }
}

/// Whether `op` is the transaction of pair `k` of transfer `t`: the pair's
/// write bytes and read length, a block read only for the final pair of a
/// block transfer.
pub open spec fn pair_op(op: BusOp, t: Transfer, leases: Seq<LeaseInfo>, writes: Seq<Vec<u8>>, k: int) -> bool {
    is_transfer(op, t.controller, t.address, writes[k]@, leases[2 * k + 1].len as int, t.block && k + 1 == writes.len())
}

/// The bytes that a pair hands back: what the hardware read, as many as it
/// reports and the read lease holds.
pub open spec fn pair_read(op: BusOp, rlen: usize) -> Seq<u8> {
    let n = op.result->Ok_0;
    let m = if n < rlen {
        n
    } else {
        rlen
    };
    op.read@.subrange(0, m as int)
}

/// The shape of a transfer that issued `q` mux steps and `k` transactions:
/// the server's request log goes from `req0` to `req1`, the hardware's
/// operation log from `ops0` to `ops1`, the bus state ends as `st` and the
/// call returns `r`.
pub open spec fn transfer_shape(
    sites: Seq<MuxSite>,
    plan: Seq<MuxRequest>,
    t: Transfer,
    leases: Seq<LeaseInfo>,
    writes: Seq<Vec<u8>>,
    req0: Seq<MuxRequest>,
    req1: Seq<MuxRequest>,
    ops0: Seq<BusOp>,
    ops1: Seq<BusOp>,
    st: Option<MuxState>,
    r: Result<TransferReply, ResponseCode>,
    q: int,
    k: int,
) -> bool {
    let rec = r matches Err(e) && is_bus_fault(e);
    let dis = disable_all(sites, t.controller, t.port);
    let issued = req1.subrange(req0.len() as int, req0.len() + q);
    let mux_ops = ops1.subrange(ops0.len() as int, ops0.len() + q);
    let mux_r = steps_result(sites, plan, issued, mux_ops);
    let base = ops0.len() + q;
    &&& 0 <= q
    &&& 0 <= k <= writes.len()
    &&& req1.len() == req0.len() + q + (if rec { dis.len() } else { 0 })
    &&& ops1.len() == base + k + (if rec { 1 + dis.len() } else { 0 })
    &&& req1.subrange(0, req0.len() as int) == req0
    &&& ops1.subrange(0, ops0.len() as int) == ops0
    &&& steps_ran(sites, plan, issued, mux_ops)
    &&& (mux_r is Err ==> k == 0 && r == Err::<TransferReply, ResponseCode>(mux_r->Err_0))
    &&& forall|j: int| 0 <= j < k ==> pair_op(#[trigger] ops1[base + j], t, leases, writes, j)
    &&& forall|j: int| 0 <= j < k - 1 ==> (#[trigger] ops1[base + j]).result is Ok
    &&& (mux_r is Ok ==> match r {
        Ok(reply) => k == writes.len() && ops1[base + k - 1].result is Ok && reply.reads@.len() == k
            && reply.total == total_len(reply.reads@) && forall|j: int| 0 <= j < k ==> (#[trigger] reply.reads@[j])@
            == pair_read(ops1[base + j], leases[2 * j + 1].len),
        Err(e) => k >= 1 && ops1[base + k - 1].result == Err::<usize, ResponseCode>(e),
    })
    &&& (rec ==> is_reset(ops1[base + k], t.controller) && steps_match(
        ops1.subrange(base + k + 1, ops1.len() as int),
        sites,
        dis,
    ) && req1.subrange(req0.len() + q, req1.len() as int) == dis)
    &&& st == match r {
        Ok(_) => mux_next(t.mux),
        Err(_) => if rec || mux_r is Err {
            Some(MuxState::Unknown)
        } else {
            mux_next(t.mux)
        },
    }
}

/// What running a transfer did: the shape above, for the number of mux
/// steps and transactions it issued.
pub open spec fn transfer_ran(
    sites: Seq<MuxSite>,
    plan: Seq<MuxRequest>,
    t: Transfer,
    leases: Seq<LeaseInfo>,
    writes: Seq<Vec<u8>>,
    req0: Seq<MuxRequest>,
    req1: Seq<MuxRequest>,
    ops0: Seq<BusOp>,
    ops1: Seq<BusOp>,
    st: Option<MuxState>,
    r: Result<TransferReply, ResponseCode>,
) -> bool {
    exists|q: int, k: int| transfer_shape(sites, plan, t, leases, writes, req0, req1, ops0, ops1, st, r, q, k)
}

/// Whether there is one write buffer per lease pair, as long as the pair's
/// write lease.
pub open spec fn writes_fit(leases: Seq<LeaseInfo>, writes: Seq<Vec<u8>>) -> bool {
    &&& leases.len() == 2 * writes.len()
    &&& forall|k: int| 0 <= k < writes.len() ==> (#[trigger] writes[k])@.len() == leases[2 * k].len
}

/// Checks `writes_fit`.
pub fn check_writes(leases: &Vec<LeaseInfo>, writes: &Vec<Vec<u8>>) -> (r: bool)
    ensures
        r == writes_fit(leases@, writes@),
{
    if leases.len() % 2 != 0 || leases.len() / 2 != writes.len() {
        return false;
    }
    let n = leases.len();
    let mut k: usize = 0;
    while k < writes.len()
        invariant
            n == leases@.len(),
            leases@.len() == 2 * writes@.len(),
            k <= writes@.len(),
            forall|j: int| 0 <= j < k ==> (#[trigger] writes@[j])@.len() == leases@[2 * j].len,
        decreases writes@.len() - k,
    {
        assert(2 * k < n);
        if writes[k].len() != leases[2 * k].len {
            return false;
        }
        k = k + 1;
    }
    true
}

/// A request to a reserved address is refused with `ReservedAddress` once
/// the operation, leases and header pass; `handle_write_read` and
/// `prepare_transfer` then touch no hardware.
pub proof fn lemma_reserved_address_refused<G: GpioPin>(
    server: &I2cServer<G>,
    op: Op,
    header: Seq<u8>,
    leases: Seq<LeaseInfo>,
)
    requires
        op == Op::WriteRead || op == Op::WriteReadBlock,
        leases_check(leases) == Ok::<(), ResponseCode>(()),
        decode_spec(header) is Ok,
        is_reserved_address(decode_spec(header)->Ok_0.0),
    ensures
        server.request_check(op, header, leases) == Err::<I2cMessage, ResponseCode>(ResponseCode::ReservedAddress),
{
}

/// A transfer to the segment that the cache shows selected issues no mux
/// step at all: after one transfer to (mux, segment) succeeded, the next
/// one to the same (mux, segment) writes no mux register.
pub proof fn lemma_repeat_transfer_skips_mux(
    sites: Seq<MuxSite>,
    t: Transfer,
    leases: Seq<LeaseInfo>,
    writes: Seq<Vec<u8>>,
    req0: Seq<MuxRequest>,
    req1: Seq<MuxRequest>,
    ops0: Seq<BusOp>,
    ops1: Seq<BusOp>,
    st: Option<MuxState>,
    r: Result<TransferReply, ResponseCode>,
    m: Mux,
    seg: Segment,
)
    requires
        t.mux == Some((m, seg)),
    ensures
        forall|q: int, k: int|
            transfer_shape(
                sites,
                mux_plan(sites, t.controller, t.port, Some(MuxState::Enabled(m, seg)), t.mux),
                t,
                leases,
                writes,
                req0,
                req1,
                ops0,
                ops1,
                st,
                r,
                q,
                k,
            ) ==> q == 0,
{
    lemma_repeated_selection(sites, t.controller, t.port, None, m, seg);
}

/// Every lease of a sequence that passes the checks is at most 255 bytes.
proof fn lemma_lease_bounded(l: Seq<LeaseInfo>, i: int, j: int)
    requires
        0 <= i <= j < l.len(),
        i % 2 == 0,
        l.len() % 2 == 0,
        leases_error_from(l, i) == None::<ResponseCode>,
    ensures
        l[j].len <= MAX_LEASE_LEN,
    decreases j - i,
{
    if j >= i + 2 {
        lemma_lease_bounded(l, i + 2, j);
    }
}

impl<G: GpioPin> I2cServer<G> {
    /// What validating a request gives, in this order: the operation, the
    /// lease count, the header, each lease pair, the device address, the
    /// controller and the port.
    pub open spec fn request_check(&self, op: Op, header: Seq<u8>, leases: Seq<LeaseInfo>) -> Result<
        I2cMessage,
        ResponseCode,
    > {
        if op != Op::WriteRead && op != Op::WriteReadBlock {
            Err(ResponseCode::OperationNotSupported)
        } else if !lease_count_ok(leases.len() as int) {
            Err(ResponseCode::IllegalLeaseCount)
        } else {
            match decode_spec(header) {
                Err(e) => Err(e),
                Ok(m) => match leases_check(leases) {
                    Err(e) => Err(e),
                    Ok(()) => if is_reserved_address(m.0) {
                        Err(ResponseCode::ReservedAddress)
                    } else if !self.controller_list().contains(m.1) {
                        Err(ResponseCode::BadController)
                    } else if !self.has_port(m.1, m.2) {
                        Err(ResponseCode::BadPort)
                    } else {
                        Ok(m)
                    },
                },
            }
        }
    }

    /// Validates a write/read request. Touches neither the hardware nor
    /// the caches: every rejection comes before any bus access. The
    /// returned transfer names the pin change that its port needs, if any;
    /// the caller makes that change and then records it with `route_port`.
    pub fn prepare_transfer(&self, op: Op, header: &[u8; 4], leases: &Vec<LeaseInfo>) -> (r: Result<
        Transfer,
        ResponseCode,
    >)
        requires
            self.wf(),
        ensures
            match self.request_check(op, header@, leases@) {
                Err(e) => r == Err::<Transfer, ResponseCode>(e),
                Ok(m) => r is Ok && r->Ok_0.block == (op == Op::WriteReadBlock) && r->Ok_0.address == m.0
                    && r->Ok_0.controller == m.1 && r->Ok_0.port == m.2 && r->Ok_0.mux == m.3
                    && (self.routed_port(m.1) == m.2 ==> r->Ok_0.port_switch == None::<PortSwitch>)
                    && (self.routed_port(m.1) != m.2 ==> r->Ok_0.port_switch == Some(
                    PortSwitch { controller: m.1, from: self.routed_port(m.1), to: m.2 },
                )),
            },
    {
        if op != Op::WriteRead && op != Op::WriteReadBlock {
            return Err(ResponseCode::OperationNotSupported);
        }
        let n = leases.len();
        if n < 2 || n % 2 != 0 {
            return Err(ResponseCode::IllegalLeaseCount);
        }
        let (address, controller, port, mux) = match decode_header(header) {
            Ok(m) => m,
            Err(e) => return Err(e),
        };
        if let Err(e) = check_leases(leases) {
            return Err(e);
        }
        if reserved_address(address) {
            return Err(ResponseCode::ReservedAddress);
        }
        if let Err(e) = self.lookup_controller(controller) {
            return Err(e);
        }
        if let Err(e) = self.validate_port(controller, port) {
            return Err(e);
        }
        let current = self.current_port(controller);
        let port_switch = if current == port {
            None
        } else {
            Some(PortSwitch { controller, from: current, to: port })
        };
        Ok(Transfer { block: op == Op::WriteReadBlock, address, controller, port, mux, port_switch })
    }

    /// Validates and runs a write/read request in one step, for a request
    /// whose port is already routed: the checks of `prepare_transfer`,
    /// then that there is one write buffer per pair, as long as its write
    /// lease (`BadArg` otherwise), that the byte total fits a `usize`
    /// (`IllegalLeaseCount` otherwise), and that no pin change is needed
    /// (`BadPort` otherwise; such a request goes through
    /// `prepare_transfer`, `route_port` and `perform_transfer`). Every
    /// rejection comes before any hardware access; an accepted request runs
    /// as `perform_transfer` states.
    pub fn handle_write_read<H: I2cHardware>(
        &mut self,
        hw: &mut H,
        op: Op,
        header: &[u8; 4],
        leases: &Vec<LeaseInfo>,
        writes: &Vec<Vec<u8>>,
    ) -> (r: Result<TransferReply, ResponseCode>)
        requires
            old(self).wf(),
        ensures
            final(self).wf(),
            match old(self).request_check(op, header@, leases@) {
                Err(e) => r == Err::<TransferReply, ResponseCode>(e) && *final(self) == *old(self) && *final(hw)
                    == *old(hw),
                Ok(m) => if !writes_fit(leases@, writes@) {
                    r == Err::<TransferReply, ResponseCode>(ResponseCode::BadArg) && *final(self) == *old(self)
                        && *final(hw) == *old(hw)
                } else if leases@.len() > usize::MAX / MAX_LEASE_LEN {
                    r == Err::<TransferReply, ResponseCode>(ResponseCode::IllegalLeaseCount) && *final(self)
                        == *old(self) && *final(hw) == *old(hw)
                } else if old(self).routed_port(m.1) != m.2 {
                    r == Err::<TransferReply, ResponseCode>(ResponseCode::BadPort) && *final(self) == *old(self)
                        && *final(hw) == *old(hw)
                } else {
                    final(self).same_except_bus(old(self), m.1, m.2) && transfer_ran(
                        old(self).mux_sites(),
                        mux_plan(old(self).mux_sites(), m.1, m.2, old(self).bus_state(m.1, m.2), m.3),
                        Transfer {
                            block: op == Op::WriteReadBlock,
                            address: m.0,
                            controller: m.1,
                            port: m.2,
                            mux: m.3,
                            port_switch: None,
                        },
                        leases@,
                        writes@,
                        old(self).requests(),
                        final(self).requests(),
                        old(hw).ops(),
                        final(hw).ops(),
                        final(self).bus_state(m.1, m.2),
                        r,
                    )
                },
            },
    {
        let t = match self.prepare_transfer(op, header, leases) {
            Ok(t) => t,
            Err(e) => return Err(e),
        };
        if !check_writes(leases, writes) {
            return Err(ResponseCode::BadArg);
        }
        if leases.len() > usize::MAX / MAX_LEASE_LEN {
            return Err(ResponseCode::IllegalLeaseCount);
        }
        if t.port_switch.is_some() {
            return Err(ResponseCode::BadPort);
        }
        proof {
            assert(leases@.len() * MAX_LEASE_LEN <= usize::MAX) by (nonlinear_arith)
                requires
                    leases@.len() <= usize::MAX / MAX_LEASE_LEN,
                    MAX_LEASE_LEN == 255,
            ;
        }
        self.perform_transfer(hw, &t, leases, writes)
    }

    /// Runs a validated transfer.
    ///
    /// First the device's multiplexer segment is selected: the steps of
    /// `mux_plan` run in order and stop at the first failure (as in
    /// `configure_mux`). Then each (write, read) lease pair becomes one
    /// write-then-read on the bus, a block read for the final pair of a
    /// block transfer; the first failing transaction ends the transfer. The
    /// reply holds, for each pair, the bytes read (as many as the hardware
    /// reports, at most the read lease's length) and their total.
    ///
    /// A failure is returned as it came. Where it is a bus fault the bus is
    /// then recovered: reset, every mux on it disconnected, and its
    /// multiplexer state `Unknown`, so that the next request programs the
    /// multiplexers afresh. After any other failure of a transaction the
    /// state is the one that the mux steps left.
    #[verifier::rlimit(100)]
    pub fn perform_transfer<H: I2cHardware>(
        &mut self,
        hw: &mut H,
        t: &Transfer,
        leases: &Vec<LeaseInfo>,
        writes: &Vec<Vec<u8>>,
    ) -> (r: Result<TransferReply, ResponseCode>)
        requires
            old(self).wf(),
            leases_check(leases@) == Ok::<(), ResponseCode>(()),
            leases@.len() == 2 * writes@.len(),
            forall|k: int| 0 <= k < writes@.len() ==> (#[trigger] writes@[k])@.len() == leases@[2 * k].len,
            leases@.len() * MAX_LEASE_LEN <= usize::MAX,
        ensures
            final(self).wf(),
            final(self).same_except_bus(old(self), t.controller, t.port),
            transfer_ran(
                old(self).mux_sites(),
                mux_plan(old(self).mux_sites(), t.controller, t.port, old(self).bus_state(t.controller, t.port), t.mux),
                *t,
                leases@,
                writes@,
                old(self).requests(),
                final(self).requests(),
                old(hw).ops(),
                final(hw).ops(),
                final(self).bus_state(t.controller, t.port),
                r,
            ),
    {
        let ghost sites = self.mux_sites();
        let ghost plan = mux_plan(sites, t.controller, t.port, self.bus_state(t.controller, t.port), t.mux);
        let ghost r0 = self.requests();
        let ghost o0 = hw.ops();
        let ghost dis = disable_all(sites, t.controller, t.port);
        let ghost s0 = *self;
        proof {
            lemma_disable_all_issuable(sites, t.controller, t.port);
        }
        if let Err(e) = self.configure_mux(hw, t.controller, t.port, t.mux) {
            let ghost r1 = self.requests();
            let ghost o1 = hw.ops();
            let ghost q = r1.len() - r0.len();
            assert(r1.subrange(r0.len() as int, r0.len() + q) =~= r1.subrange(r0.len() as int, r1.len() as int));
            assert(o1.subrange(o0.len() as int, o0.len() + q) =~= o1.subrange(o0.len() as int, o1.len() as int)) by {
                assert(o1.len() == o0.len() + q);
            }
            if needs_reset(e) {
                let ghost s1 = *self;
                self.recover_bus(hw, t.controller, t.port);
                proof {
                    I2cServer::lemma_same_except_bus_trans(&*self, &s1, &s0, t.controller, t.port);
                    let req1 = self.requests();
                    let ops1 = hw.ops();
                    assert(req1.subrange(r0.len() as int, r0.len() + q) =~= r1.subrange(r0.len() as int, r1.len() as int));
                    assert(ops1.subrange(o0.len() as int, o0.len() + q) =~= o1.subrange(o0.len() as int, o1.len() as int));
                    assert(req1.subrange(0, r0.len() as int) =~= r0);
                    assert(ops1.subrange(0, o0.len() as int) =~= o0);
                    assert(req1.subrange(r0.len() + q, req1.len() as int) =~= dis);
                    assert(ops1.subrange(o0.len() + q + 1, ops1.len() as int) =~= ops1.subrange(o1.len() as int + 1, ops1.len() as int));
                    assert(transfer_shape(sites, plan, *t, leases@, writes@, r0, req1, o0, ops1,
                        self.bus_state(t.controller, t.port), Err::<TransferReply, ResponseCode>(e), q, 0));
                }
            } else {
                proof {
                    assert(transfer_shape(sites, plan, *t, leases@, writes@, r0, r1, o0, o1,
                        self.bus_state(t.controller, t.port), Err::<TransferReply, ResponseCode>(e), q, 0));
                }
            }
            return Err(e);
        }
        let ghost s1 = *self;
        let ghost o1 = hw.ops();
        let ghost r1 = self.requests();
        let ghost q = r1.len() - r0.len();
        assert(o1.len() == o0.len() + q) by {
            assert(steps_match(o1.subrange(o0.len() as int, o1.len() as int), sites, r1.subrange(r0.len() as int, r1.len() as int)));
        }
        assert(r1.subrange(r0.len() as int, r0.len() + q) =~= r1.subrange(r0.len() as int, r1.len() as int));
        assert(o1.subrange(o0.len() as int, o0.len() + q) =~= o1.subrange(o0.len() as int, o1.len() as int)) by {
            assert(o1.len() == o0.len() + q);
        }
        let npairs = writes.len();
        let mut reads: Vec<Vec<u8>> = Vec::new();
        let mut total: usize = 0;
        let mut k: usize = 0;
        while k < npairs
            invariant
                *self == s1,
                self.wf(),
                s0 == *old(self),
                o0 == old(hw).ops(),
                r0 == s0.requests(),
                sites == s0.mux_sites(),
                plan == mux_plan(sites, t.controller, t.port, s0.bus_state(t.controller, t.port), t.mux),
                dis == disable_all(sites, t.controller, t.port),
                forall|j: int| 0 <= j < dis.len() ==> step_error(sites, #[trigger] dis[j]) is None
                    && dis[j].controller == t.controller && dis[j].port == t.port,
                s1.same_except_bus(&s0, t.controller, t.port),
                s1.bus_state(t.controller, t.port) == mux_next(t.mux),
                r1 == s1.requests(),
                r1.len() == r0.len() + q,
                q >= 0,
                o1.len() == o0.len() + q,
                r1.subrange(0, r0.len() as int) == r0,
                o1.subrange(0, o0.len() as int) == o0,
                steps_ran(sites, plan, r1.subrange(r0.len() as int, r1.len() as int), o1.subrange(o0.len() as int, o1.len() as int)),
                steps_result(sites, plan, r1.subrange(r0.len() as int, r1.len() as int), o1.subrange(o0.len() as int, o1.len() as int)) == Ok::<(), ResponseCode>(()),
                npairs == writes@.len(),
                leases@.len() == 2 * npairs,
                leases@.len() * MAX_LEASE_LEN <= usize::MAX,
                leases_check(leases@) == Ok::<(), ResponseCode>(()),
                forall|j: int| 0 <= j < writes@.len() ==> (#[trigger] writes@[j])@.len() == leases@[2 * j].len,
                k <= npairs,
                hw.ops().len() == o1.len() + k,
                hw.ops().subrange(0, o1.len() as int) == o1,
                forall|j: int| 0 <= j < k ==> pair_op(#[trigger] hw.ops()[o1.len() + j], *t, leases@, writes@, j),
                forall|j: int| 0 <= j < k ==> (#[trigger] hw.ops()[o1.len() + j]).result is Ok,
                reads@.len() == k,
                forall|j: int| 0 <= j < k ==> (#[trigger] reads@[j])@ == pair_read(hw.ops()[o1.len() + j], leases@[2 * j + 1].len),
                total == total_len(reads@),
                total <= k * MAX_LEASE_LEN,
            decreases npairs - k,
        {
            proof {
                lemma_lease_bounded(leases@, 0, 2 * k as int + 1);
            }
            let ghost before = hw.ops();
            let rlen = leases[2 * k + 1].len;
            let mut rbuf: Vec<u8> = vec![0u8; rlen];
            let res = if t.block && k + 1 == npairs {
                hw.write_read_block(t.controller, t.address, writes[k].as_slice(), rbuf.as_mut_slice())
            } else {
                hw.write_read(t.controller, t.address, writes[k].as_slice(), rbuf.as_mut_slice())
            };
            proof {
                assert(hw.ops()[o1.len() + k] == hw.ops().last());
                assert forall|j: int| 0 <= j < k implies #[trigger] hw.ops()[o1.len() + j] == before[o1.len() + j] by {}
                assert(hw.ops().subrange(0, o1.len() as int) =~= o1) by {
                    assert(hw.ops().drop_last() == before);
                    assert forall|j: int| 0 <= j < o1.len() implies hw.ops()[j] == before[j] by {
                        assert(before.subrange(0, o1.len() as int)[j] == before[j]);
                    }
                }
            }
            match res {
                Ok(n) => {
                    let cnt = if n < rlen {
                        n
                    } else {
                        rlen
                    };
                    rbuf.truncate(cnt);
                    let ghost prev = reads@;
                    total = total + cnt;
                    reads.push(rbuf);
                    assert(reads@.drop_last() =~= prev);
                },
                Err(e) => {
                    let ghost s2 = *self;
                    let ghost o2 = hw.ops();
                    let ghost q = r1.len() - r0.len();
                    if needs_reset(e) {
                        self.recover_bus(hw, t.controller, t.port);
                        proof {
                            I2cServer::lemma_same_except_bus_trans(&*self, &s2, &s0, t.controller, t.port);
                        }
                    }
                    proof {
                        let req1 = self.requests();
                        let ops1 = hw.ops();
                        assert(ops1.subrange(0, o2.len() as int) == o2);
                        assert forall|j: int| 0 <= j < o2.len() implies ops1[j] == o2[j] by {
                            assert(ops1.subrange(0, o2.len() as int)[j] == ops1[j]);
                        }
                        assert(req1.subrange(r0.len() as int, r0.len() + q) =~= r1.subrange(r0.len() as int, r1.len() as int));
                        assert(ops1.subrange(o0.len() as int, o0.len() + q) =~= o1.subrange(o0.len() as int, o1.len() as int));
                        assert(req1.subrange(0, r0.len() as int) =~= r0);
                        assert(ops1.subrange(0, o0.len() as int) =~= o0);
                        if is_bus_fault(e) {
                            assert(req1.subrange(r0.len() + q, req1.len() as int) =~= dis);
                            assert(ops1.subrange(o1.len() + k as int + 1 + 1, ops1.len() as int) =~= ops1.subrange(
                                o2.len() as int + 1,
                                ops1.len() as int,
                            ));
                        }
                        assert(transfer_shape(sites, plan, *t, leases@, writes@, r0, req1, o0, ops1,
                            self.bus_state(t.controller, t.port), Err::<TransferReply, ResponseCode>(e), q, k + 1));
                    }
                    return Err(e);
                },
            }
            k = k + 1;
        }
        let reply = TransferReply { total, reads };
        proof {
            let ops1 = hw.ops();
            assert(ops1.subrange(o0.len() as int, o0.len() + q) =~= o1.subrange(o0.len() as int, o1.len() as int));
            assert(ops1.subrange(0, o0.len() as int) =~= o0);
            assert(transfer_shape(sites, plan, *t, leases@, writes@, r0, r1, o0, ops1,
                self.bus_state(t.controller, t.port), Ok::<TransferReply, ResponseCode>(reply), q, npairs as int));
        }
        Ok(reply)
    }
}

} // verus!
