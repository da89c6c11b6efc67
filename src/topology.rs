//! The server's view of each bus: which port a controller routes, which
//! multiplexer segment is believed selected, and the recovery that follows
//! a bus fault.
//!
//! Multiplexers are external state that no memory shows. The cache below is
//! the only record of it, so it claims a segment only after the server
//! itself selected it, and it forgets everything (`Unknown`) after any
//! ambiguous failure.

use vstd::prelude::*;
use crate::hardware::{is_reset, is_transfer, BusOp, I2cHardware};
use crate::mux::{pca9548_register, GpioPin, I2cMuxConfig, I2cMuxDriver, Pca9548};
use crate::types::{Controller, Mux, PortIndex, ResponseCode, Segment, NUM_CONTROLLERS};

verus! {

/// What the server believes a bus's multiplexers are set to, where one is
/// set at all.
#[derive(Copy, Clone, Debug, PartialEq, Eq, Structural)]
pub enum MuxState {
    /// This segment of this mux was the last one the server selected.
    Enabled(Mux, Segment),
    /// A failure left the multiplexers in a state that cannot be trusted.
    Unknown,
}

/// One programming step on a multiplexer: connect `segment` of `mux`, or
/// disconnect all of its segments where `segment` is `None`.
#[derive(Copy, Clone, Debug, PartialEq, Eq, Structural)]
pub struct MuxRequest {
    pub controller: Controller,
    pub port: PortIndex,
    pub mux: Mux,
    pub segment: Option<Segment>,
}

/// The chip behind a multiplexer.
#[derive(Copy, Clone, Debug, PartialEq, Eq, Structural)]
pub enum MuxKind {
    Pca9548,
}

/// A multiplexer of the board: the port of its bus, its identifier there,
/// its chip and where it is wired.
pub struct I2cMux<G> {
    pub port: PortIndex,
    pub id: Mux,
    pub kind: MuxKind,
    pub config: I2cMuxConfig<G>,
}

/// A pin pair that can be routed to a controller.
#[derive(Copy, Clone, Debug, PartialEq, Eq, Structural)]
pub struct I2cPins {
    pub controller: Controller,
    pub port: PortIndex,
}

/// A change of the port routed to a controller: the pins of `from` go back
/// to idle, those of `to` take the bus function.
#[derive(Copy, Clone, Debug, PartialEq, Eq, Structural)]
pub struct PortSwitch {
    pub controller: Controller,
    pub from: PortIndex,
    pub to: PortIndex,
}

/// Where a multiplexer sits: controller, port, identifier and bus address.
pub type MuxSite = (Controller, PortIndex, Mux, u8);

/// Number of buses: every port of every controller.
pub const NUM_BUSES: usize = 2048;

/// The slot of a bus in the cache.
pub open spec fn bus_index(c: Controller, p: PortIndex) -> int {
    c.spec_id() as int * 256 + p.0 as int
}

/// The requests that disconnect every multiplexer on a bus, in board order.
pub open spec fn disable_all(sites: Seq<MuxSite>, c: Controller, p: PortIndex) -> Seq<MuxRequest>
    decreases sites.len(),
{
    if sites.len() == 0 {
        seq![]
    } else {
        let rest = disable_all(sites.drop_last(), c, p);
        let s = sites.last();
        if s.0 == c && s.1 == p {
            rest.push(MuxRequest { controller: c, port: p, mux: s.2, segment: None })
        } else {
            rest
        }
    }
}

/// The request that connects the requested segment, if any.
pub open spec fn enable_step(c: Controller, p: PortIndex, req: Option<(Mux, Segment)>) -> Seq<MuxRequest> {
    match req {
        Some((id, seg)) => seq![MuxRequest { controller: c, port: p, mux: id, segment: Some(seg) }],
        None => seq![],
    }
}

/// The multiplexer programming that a request for `req` on a bus in state
/// `state` takes:
/// - the same segment of the same mux again: nothing;
/// - another segment of the same mux: select it;
/// - another mux: disconnect the current one, then select;
/// - no mux, after one was selected: disconnect every mux on the bus;
/// - after a failure: disconnect every mux on the bus, then select.
pub open spec fn mux_plan(
    sites: Seq<MuxSite>,
    c: Controller,
    p: PortIndex,
    state: Option<MuxState>,
    req: Option<(Mux, Segment)>,
) -> Seq<MuxRequest> {
    match state {
        None => enable_step(c, p, req),
        Some(MuxState::Unknown) => disable_all(sites, c, p) + enable_step(c, p, req),
        Some(MuxState::Enabled(cur, cur_seg)) => match req {
            Some((id, seg)) => if id == cur {
                if seg == cur_seg {
                    seq![]
                } else {
                    enable_step(c, p, req)
                }
            } else {
                seq![MuxRequest { controller: c, port: p, mux: cur, segment: None }] + enable_step(
                    c,
                    p,
                    req,
                )
            },
            None => disable_all(sites, c, p),
        },
    }
}

/// The state of a bus after a request for `req` succeeded.
pub open spec fn mux_next(req: Option<(Mux, Segment)>) -> Option<MuxState> {
    match req {
        Some((id, seg)) => Some(MuxState::Enabled(id, seg)),
        None => None,
    }
}

/// Whether `a` is a prefix of `b`.
pub open spec fn is_prefix<T>(a: Seq<T>, b: Seq<T>) -> bool {
    a.len() <= b.len() && a == b.subrange(0, a.len() as int)
}

/// Whether site `s` is mux `m` on bus (`c`, `p`).
pub open spec fn site_matches(s: MuxSite, c: Controller, p: PortIndex, m: Mux) -> bool {
    s.0 == c && s.1 == p && s.2 == m
}

/// Whether the board has mux `m` on bus (`c`, `p`).
pub open spec fn has_site(sites: Seq<MuxSite>, c: Controller, p: PortIndex, m: Mux) -> bool {
    exists|i: int| 0 <= i < sites.len() && site_matches(sites[i], c, p, m)
}

/// Whether `i` is the first site that is mux `m` on bus (`c`, `p`).
pub open spec fn is_first_site(sites: Seq<MuxSite>, c: Controller, p: PortIndex, m: Mux, i: int) -> bool {
    &&& 0 <= i < sites.len()
    &&& site_matches(sites[i], c, p, m)
    &&& forall|j: int| 0 <= j < i ==> !site_matches(#[trigger] sites[j], c, p, m)
}

/// The first site that is mux `m` on bus (`c`, `p`): the one a step on
/// that mux drives.
pub open spec fn first_site(sites: Seq<MuxSite>, c: Controller, p: PortIndex, m: Mux) -> int {
    choose|i: int| is_first_site(sites, c, p, m, i)
}

/// Why a programming step cannot be issued, if it cannot: the bus has no
/// such mux, or the chip has no channel for the segment.
pub open spec fn step_error(sites: Seq<MuxSite>, q: MuxRequest) -> Option<ResponseCode> {
    if !has_site(sites, q.controller, q.port, q.mux) {
        Some(ResponseCode::MuxNotFound)
    } else if pca9548_register(q.segment) is None {
        Some(ResponseCode::SegmentNotFound)
    } else {
        None
    }
}

/// Whether bus operation `op` is the write that step `q` makes: the
/// control register byte, to the address of the step's mux.
pub open spec fn step_matches(op: BusOp, sites: Seq<MuxSite>, q: MuxRequest) -> bool {
    is_transfer(
        op,
        q.controller,
        sites[first_site(sites, q.controller, q.port, q.mux)].3,
        seq![pca9548_register(q.segment)->Some_0],
        0,
        false,
    )
}

/// Whether `ops` are the writes of the steps `qs`, one each, in order.
pub open spec fn steps_match(ops: Seq<BusOp>, sites: Seq<MuxSite>, qs: Seq<MuxRequest>) -> bool {
    &&& ops.len() == qs.len()
    &&& forall|i: int| 0 <= i < qs.len() ==> step_matches(#[trigger] ops[i], sites, qs[i])
}

/// What running the steps of `plan` in order returns, given the steps
/// `issued` and their bus operations `ops`: the failure of the last write,
/// else the reason the next step could not be issued, else success.
pub open spec fn steps_result(
    sites: Seq<MuxSite>,
    plan: Seq<MuxRequest>,
    issued: Seq<MuxRequest>,
    ops: Seq<BusOp>,
) -> Result<(), ResponseCode> {
    if issued.len() > 0 && ops.last().result is Err {
        Err(mux_fault_spec(ops.last().result->Err_0))
    } else if issued.len() < plan.len() {
        Err(step_error(sites, plan[issued.len() as int])->Some_0)
    } else {
        Ok(())
    }
}

/// Whether `issued` and `ops` are what running `plan` step by step,
/// stopping at the first failure, produces: a prefix of the plan, each
/// step issuable and written, every write but the last successful, and
/// stopping early only for a failed write or a step that cannot be issued.
pub open spec fn steps_ran(
    sites: Seq<MuxSite>,
    plan: Seq<MuxRequest>,
    issued: Seq<MuxRequest>,
    ops: Seq<BusOp>,
) -> bool {
    &&& is_prefix(issued, plan)
    &&& steps_match(ops, sites, issued)
    &&& forall|i: int| 0 <= i < issued.len() ==> step_error(sites, #[trigger] plan[i]) is None
    &&& forall|i: int| 0 <= i < issued.len() - 1 ==> (#[trigger] ops[i]).result is Ok
    &&& (issued.len() < plan.len() ==> (issued.len() > 0 && ops.last().result is Err) || step_error(
        sites,
        plan[issued.len() as int],
    ) is Some)
}

/// Only the first matching site is first.
proof fn lemma_first_site_unique(sites: Seq<MuxSite>, c: Controller, p: PortIndex, m: Mux, i: int)
    requires
        is_first_site(sites, c, p, m, i),
    ensures
        first_site(sites, c, p, m) == i,
{
    let k = first_site(sites, c, p, m);
    assert(is_first_site(sites, c, p, m, k));
    if k < i {
        assert(!site_matches(sites[k], c, p, m));
    } else if k > i {
        assert(!site_matches(sites[i], c, p, m));
    }
}

/// Every step of `disable_all` is on the bus and can be issued.
pub proof fn lemma_disable_all_issuable(sites: Seq<MuxSite>, c: Controller, p: PortIndex)
    ensures
        forall|j: int| 0 <= j < disable_all(sites, c, p).len() ==> step_error(sites, #[trigger] disable_all(sites, c, p)[j])
            is None && disable_all(sites, c, p)[j].controller == c && disable_all(sites, c, p)[j].port == p,
    decreases sites.len(),
{
    if sites.len() > 0 {
        let rest = sites.drop_last();
        lemma_disable_all_issuable(rest, c, p);
        let d = disable_all(sites, c, p);
        let dr = disable_all(rest, c, p);
        assert forall|j: int| 0 <= j < d.len() implies step_error(sites, #[trigger] d[j]) is None && d[j].controller
            == c && d[j].port == p by {
            if j < dr.len() {
                assert(d[j] == dr[j]);
                assert(step_error(rest, dr[j]) is None);
                let w = choose|i: int| 0 <= i < rest.len() && site_matches(rest[i], dr[j].controller, dr[j].port, dr[j].mux);
                assert(sites[w] == rest[w]);
            } else {
                assert(site_matches(sites[sites.len() - 1], c, p, d[j].mux));
            }
        }
    }
}

/// Every step of a plan is on the requested bus.
proof fn lemma_plan_on_bus(
    sites: Seq<MuxSite>,
    c: Controller,
    p: PortIndex,
    state: Option<MuxState>,
    req: Option<(Mux, Segment)>,
)
    ensures
        forall|i: int| 0 <= i < mux_plan(sites, c, p, state, req).len() ==> (#[trigger] mux_plan(sites, c, p, state, req)[i]).controller == c
            && mux_plan(sites, c, p, state, req)[i].port == p,
{
    lemma_disable_all_issuable(sites, c, p);
    let plan = mux_plan(sites, c, p, state, req);
    let d = disable_all(sites, c, p);
    let e = enable_step(c, p, req);
    assert forall|i: int| 0 <= i < plan.len() implies (#[trigger] plan[i]).controller == c && plan[i].port == p by {
        match state {
            Some(MuxState::Unknown) => {
                if i < d.len() {
                    assert(plan[i] == d[i]);
                } else {
                    assert(plan[i] == e[i - d.len()]);
                }
            },
            _ => {},
        }
    }
}

/// What a mux step returns for the outcome of its write.
pub open spec fn write_outcome(res: Result<usize, ResponseCode>) -> Result<(), ResponseCode> {
    match res {
        Ok(_) => Ok(()),
        Err(e) => Err(mux_fault_spec(e)),
    }
}

/// `mux_next`, computed.
pub fn mux_next_exec(req: Option<(Mux, Segment)>) -> (r: Option<MuxState>)
    ensures
        r == mux_next(req),
{
    match req {
        Some((id, seg)) => Some(MuxState::Enabled(id, seg)),
        None => None,
    }
}

/// A plan with no step issues no write and succeeds: this is the case of a
/// request that the cache already shows.
pub proof fn lemma_empty_plan(sites: Seq<MuxSite>, issued: Seq<MuxRequest>, ops: Seq<BusOp>)
    requires
        steps_ran(sites, Seq::<MuxRequest>::empty(), issued, ops),
    ensures
        issued.len() == 0,
        ops.len() == 0,
        steps_result(sites, Seq::<MuxRequest>::empty(), issued, ops) == Ok::<(), ResponseCode>(()),
{
}

/// A plan whose first step cannot be issued (no such mux on the bus, or no
/// channel for the segment) writes nothing and fails with that reason.
pub proof fn lemma_blocked_first_step(
    sites: Seq<MuxSite>,
    plan: Seq<MuxRequest>,
    issued: Seq<MuxRequest>,
    ops: Seq<BusOp>,
)
    requires
        steps_ran(sites, plan, issued, ops),
        plan.len() > 0,
        step_error(sites, plan[0]) is Some,
    ensures
        issued.len() == 0,
        ops.len() == 0,
        steps_result(sites, plan, issued, ops) == Err::<(), ResponseCode>(step_error(sites, plan[0])->Some_0),
{
}

/// Where every step can be issued and every write succeeds, the whole plan
/// runs: one write per step, in order, each the register byte of its step
/// to the address of its mux, and the result is success.
pub proof fn lemma_plan_runs_through(
    sites: Seq<MuxSite>,
    plan: Seq<MuxRequest>,
    issued: Seq<MuxRequest>,
    ops: Seq<BusOp>,
)
    requires
        steps_ran(sites, plan, issued, ops),
        forall|i: int| 0 <= i < plan.len() ==> step_error(sites, #[trigger] plan[i]) is None,
        forall|i: int| 0 <= i < ops.len() ==> (#[trigger] ops[i]).result is Ok,
    ensures
        issued == plan,
        steps_match(ops, sites, plan),
        steps_result(sites, plan, issued, ops) == Ok::<(), ResponseCode>(()),
{
    if issued.len() > 0 {
        assert(ops.last() == ops[ops.len() - 1]);
    }
    if issued.len() < plan.len() {
        assert(step_error(sites, plan[issued.len() as int]) is None);
    }
    assert(issued =~= plan);
}

/// The faults after which the bus is reset and its multiplexers forgotten.
pub open spec fn is_bus_fault(code: ResponseCode) -> bool {
    code == ResponseCode::BusLocked || code == ResponseCode::BusLockedMux || code
        == ResponseCode::BusReset || code == ResponseCode::BusResetMux || code
        == ResponseCode::BusError || code == ResponseCode::ControllerBusy
}

/// Whether a failure with `code` calls for bus recovery.
pub fn needs_reset(code: ResponseCode) -> (r: bool)
    ensures
        r == is_bus_fault(code),
{
    match code {
        ResponseCode::BusLocked | ResponseCode::BusLockedMux | ResponseCode::BusReset
        | ResponseCode::BusResetMux | ResponseCode::BusError | ResponseCode::ControllerBusy => true,
        _ => false,
    }
}

/// The code of a fault met while programming a multiplexer: bus resets and
/// lockups get their in-band management variants.
pub open spec fn mux_fault_spec(code: ResponseCode) -> ResponseCode {
    match code {
        ResponseCode::BusLocked => ResponseCode::BusLockedMux,
        ResponseCode::BusReset => ResponseCode::BusResetMux,
        _ => code,
    }
}

pub fn mux_fault(code: ResponseCode) -> (r: ResponseCode)
    ensures
        r == mux_fault_spec(code),
{
    match code {
        ResponseCode::BusLocked => ResponseCode::BusLockedMux,
        ResponseCode::BusReset => ResponseCode::BusResetMux,
        _ => code,
    }
}

/// Selecting the same segment of the same mux twice in a row programs the
/// multiplexers once. After a selection succeeds the cache holds it, and the
/// plan for the same request from there is empty; from a bus where no mux
/// was selected, the first request's plan is the single step that connects
/// the segment.
pub proof fn lemma_repeated_selection(
    sites: Seq<MuxSite>,
    c: Controller,
    p: PortIndex,
    state: Option<MuxState>,
    m: Mux,
    s: Segment,
)
    ensures
        mux_plan(sites, c, p, mux_next(Some((m, s))), Some((m, s))) == Seq::<MuxRequest>::empty(),
        state == None::<MuxState> ==> mux_plan(sites, c, p, state, Some((m, s))) + mux_plan(
            sites,
            c,
            p,
            mux_next(Some((m, s))),
            Some((m, s)),
        ) == seq![MuxRequest { controller: c, port: p, mux: m, segment: Some(s) }],
{
    assert(mux_plan(sites, c, p, mux_next(Some((m, s))), Some((m, s))) =~= Seq::<MuxRequest>::empty());
    if state == None::<MuxState> {
        assert(mux_plan(sites, c, p, state, Some((m, s))) + Seq::<MuxRequest>::empty() =~= seq![
            MuxRequest { controller: c, port: p, mux: m, segment: Some(s) },
        ]);
    }
}

/// After a bus fault the cache holds `Unknown`, which matches no request:
/// the next request, even for the segment that was selected before the
/// fault, disconnects every mux on the bus and then connects its segment
/// anew.
pub proof fn lemma_fault_reprograms(sites: Seq<MuxSite>, c: Controller, p: PortIndex, m: Mux, s: Segment)
    ensures
        mux_plan(sites, c, p, Some(MuxState::Unknown), Some((m, s))) == disable_all(sites, c, p).push(
            MuxRequest { controller: c, port: p, mux: m, segment: Some(s) },
        ),
        mux_plan(sites, c, p, Some(MuxState::Unknown), Some((m, s))).last() == (MuxRequest {
            controller: c,
            port: p,
            mux: m,
            segment: Some(s),
        }),
{
    assert(mux_plan(sites, c, p, Some(MuxState::Unknown), Some((m, s))) =~= disable_all(sites, c, p).push(
        MuxRequest { controller: c, port: p, mux: m, segment: Some(s) },
    ));
}

/// The server's topology and caches.
///
/// The caches are tables indexed directly: the routed port of each
/// controller, and the multiplexer state of each (controller, port) bus at
/// slot `controller * 256 + port`. They stand in for a fixed-capacity map:
/// the one that Hubris offers (`fixedmap`) is not a published crate.
pub struct I2cServer<G> {
    controllers: Vec<Controller>,
    pins: Vec<I2cPins>,
    muxes: Vec<I2cMux<G>>,
    portmap: Vec<Option<PortIndex>>,
    muxmap: Vec<Option<MuxState>>,
    mux_requests: Ghost<Seq<MuxRequest>>,
}

impl<G: GpioPin> I2cServer<G> {
    /// The caches have their sizes.
    pub closed spec fn wf(&self) -> bool {
        &&& self.muxmap@.len() == NUM_BUSES
        &&& self.portmap@.len() == NUM_CONTROLLERS as int
    }

    /// Every multiplexer programming step the server has issued, in order.
    pub closed spec fn requests(&self) -> Seq<MuxRequest> {
        self.mux_requests@
    }

    /// The cache entry of a bus: `None` where no multiplexer is selected.
    pub closed spec fn bus_state(&self, c: Controller, p: PortIndex) -> Option<MuxState> {
        self.muxmap@[bus_index(c, p)]
    }

    /// The port routed to a controller; port 0 until another is.
    pub closed spec fn routed_port(&self, c: Controller) -> PortIndex {
        match self.portmap@[c.spec_id() as int] {
            Some(p) => p,
            None => PortIndex(0),
        }
    }

    /// The controllers of the board.
    pub closed spec fn controller_list(&self) -> Seq<Controller> {
        self.controllers@
    }

    /// Whether a (controller, port) pair has pins.
    pub closed spec fn has_port(&self, c: Controller, p: PortIndex) -> bool {
        exists|i: int| 0 <= i < self.pins@.len() && self.pins@[i] == (I2cPins { controller: c, port: p })
    }

    /// The multiplexers of the board, in order.
    pub closed spec fn mux_sites(&self) -> Seq<MuxSite> {
        self.muxes@.map_values(|m: I2cMux<G>| (m.config.controller, m.port, m.id, m.config.address))
    }

    /// The board's fixed parts and the other buses' entries are those of `other`.
    pub open spec fn same_except_bus(&self, other: &Self, c: Controller, p: PortIndex) -> bool {
        &&& self.controller_list() == other.controller_list()
        &&& self.mux_sites() == other.mux_sites()
        &&& (forall|c2: Controller, p2: PortIndex| #![auto] (c2, p2) != (c, p) ==> self.bus_state(c2, p2) == other.bus_state(c2, p2))
        &&& (forall|c2: Controller| #![auto] self.routed_port(c2) == other.routed_port(c2))
        &&& (forall|c2: Controller, p2: PortIndex| #![auto] self.has_port(c2, p2) == other.has_port(c2, p2))
    }

    /// A server for a board with these controllers, pin pairs and
    /// multiplexers; no multiplexer is selected and every controller routes
    /// port 0.
    pub fn new(controllers: Vec<Controller>, pins: Vec<I2cPins>, muxes: Vec<I2cMux<G>>) -> (r: Self)
        ensures
            r.wf(),
            r.controller_list() == controllers@,
            r.mux_sites() == muxes@.map_values(|m: I2cMux<G>| (m.config.controller, m.port, m.id, m.config.address)),
            forall|c: Controller, p: PortIndex| #![auto] r.has_port(c, p) <==> pins@.contains(
                I2cPins { controller: c, port: p },
            ),
            forall|c: Controller, p: PortIndex| #![auto] r.bus_state(c, p) == None::<MuxState>,
            forall|c: Controller| #![auto] r.routed_port(c) == PortIndex(0),
            r.requests() == Seq::<MuxRequest>::empty(),
    {
        let portmap: Vec<Option<PortIndex>> = vec![None; 8];
        let muxmap: Vec<Option<MuxState>> = vec![None; NUM_BUSES];
        let r = I2cServer { controllers, pins, muxes, portmap, muxmap, mux_requests: Ghost(Seq::empty()) };
        assert forall|c: Controller, p: PortIndex| #![auto] r.bus_state(c, p) == None::<MuxState> by {
            assert(0 <= bus_index(c, p) < NUM_BUSES);
        }
        r
    }

    /// The cache entry of a bus.
    pub fn mux_state(&self, c: Controller, p: PortIndex) -> (r: Option<MuxState>)
        requires
            self.wf(),
        ensures
            r == self.bus_state(c, p),
    {
        self.muxmap[Self::bus_slot(c, p)]
    }

    /// The port routed to a controller.
    pub fn current_port(&self, c: Controller) -> (r: PortIndex)
        requires
            self.wf(),
        ensures
            r == self.routed_port(c),
    {
        match self.portmap[c.id() as usize] {
            Some(p) => p,
            None => PortIndex(0),
        }
    }

    /// `Ok` where the board has controller `c`, else `BadController`.
    pub fn lookup_controller(&self, c: Controller) -> (r: Result<(), ResponseCode>)
        ensures
            r is Ok <==> self.controller_list().contains(c),
            r is Err ==> r == Err::<(), ResponseCode>(ResponseCode::BadController),
    {
        let mut i: usize = 0;
        while i < self.controllers.len()
            invariant
                i <= self.controllers@.len(),
                forall|j: int| 0 <= j < i ==> self.controllers@[j] != c,
            decreases self.controllers@.len() - i,
        {
            if self.controllers[i] == c {
                return Ok(());
            }
            i = i + 1;
        }
        Err(ResponseCode::BadController)
    }

    /// `Ok` where the board has pins for port `p` of controller `c`, else
    /// `BadPort`.
    pub fn validate_port(&self, c: Controller, p: PortIndex) -> (r: Result<(), ResponseCode>)
        ensures
            r is Ok <==> self.has_port(c, p),
            r is Err ==> r == Err::<(), ResponseCode>(ResponseCode::BadPort),
    {
        let mut i: usize = 0;
        while i < self.pins.len()
            invariant
                i <= self.pins@.len(),
                forall|j: int| 0 <= j < i ==> self.pins@[j] != (I2cPins { controller: c, port: p }),
            decreases self.pins@.len() - i,
        {
            let pin = self.pins[i];
            if pin.controller == c && pin.port == p {
                return Ok(());
            }
            i = i + 1;
        }
        Err(ResponseCode::BadPort)
    }

    /// Records port `p` as routed to controller `c`, once the caller has
    /// switched the pins; returns the pin change that this records, `None`
    /// where `p` was routed already.
    pub fn route_port(&mut self, c: Controller, p: PortIndex) -> (r: Option<PortSwitch>)
        requires
            old(self).wf(),
        ensures
            final(self).wf(),
            old(self).routed_port(c) == p ==> r == None::<PortSwitch> && *final(self) == *old(self),
            old(self).routed_port(c) != p ==> r == Some(
                PortSwitch { controller: c, from: old(self).routed_port(c), to: p },
            ),
            final(self).routed_port(c) == p,
            forall|c2: Controller| #![auto] c2 != c ==> final(self).routed_port(c2) == old(self).routed_port(c2),
            forall|c2: Controller, p2: PortIndex| #![auto] final(self).bus_state(c2, p2) == old(self).bus_state(c2, p2),
            forall|c2: Controller, p2: PortIndex| #![auto] final(self).has_port(c2, p2) == old(self).has_port(c2, p2),
            final(self).controller_list() == old(self).controller_list(),
            final(self).mux_sites() == old(self).mux_sites(),
            final(self).requests() == old(self).requests(),
    {
        let idx = c.id() as usize;
        let current = match self.portmap[idx] {
            Some(q) => q,
            None => PortIndex(0),
        };
        if current == p {
            return None;
        }
        self.portmap.set(idx, Some(p));
        proof {
            assert forall|c2: Controller| #![auto] c2 != c implies self.routed_port(c2) == old(self).routed_port(c2) by {
                assert(c2.spec_id() != c.spec_id());
            }
        }
        Some(PortSwitch { controller: c, from: current, to: p })
    }

    fn set_bus(&mut self, c: Controller, p: PortIndex, st: Option<MuxState>)
        requires
            old(self).wf(),
        ensures
            final(self).wf(),
            final(self).same_except_bus(old(self), c, p),
            final(self).bus_state(c, p) == st,
            final(self).requests() == old(self).requests(),
            final(self).muxes == old(self).muxes,
    {
        let slot = Self::bus_slot(c, p);
        self.muxmap.set(slot, st);
        proof {
            assert forall|c2: Controller, p2: PortIndex| #![auto] (c2, p2) != (c, p) implies self.bus_state(c2, p2)
                == old(self).bus_state(c2, p2) by {
                assert(bus_index(c2, p2) != bus_index(c, p));
            }
        }
    }

    /// Runs the driver of multiplexer `i` to connect `segment`.
    fn drive_mux<H: I2cHardware>(&self, hw: &mut H, i: usize, segment: Option<Segment>) -> (r: Result<(), ResponseCode>)
        requires
            i < self.muxes@.len(),
            pca9548_register(segment) is Some,
        ensures
            final(hw).ops().len() == old(hw).ops().len() + 1,
            final(hw).ops().drop_last() == old(hw).ops(),
            is_transfer(
                final(hw).ops().last(),
                self.muxes@[i as int].config.controller,
                self.muxes@[i as int].config.address,
                seq![pca9548_register(segment)->Some_0],
                0,
                false,
            ),
            r == write_outcome(final(hw).ops().last().result),
    {
        let m = &self.muxes[i];
        let res = match m.kind {
            MuxKind::Pca9548 => Pca9548.enable_segment(hw, &m.config, segment),
        };
        match res {
            Ok(()) => Ok(()),
            Err(e) => Err(mux_fault(e)),
        }
    }

    /// Issues one programming step: finds the first mux `q.mux` on the bus
    /// and writes the register that connects `q.segment`. A step that cannot
    /// be issued (see `step_error`) fails without touching the hardware;
    /// an issued step is logged.
    fn program_mux<H: I2cHardware>(&mut self, hw: &mut H, q: MuxRequest) -> (r: Result<(), ResponseCode>)
        requires
            old(self).wf(),
        ensures
            final(self).wf(),
            final(self).same_except_bus(old(self), q.controller, q.port),
            forall|c2: Controller, p2: PortIndex| #![auto] final(self).bus_state(c2, p2) == old(self).bus_state(c2, p2),
            final(self).muxes == old(self).muxes,
            match step_error(old(self).mux_sites(), q) {
                Some(e) => r == Err::<(), ResponseCode>(e) && final(hw).ops() == old(hw).ops()
                    && final(self).requests() == old(self).requests(),
                None => final(self).requests() == old(self).requests().push(q) && final(hw).ops().len()
                    == old(hw).ops().len() + 1 && final(hw).ops().drop_last() == old(hw).ops()
                    && step_matches(final(hw).ops().last(), old(self).mux_sites(), q) && r == write_outcome(
                    final(hw).ops().last().result,
                ),
            },
    {
        let ghost sites = self.mux_sites();
        let mut i: usize = 0;
        while i < self.muxes.len()
            invariant
                i <= self.muxes@.len(),
                *self == *old(self),
                *hw == *old(hw),
                self.wf(),
                self.muxes == old(self).muxes,
                self.muxmap == old(self).muxmap,
                self.portmap == old(self).portmap,
                self.controllers == old(self).controllers,
                self.pins == old(self).pins,
                self.mux_requests == old(self).mux_requests,
                sites == self.mux_sites(),
                sites.len() == self.muxes@.len(),
                forall|j: int| 0 <= j < i ==> !site_matches(#[trigger] sites[j], q.controller, q.port, q.mux),
            decreases self.muxes@.len() - i,
        {
            let m = &self.muxes[i];
            assert(sites[i as int] == (m.config.controller, m.port, m.id, m.config.address));
            if m.config.controller == q.controller && m.port == q.port && m.id == q.mux {
                proof {
                    assert(is_first_site(sites, q.controller, q.port, q.mux, i as int));
                    lemma_first_site_unique(sites, q.controller, q.port, q.mux, i as int);
                }
                if Pca9548::control_register(q.segment).is_err() {
                    return Err(ResponseCode::SegmentNotFound);
                }
                let r = self.drive_mux(hw, i, q.segment);
                self.mux_requests = Ghost(self.mux_requests@.push(q));
                return r;
            }
            i = i + 1;
        }
        Err(ResponseCode::MuxNotFound)
    }

    /// The steps of `mux_plan`, computed.
    fn plan_steps(&self, c: Controller, p: PortIndex, state: Option<MuxState>, req: Option<(Mux, Segment)>) -> (r: Vec<
        MuxRequest,
    >)
        ensures
            r@ == mux_plan(self.mux_sites(), c, p, state, req),
    {
        let mut v: Vec<MuxRequest> = Vec::new();
        match state {
            Some(MuxState::Enabled(cur, cur_seg)) => match req {
                Some((id, seg)) => {
                    if id == cur {
                        if seg == cur_seg {
                            assert(v@ =~= mux_plan(self.mux_sites(), c, p, state, req));
                            return v;
                        }
                    } else {
                        v.push(MuxRequest { controller: c, port: p, mux: cur, segment: None });
                    }
                },
                None => {
                    let v = self.disable_steps(c, p);
                    return v;
                },
            },
            Some(MuxState::Unknown) => {
                v = self.disable_steps(c, p);
            },
            None => {},
        }
        if let Some((id, seg)) = req {
            v.push(MuxRequest { controller: c, port: p, mux: id, segment: Some(seg) });
        }
        assert(v@ =~= mux_plan(self.mux_sites(), c, p, state, req));
        v
    }

    /// The steps of `disable_all`, computed.
    fn disable_steps(&self, c: Controller, p: PortIndex) -> (r: Vec<MuxRequest>)
        ensures
            r@ == disable_all(self.mux_sites(), c, p),
    {
        let ghost sites = self.mux_sites();
        let mut v: Vec<MuxRequest> = Vec::new();
        let mut i: usize = 0;
        while i < self.muxes.len()
            invariant
                i <= self.muxes@.len(),
                sites == self.mux_sites(),
                sites.len() == self.muxes@.len(),
                v@ == disable_all(sites.subrange(0, i as int), c, p),
            decreases self.muxes@.len() - i,
        {
            assert(sites.subrange(0, i + 1).drop_last() =~= sites.subrange(0, i as int));
            let m = &self.muxes[i];
            assert(sites[i as int] == (m.config.controller, m.port, m.id, m.config.address));
            if m.config.controller == c && m.port == p {
                v.push(MuxRequest { controller: c, port: p, mux: m.id, segment: None });
            }
            i = i + 1;
        }
        assert(sites.subrange(0, sites.len() as int) =~= sites);
        v
    }

    /// Runs `steps` in order and stops at the first failure (see
    /// `steps_ran`).
    fn run_steps<H: I2cHardware>(&mut self, hw: &mut H, steps: &Vec<MuxRequest>, c: Controller, p: PortIndex) -> (r: Result<
        (),
        ResponseCode,
    >)
        requires
            old(self).wf(),
            forall|i: int| 0 <= i < steps@.len() ==> (#[trigger] steps@[i]).controller == c && steps@[i].port == p,
        ensures
            final(self).wf(),
            final(self).same_except_bus(old(self), c, p),
            forall|c2: Controller, p2: PortIndex| #![auto] final(self).bus_state(c2, p2) == old(self).bus_state(c2, p2),
            final(self).muxes == old(self).muxes,
            final(self).requests().len() >= old(self).requests().len(),
            final(hw).ops().len() >= old(hw).ops().len(),
            final(self).requests().subrange(0, old(self).requests().len() as int) == old(self).requests(),
            final(hw).ops().subrange(0, old(hw).ops().len() as int) == old(hw).ops(),
            steps_ran(
                old(self).mux_sites(),
                steps@,
                final(self).requests().subrange(old(self).requests().len() as int, final(self).requests().len() as int),
                final(hw).ops().subrange(old(hw).ops().len() as int, final(hw).ops().len() as int),
            ),
            r == steps_result(
                old(self).mux_sites(),
                steps@,
                final(self).requests().subrange(old(self).requests().len() as int, final(self).requests().len() as int),
                final(hw).ops().subrange(old(hw).ops().len() as int, final(hw).ops().len() as int),
            ),
    {
        let ghost sites = self.mux_sites();
        let ghost r0 = self.requests();
        let ghost o0 = hw.ops();
        let mut i: usize = 0;
        while i < steps.len()
            invariant
                i <= steps@.len(),
                self.wf(),
                self.same_except_bus(old(self), c, p),
                forall|c2: Controller, p2: PortIndex| #![auto] self.bus_state(c2, p2) == old(self).bus_state(c2, p2),
                self.muxes == old(self).muxes,
                sites == old(self).mux_sites(),
                r0 == old(self).requests(),
                o0 == old(hw).ops(),
                forall|j: int| 0 <= j < steps@.len() ==> (#[trigger] steps@[j]).controller == c && steps@[j].port == p,
                self.requests() == r0 + steps@.subrange(0, i as int),
                hw.ops().len() == o0.len() + i,
                hw.ops().subrange(0, o0.len() as int) == o0,
                steps_match(hw.ops().subrange(o0.len() as int, hw.ops().len() as int), sites, steps@.subrange(0, i as int)),
                forall|j: int| 0 <= j < i ==> step_error(sites, #[trigger] steps@[j]) is None,
                forall|j: int| o0.len() <= j < hw.ops().len() ==> (#[trigger] hw.ops()[j]).result is Ok,
            decreases steps@.len() - i,
        {
            let ghost before_ops = hw.ops();
            let ghost before_self = *self;
            let q = steps[i];
            let res = self.program_mux(hw, q);
            proof {
                Self::lemma_same_except_bus_trans(&*self, &before_self, old(self), c, p);
                assert(steps@.subrange(0, i + 1) =~= steps@.subrange(0, i as int).push(q));
                if step_error(sites, q) is None {
                    assert(hw.ops().subrange(0, o0.len() as int) =~= o0);
                    assert(hw.ops().subrange(o0.len() as int, hw.ops().len() as int) =~= before_ops.subrange(
                        o0.len() as int,
                        before_ops.len() as int,
                    ).push(hw.ops().last()));
                    assert(self.requests() =~= r0 + steps@.subrange(0, i + 1));
                } else {
                    assert(self.requests() =~= r0 + steps@.subrange(0, i as int));
                }
            }
            if res.is_err() {
                proof {
                    let issued = self.requests().subrange(r0.len() as int, self.requests().len() as int);
                    let ops = hw.ops().subrange(o0.len() as int, hw.ops().len() as int);
                    if step_error(sites, q) is None {
                        assert(issued =~= steps@.subrange(0, i + 1));
                        assert(ops.last() == hw.ops().last());
                    } else {
                        assert(issued =~= steps@.subrange(0, i as int));
                        assert(ops =~= before_ops.subrange(o0.len() as int, before_ops.len() as int));
                        if i > 0 {
                            assert(ops.last() == before_ops[before_ops.len() - 1]);
                        }
                    }
                    assert(self.requests().subrange(0, r0.len() as int) =~= r0);
                }
                return res;
            }
            proof {
                assert(step_error(sites, q) is None);
                assert(hw.ops()[hw.ops().len() - 1].result is Ok);
                assert forall|j: int| o0.len() <= j < hw.ops().len() implies (#[trigger] hw.ops()[j]).result is Ok by {
                    if j < hw.ops().len() - 1 {
                        assert(hw.ops()[j] == before_ops[j]);
                    }
                }
            }
            i = i + 1;
        }
        proof {
            let issued = self.requests().subrange(r0.len() as int, self.requests().len() as int);
            let ops = hw.ops().subrange(o0.len() as int, hw.ops().len() as int);
            assert(issued =~= steps@.subrange(0, steps@.len() as int));
            assert(steps@.subrange(0, steps@.len() as int) =~= steps@);
            assert(self.requests().subrange(0, r0.len() as int) =~= r0);
            if steps@.len() > 0 {
                assert(ops.last() == hw.ops()[hw.ops().len() - 1]);
            }
        }
        Ok(())
    }

    /// Disconnects every multiplexer on the bus, going on past failures.
    fn disable_all_muxes<H: I2cHardware>(&mut self, hw: &mut H, c: Controller, p: PortIndex)
        requires
            old(self).wf(),
        ensures
            final(self).wf(),
            final(self).same_except_bus(old(self), c, p),
            forall|c2: Controller, p2: PortIndex| #![auto] final(self).bus_state(c2, p2) == old(self).bus_state(c2, p2),
            final(self).requests() == old(self).requests() + disable_all(old(self).mux_sites(), c, p),
            final(hw).ops().len() == old(hw).ops().len() + disable_all(old(self).mux_sites(), c, p).len(),
            final(hw).ops().subrange(0, old(hw).ops().len() as int) == old(hw).ops(),
            steps_match(
                final(hw).ops().subrange(old(hw).ops().len() as int, final(hw).ops().len() as int),
                old(self).mux_sites(),
                disable_all(old(self).mux_sites(), c, p),
            ),
    {
        let steps = self.disable_steps(c, p);
        let ghost sites = self.mux_sites();
        let ghost r0 = self.requests();
        let ghost o0 = hw.ops();
        proof {
            lemma_disable_all_issuable(sites, c, p);
        }
        let mut i: usize = 0;
        while i < steps.len()
            invariant
                i <= steps@.len(),
                steps@ == disable_all(sites, c, p),
                forall|j: int| 0 <= j < steps@.len() ==> step_error(sites, #[trigger] steps@[j]) is None
                    && steps@[j].controller == c && steps@[j].port == p,
                self.wf(),
                self.same_except_bus(old(self), c, p),
                forall|c2: Controller, p2: PortIndex| #![auto] self.bus_state(c2, p2) == old(self).bus_state(c2, p2),
                self.muxes == old(self).muxes,
                sites == old(self).mux_sites(),
                r0 == old(self).requests(),
                o0 == old(hw).ops(),
                self.requests() == r0 + steps@.subrange(0, i as int),
                hw.ops().len() == o0.len() + i,
                hw.ops().subrange(0, o0.len() as int) == o0,
                steps_match(hw.ops().subrange(o0.len() as int, hw.ops().len() as int), sites, steps@.subrange(0, i as int)),
            decreases steps@.len() - i,
        {
            let ghost before_ops = hw.ops();
            let ghost before_self = *self;
            let q = steps[i];
            let _ = self.program_mux(hw, q);
            proof {
                Self::lemma_same_except_bus_trans(&*self, &before_self, old(self), c, p);
                assert(steps@.subrange(0, i + 1) =~= steps@.subrange(0, i as int).push(q));
                assert(hw.ops().subrange(0, o0.len() as int) =~= o0);
                assert(hw.ops().subrange(o0.len() as int, hw.ops().len() as int) =~= before_ops.subrange(
                    o0.len() as int,
                    before_ops.len() as int,
                ).push(hw.ops().last()));
                assert(self.requests() =~= r0 + steps@.subrange(0, i + 1));
            }
            i = i + 1;
        }
        assert(steps@.subrange(0, steps@.len() as int) =~= steps@);
    }

    /// Brings the bus's multiplexers to `req`: runs the steps of `mux_plan`
    /// for the cached state in order, stopping at the first failure (see
    /// `steps_ran` and `steps_result`). On success the cache holds `req`;
    /// on any failure it holds `Unknown`. A request that the cache already
    /// shows takes no step and touches no hardware.
    #[verifier::rlimit(60)]
    pub fn configure_mux<H: I2cHardware>(
        &mut self,
        hw: &mut H,
        c: Controller,
        p: PortIndex,
        req: Option<(Mux, Segment)>,
    ) -> (r: Result<(), ResponseCode>)
        requires
            old(self).wf(),
        ensures
            final(self).wf(),
            final(self).same_except_bus(old(self), c, p),
            final(self).requests().len() >= old(self).requests().len(),
            final(hw).ops().len() >= old(hw).ops().len(),
            final(self).requests().subrange(0, old(self).requests().len() as int) == old(self).requests(),
            final(hw).ops().subrange(0, old(hw).ops().len() as int) == old(hw).ops(),
            steps_ran(
                old(self).mux_sites(),
                mux_plan(old(self).mux_sites(), c, p, old(self).bus_state(c, p), req),
                final(self).requests().subrange(old(self).requests().len() as int, final(self).requests().len() as int),
                final(hw).ops().subrange(old(hw).ops().len() as int, final(hw).ops().len() as int),
            ),
            r == steps_result(
                old(self).mux_sites(),
                mux_plan(old(self).mux_sites(), c, p, old(self).bus_state(c, p), req),
                final(self).requests().subrange(old(self).requests().len() as int, final(self).requests().len() as int),
                final(hw).ops().subrange(old(hw).ops().len() as int, final(hw).ops().len() as int),
            ),
            r is Ok ==> final(self).bus_state(c, p) == mux_next(req),
            r is Err ==> final(self).bus_state(c, p) == Some(MuxState::Unknown),
    {
        let slot = Self::bus_slot(c, p);
        let state = self.muxmap[slot];
        let steps = self.plan_steps(c, p, state, req);
        proof {
            lemma_plan_on_bus(self.mux_sites(), c, p, state, req);
        }
        let ghost mid = *self;
        let res = self.run_steps(hw, &steps, c, p);
        match res {
            Ok(()) => self.set_bus(c, p, mux_next_exec(req)),
            Err(_) => self.set_bus(c, p, Some(MuxState::Unknown)),
        }
        proof {
            Self::lemma_same_except_bus_trans(&*self, &mid, old(self), c, p);
        }
        res
    }

    /// Recovery after a bus fault: resets the controller's bus, disconnects
    /// every multiplexer on it, whatever fails, and marks its multiplexer
    /// state `Unknown`.
    pub fn recover_bus<H: I2cHardware>(&mut self, hw: &mut H, c: Controller, p: PortIndex)
        requires
            old(self).wf(),
        ensures
            final(self).wf(),
            final(self).same_except_bus(old(self), c, p),
            final(self).bus_state(c, p) == Some(MuxState::Unknown),
            final(self).requests() == old(self).requests() + disable_all(old(self).mux_sites(), c, p),
            final(hw).ops().len() > old(hw).ops().len(),
            final(hw).ops().subrange(0, old(hw).ops().len() as int) == old(hw).ops(),
            is_reset(final(hw).ops()[old(hw).ops().len() as int], c),
            steps_match(
                final(hw).ops().subrange(old(hw).ops().len() as int + 1, final(hw).ops().len() as int),
                old(self).mux_sites(),
                disable_all(old(self).mux_sites(), c, p),
            ),
    {
        let ghost o0 = hw.ops();
        let _ = hw.reset_bus(c);
        let ghost o1 = hw.ops();
        let ghost mid = *self;
        self.disable_all_muxes(hw, c, p);
        proof {
            assert(o1.len() == o0.len() + 1);
            assert(hw.ops().subrange(0, o1.len() as int) == o1);
            assert(hw.ops().subrange(0, o1.len() as int)[o0.len() as int] == hw.ops()[o0.len() as int]);
            assert(hw.ops()[o0.len() as int] == o1[o0.len() as int]);
            assert(hw.ops().subrange(0, o0.len() as int) =~= o0);
            assert(hw.ops().subrange(o0.len() as int + 1, hw.ops().len() as int) =~= hw.ops().subrange(
                o1.len() as int,
                hw.ops().len() as int,
            ));
        }
        let ghost mid2 = *self;
        self.set_bus(c, p, Some(MuxState::Unknown));
        proof {
            Self::lemma_same_except_bus_trans(&mid2, &mid, old(self), c, p);
            Self::lemma_same_except_bus_trans(&*self, &mid2, old(self), c, p);
        }
    }

    /// `same_except_bus` composes.
    pub(crate) proof fn lemma_same_except_bus_trans(a: &Self, b: &Self, d: &Self, c: Controller, p: PortIndex)
        requires
            a.same_except_bus(b, c, p),
            b.same_except_bus(d, c, p),
        ensures
            a.same_except_bus(d, c, p),
    {
    }

    fn bus_slot(c: Controller, p: PortIndex) -> (r: usize)
        ensures
            r as int == bus_index(c, p),
            r < NUM_BUSES,
    {
        c.id() as usize * 256 + p.0 as usize
    }
}

} // verus!
