//! The dispatcher: it takes a request from its target to its outcome, one
//! decision at a time. It decides; whoever drives it waits, connects, reads,
//! switches, probes and closes as told, and reports what came of it.
//!
//! A dispatch runs `begin`, then `connected` if a session had to be opened,
//! then `complete` with what the operation brought. The answer is ready
//! then; the probe of the session that was handed back, or the closing of
//! its transport, follows it and is reported with `probed`.

use vstd::prelude::*;
use crate::location_router::{control_of, location_of, LocationRouter};
use crate::modbus_manager::{
    is_connection_alive, probe_passes, ConnectOutcome, Modbus, CONNECT_TIMEOUT_MS, PROBE_ADDRESS,
    PROBE_COUNT, PROBE_TIMEOUT_MS,
};
use crate::outcome::{
    classified, classify, reported_liveness, result_of, session_survives, Failure, RawReply,
};
use crate::pool::{
    lemma_waits_within_limit, total, Checkout, HandBack, PoolState, SessionState, WaitPolicy,
};
use crate::registry::{device_of, PoolRegistry};

verus! {

/// The first register of the window that a request by device name reads.
pub const READ_ADDRESS: u16 = 0;

/// The number of registers in the window that a request reads.
pub const READ_COUNT: u16 = 20;

/// The value of a location's register that says that the location is
/// available.
pub const AVAILABLE_VALUE: u16 = 6;

/// The time allowed to the read of a request by device name, in milliseconds.
pub const DEVICE_READ_TIMEOUT_MS: u64 = 1000;

/// The time allowed to the read of a request by location, in milliseconds.
pub const LOCATION_READ_TIMEOUT_MS: u64 = 2000;

/// The time allowed to the switch of a route, in milliseconds.
pub const CONTROL_TIMEOUT_MS: u64 = 1000;

/// What is asked for: the registers of a device by its name, the
/// availability of a location by its code, or the route from one location
/// to another.
#[derive(Clone, Debug, PartialEq, Eq)]
pub enum Request {
    Device(String),
    Location(String),
    Control(String, String),
}

/// What a request came to: the alias of the location or the description of
/// the route, the location code or device name that was asked for, and the
/// values that were read or the reason why none were.
#[derive(Debug, PartialEq, Eq)]
pub struct RequestOutcome {
    pub alias: String,
    pub location_or_name: String,
    pub result: Result<Vec<u16>, Failure>,
}

/// A bounded read: the window and the time allowed.
#[derive(Clone, Copy, PartialEq, Eq, Structural, Debug)]
pub struct ReadPlan {
    pub address: u16,
    pub count: u16,
    pub timeout_ms: u64,
}

/// A bounded switch of two coils: the one to switch off, then the one to
/// switch on, and the time allowed for both.
#[derive(Clone, Copy, PartialEq, Eq, Structural, Debug)]
pub struct SwitchPlan {
    pub off_coil: u16,
    pub on_coil: u16,
    pub timeout_ms: u64,
}

/// One write of one coil: the coil and what it is switched to.
#[derive(Clone, Copy, PartialEq, Eq, Structural, Debug)]
pub struct CoilWrite {
    pub coil: u16,
    pub on: bool,
}

/// What comes next in a switch once its first write is answered.
#[derive(Debug, PartialEq, Eq)]
pub enum SwitchStep {
    /// Make this write; its reply is the reply of the switch.
    Write(CoilWrite),
    /// The switch is over; this is its reply.
    Done(RawReply),
}

/// The bounded protocol operation of a request.
#[derive(Clone, Copy, PartialEq, Eq, Structural, Debug)]
pub enum Operation {
    Read(ReadPlan),
    Switch(SwitchPlan),
}

/// A bounded connect: the endpoint and the time allowed.
#[derive(Debug, PartialEq, Eq)]
pub struct ConnectPlan {
    pub address: String,
    pub unit_id: u8,
    pub timeout_ms: u64,
}

/// The claim of one dispatch on one session of one pool, with the operation
/// to run on it and what the answer will need. It is held from `begin`
/// until `complete` takes it back.
#[derive(Debug, PartialEq, Eq)]
pub struct Lease {
    pool: usize,
    session: u64,
    alias: String,
    location_or_name: String,
    operation: Operation,
}

/// A lease as a value.
pub struct LeaseView {
    pub pool: usize,
    pub session: u64,
    pub alias: Seq<char>,
    pub location_or_name: Seq<char>,
    pub operation: Operation,
}

impl View for Lease {
    type V = LeaseView;

    closed spec fn view(&self) -> LeaseView {
        LeaseView {
            pool: self.pool,
            session: self.session,
            alias: self.alias@,
            location_or_name: self.location_or_name@,
            operation: self.operation,
        }
    }
}

impl Lease {
    /// The place of the pool in the registry.
    pub fn pool(&self) -> (pool: usize)
        ensures
            pool == self@.pool,
    {
        self.pool
    }

    /// The session that is claimed.
    pub fn session(&self) -> (session: u64)
        ensures
            session == self@.session,
    {
        self.session
    }

    /// The operation to run on the session.
    pub fn operation(&self) -> (operation: Operation)
        ensures
            operation == self@.operation,
    {
        self.operation
    }

    /// The alias under which the request will be answered.
    pub fn alias(&self) -> (alias: &str)
        ensures
            alias@ == self@.alias,
    {
        self.alias.as_str()
    }

    /// The code or name under which the request will be answered.
    pub fn location_or_name(&self) -> (name: &str)
        ensures
            name@ == self@.location_or_name,
    {
        self.location_or_name.as_str()
    }
}

/// What `begin` decided.
#[derive(Debug, PartialEq, Eq)]
pub enum Begin {
    /// The request is answered without a session.
    Answer(RequestOutcome),
    /// Every session is taken: wait this long at most, then begin again.
    Wait(u64),
    /// A slot is reserved: connect, then report with `connected`.
    Connect(Lease, ConnectPlan),
    /// A session is leased: run the operation of the lease, then report
    /// with `complete`.
    Operate(Lease),
}

/// What `connected` decided.
#[derive(Debug, PartialEq, Eq)]
pub enum Connected {
    /// The session could not be opened; this is the answer.
    Answer(RequestOutcome),
    /// The session is open and leased: run the operation of the lease, then
    /// report with `complete`.
    Operate(Lease),
}

/// What is to happen to the session after the answer.
#[derive(Clone, Copy, PartialEq, Eq, Structural, Debug)]
pub enum Followup {
    /// Probe this session of this pool, then report with `probed`.
    Probe(usize, u64, ReadPlan),
    /// Close the transport of this session of this pool.
    Close(usize, u64),
}

/// What `complete` decided: the answer, and what follows for the session.
#[derive(Debug, PartialEq, Eq)]
pub struct Completion {
    pub outcome: RequestOutcome,
    pub followup: Followup,
}

/// The code or name that a request is answered under: the device name, the
/// location code, or the destination of the route.
pub open spec fn subject_of(request: Request) -> Seq<char> {
    match request {
        Request::Device(name) => name@,
        Request::Location(code) => code@,
        Request::Control(_, destination) => destination@,
    }
}

/// The number of registers that a read from `address` takes: as many as
/// the window has, and fewer where the registers of a device end sooner.
pub open spec fn count_from(address: u16) -> u16 {
    if address + READ_COUNT <= 0x1_0000 {
        READ_COUNT
    } else {
        (0x1_0000 - address) as u16
    }
}

/// The read of the window that starts at `address`, within `timeout_ms`.
pub open spec fn window_at(address: u16, timeout_ms: u64) -> Operation {
    Operation::Read(ReadPlan { address, count: count_from(address), timeout_ms })
}

/// The read that a request by device name makes, within `timeout_ms`: the
/// window that starts at the first register.
pub open spec fn window(timeout_ms: u64) -> Operation {
    window_at(READ_ADDRESS, timeout_ms)
}

/// Whether the values that a location read brought say that the location
/// is available. The read of a location starts at the location's register,
/// so the first value is the value of that register; the values after it
/// belong to the registers that follow and say nothing of this location.
/// The location is available when its register holds `AVAILABLE_VALUE`,
/// and it is not when the register holds anything else or no value came.
pub open spec fn available(values: Seq<u16>) -> bool {
    values.len() > 0 && values[0] == AVAILABLE_VALUE
}

/// The read of the window that starts at `address`, within `timeout_ms`.
pub fn read_window_at(address: u16, timeout_ms: u64) -> (operation: Operation)
    ensures
        operation == window_at(address, timeout_ms),
{
    let rest: u32 = 0x1_0000 - address as u32;
    let count: u16 = if rest >= READ_COUNT as u32 {
        READ_COUNT
    } else {
        rest as u16
    };
    Operation::Read(ReadPlan { address, count, timeout_ms })
}

/// The read that a request by device name makes, within `timeout_ms`.
pub fn read_window(timeout_ms: u64) -> (operation: Operation)
    ensures
        operation == window(timeout_ms),
{
    read_window_at(READ_ADDRESS, timeout_ms)
}

/// The first write of a switch: the off-coil is switched off.
pub open spec fn first_write(plan: SwitchPlan) -> CoilWrite {
    CoilWrite { coil: plan.off_coil, on: false }
}

/// The second write of a switch: the on-coil is switched on.
pub open spec fn second_write(plan: SwitchPlan) -> CoilWrite {
    CoilWrite { coil: plan.on_coil, on: true }
}

/// What follows the first write of a switch: the second write where the
/// device did as asked, and the end of the switch with the reply of the
/// first write where it did not.
pub open spec fn switch_step(plan: SwitchPlan, first: RawReply) -> SwitchStep {
    if first matches Ok(Ok(Ok(_))) {
        SwitchStep::Write(second_write(plan))
    } else {
        SwitchStep::Done(first)
    }
}

impl SwitchPlan {
    /// The write that a switch begins with.
    pub fn first(&self) -> (write: CoilWrite)
        ensures
            write == first_write(*self),
    {
        CoilWrite { coil: self.off_coil, on: false }
    }

    /// Takes the reply of the first write and says what comes next. The
    /// on-coil is switched on only after the off-coil was switched off; a
    /// first write that failed ends the switch, and its reply is the reply
    /// of the switch.
    pub fn after_first(&self, first: RawReply) -> (step: SwitchStep)
        ensures
            step == switch_step(*self, first),
    {
        match first {
            Ok(Ok(Ok(_))) => SwitchStep::Write(CoilWrite { coil: self.on_coil, on: true }),
            other => SwitchStep::Done(other),
        }
    }
}

/// The time allowed to an operation, in milliseconds.
pub open spec fn timeout_of(operation: Operation) -> u64 {
    match operation {
        Operation::Read(plan) => plan.timeout_ms,
        Operation::Switch(plan) => plan.timeout_ms,
    }
}

/// The longest that a caller waits for a session under `policy`, in
/// milliseconds.
pub open spec fn wait_limit(policy: WaitPolicy) -> u64 {
    match policy {
        WaitPolicy::Wait(limit) => limit,
        WaitPolicy::FailFast => 0,
    }
}

/// The time that the waits, the connect and the operation of one dispatch
/// may take in all, in milliseconds.
pub open spec fn time_limit(policy: WaitPolicy, operation: Operation) -> nat {
    (wait_limit(policy) + CONNECT_TIMEOUT_MS + timeout_of(operation)) as nat
}

/// The waits, the connect and the operation of one dispatch stay within the
/// time limit of the dispatch, where the caller reports at each beginning no
/// less than it has waited so far, waits each time no longer than it is
/// told, and keeps the connect and the operation within the time allowed to
/// them.
pub proof fn lemma_dispatch_within_time_limit(
    policy: WaitPolicy,
    pools: Seq<PoolState>,
    reported: Seq<u64>,
    waits: Seq<nat>,
    connect: nat,
    operate: nat,
    operation: Operation,
)
    requires
        pools.len() == waits.len(),
        reported.len() == waits.len(),
        forall|j: int|
            0 <= j < waits.len() ==> {
                &&& (#[trigger] pools[j]).policy == policy
                &&& reported[j] >= total(waits.take(j))
                &&& pools[j].checkout(reported[j]).0 is Wait
                &&& waits[j] <= pools[j].checkout(reported[j]).0->Wait_0
            },
        connect <= CONNECT_TIMEOUT_MS,
        operate <= timeout_of(operation),
    ensures
        total(waits) + connect + operate <= time_limit(policy, operation),
{
    if waits.len() > 0 {
        assert(pools[0].policy == policy);
        assert(policy is Wait);
        lemma_waits_within_limit(policy->Wait_0, pools, reported, waits);
    }
}

/// What is said of a session that its pool does not hold.
pub open spec fn session_lost_text() -> Seq<char> {
    "the session is not held"@
}

/// The read that a liveness probe makes.
pub open spec fn probe_plan() -> ReadPlan {
    ReadPlan { address: PROBE_ADDRESS, count: PROBE_COUNT, timeout_ms: PROBE_TIMEOUT_MS }
}

impl RequestOutcome {
    /// Whether the location is available: true or false as the values of
    /// its read say, and unknown whenever the request failed.
    pub open spec fn availability_of(&self) -> Option<bool> {
        match self.result {
            Ok(values) => Some(available(values@)),
            Err(_) => None,
        }
    }

    /// The answer to a request whose session its pool does not hold: a
    /// transport error that says so.
    pub fn session_lost(alias: &str, location_or_name: &str) -> (outcome: Self)
        ensures
            outcome.alias@ == alias@,
            outcome.location_or_name@ == location_or_name@,
            outcome.result matches Err(Failure::TransportError(text)) && text@
                == session_lost_text(),
    {
        RequestOutcome {
            alias: String::from_str(alias),
            location_or_name: String::from_str(location_or_name),
            result: Err(Failure::TransportError(String::from_str("the session is not held"))),
        }
    }

    /// Whether the location is available, as far as it could be found out.
    pub fn availability(&self) -> (answer: Option<bool>)
        ensures
            answer == self.availability_of(),
    {
        match &self.result {
            Ok(values) => Some(values.len() > 0 && values[0] == AVAILABLE_VALUE),
            Err(_) => None,
        }
    }
}

/// What a request resolves to.
struct Target {
    alias: String,
    location_or_name: String,
    operation: Operation,
    pool: Result<usize, Failure>,
}

/// The request-facing component: the routing tables and the pools.
pub struct Dispatcher {
    router: LocationRouter,
    registry: PoolRegistry,
}

impl Dispatcher {
    /// The routing tables.
    pub closed spec fn router(&self) -> LocationRouter {
        self.router
    }

    /// The pools.
    pub closed spec fn registry(&self) -> PoolRegistry {
        self.registry
    }

    /// The pools are well-formed.
    pub open spec fn wf(&self) -> bool {
        self.registry().wf()
    }

    /// The alias under which a request is answered: that of the location it
    /// names, the description of the route it names, and none for an unknown
    /// location, an unknown route or a device name.
    pub open spec fn alias_of(&self, request: Request) -> Seq<char> {
        match request {
            Request::Device(_) => Seq::empty(),
            Request::Location(code) => match location_of(self.router().locations(), code@) {
                Some(entry) => entry.alias,
                None => Seq::empty(),
            },
            Request::Control(source, destination) => match control_of(
                self.router().controls(),
                source@,
                destination@,
            ) {
                Some(mapping) => mapping.description,
                None => Seq::empty(),
            },
        }
    }

    /// The device that a request goes to, or the failure of a request that
    /// names no registered location or route.
    pub open spec fn device_key_of(&self, request: Request) -> Result<Seq<char>, Failure> {
        match request {
            Request::Device(name) => Ok(name@),
            Request::Location(code) => match location_of(self.router().locations(), code@) {
                Some(entry) => Ok(entry.device_key),
                None => Err(Failure::UnknownLocation),
            },
            Request::Control(source, destination) => match control_of(
                self.router().controls(),
                source@,
                destination@,
            ) {
                Some(mapping) => Ok(mapping.device_key),
                None => Err(Failure::UnknownLocation),
            },
        }
    }

    /// The pool that serves a request, or why none does: the location or
    /// route is not registered, or no device of that name is configured.
    pub open spec fn pool_of(&self, request: Request) -> Result<int, Failure> {
        match self.device_key_of(request) {
            Ok(key) => match device_of(self.registry().names(), key) {
                Some(i) => Ok(i),
                None => Err(Failure::UnknownDevice),
            },
            Err(failure) => Err(failure),
        }
    }

    /// The operation that a request stands for: for a device name the read
    /// of the window at the first register; for a location the read of the
    /// window that starts at the location's register; for a route the
    /// switch of its two coils. Each within the time allowed to its kind of
    /// request.
    pub open spec fn operation_of(&self, request: Request) -> Operation {
        match request {
            Request::Device(_) => window(DEVICE_READ_TIMEOUT_MS),
            Request::Location(code) => match location_of(self.router().locations(), code@) {
                Some(entry) => window_at(entry.register_offset, LOCATION_READ_TIMEOUT_MS),
                None => window(LOCATION_READ_TIMEOUT_MS),
            },
            Request::Control(source, destination) => match control_of(
                self.router().controls(),
                source@,
                destination@,
            ) {
                Some(mapping) => Operation::Switch(
                    SwitchPlan {
                        off_coil: mapping.off_coil,
                        on_coil: mapping.on_coil,
                        timeout_ms: CONTROL_TIMEOUT_MS,
                    },
                ),
                None => window(DEVICE_READ_TIMEOUT_MS),
            },
        }
    }

    /// The operation of every request is bounded in time: a read by device
    /// name and a switch by the time allowed to them, a read by location by
    /// the time allowed to it, which is the longest.
    pub proof fn lemma_operation_is_bounded(&self, request: Request)
        ensures
            timeout_of(self.operation_of(request)) <= LOCATION_READ_TIMEOUT_MS,
            request is Device ==> timeout_of(self.operation_of(request))
                == DEVICE_READ_TIMEOUT_MS,
            request is Location ==> timeout_of(self.operation_of(request))
                == LOCATION_READ_TIMEOUT_MS,
            request is Control ==> timeout_of(self.operation_of(request)) == CONTROL_TIMEOUT_MS,
    {
    }

    /// `lease` is the claim of `request` on session `id` of pool `i`.
    pub open spec fn lease_for(&self, lease: Lease, request: Request, i: int, id: u64) -> bool {
        lease@ == (LeaseView {
            pool: i as usize,
            session: id,
            alias: self.alias_of(request),
            location_or_name: subject_of(request),
            operation: self.operation_of(request),
        })
    }

    /// `outcome` answers `request` with `failure`.
    pub open spec fn fails_with(
        &self,
        outcome: RequestOutcome,
        request: Request,
        failure: Failure,
    ) -> bool {
        &&& outcome.alias@ == self.alias_of(request)
        &&& outcome.location_or_name@ == subject_of(request)
        &&& outcome.result == Err::<Vec<u16>, Failure>(failure)
    }

    /// A dispatcher over these tables and these pools.
    pub fn new(router: LocationRouter, registry: PoolRegistry) -> (dispatcher: Self)
        requires
            registry.wf(),
        ensures
            dispatcher.wf(),
            dispatcher.router() == router,
            dispatcher.registry() == registry,
    {
        Dispatcher { router, registry }
    }

    /// The routing tables.
    pub fn tables(&self) -> (router: &LocationRouter)
        ensures
            *router == self.router(),
    {
        &self.router
    }

    /// The pools.
    pub fn pools(&self) -> (registry: &PoolRegistry)
        ensures
            *registry == self.registry(),
    {
        &self.registry
    }

    /// Resolves a request: to the pool of its device and the operation to
    /// run there, or to the failure of a request that names nothing known.
    fn resolve(&self, request: &Request) -> (target: Target)
        requires
            self.wf(),
        ensures
            target.alias@ == self.alias_of(*request),
            target.location_or_name@ == subject_of(*request),
            match target.pool {
                Ok(i) => self.pool_of(*request) == Ok::<int, Failure>(i as int) && i
                    < self.registry().pools().len() && target.operation == self.operation_of(
                    *request,
                ),
                Err(failure) => self.pool_of(*request) == Err::<int, Failure>(failure),
            },
    {
        match request {
            Request::Device(name) => Target {
                alias: String::new(),
                location_or_name: name.clone(),
                operation: read_window(DEVICE_READ_TIMEOUT_MS),
                pool: self.serving(name.as_str()),
            },
            Request::Location(code) => match self.router.resolve_location(code.as_str()) {
                Some(entry) => Target {
                    alias: entry.alias.clone(),
                    location_or_name: code.clone(),
                    operation: read_window_at(entry.register_offset, LOCATION_READ_TIMEOUT_MS),
                    pool: self.serving(entry.device_key.as_str()),
                },
                None => Target {
                    alias: String::new(),
                    location_or_name: code.clone(),
                    operation: read_window(LOCATION_READ_TIMEOUT_MS),
                    pool: Err(Failure::UnknownLocation),
                },
            },
            Request::Control(source, destination) => match self.router.resolve_control(
                source.as_str(),
                destination.as_str(),
            ) {
                Some(mapping) => Target {
                    alias: mapping.description.clone(),
                    location_or_name: destination.clone(),
                    operation: Operation::Switch(
                        SwitchPlan {
                            off_coil: mapping.off_coil,
                            on_coil: mapping.on_coil,
                            timeout_ms: CONTROL_TIMEOUT_MS,
                        },
                    ),
                    pool: self.serving(mapping.device_key.as_str()),
                },
                None => Target {
                    alias: String::new(),
                    location_or_name: destination.clone(),
                    operation: read_window(DEVICE_READ_TIMEOUT_MS),
                    pool: Err(Failure::UnknownLocation),
                },
            },
        }
    }

    /// The pool of the device called `key`.
    fn serving(&self, key: &str) -> (pool: Result<usize, Failure>)
        requires
            self.wf(),
        ensures
            match pool {
                Ok(i) => device_of(self.registry().names(), key@) == Some(i as int) && i
                    < self.registry().pools().len(),
                Err(failure) => device_of(self.registry().names(), key@) is None && failure
                    == Failure::UnknownDevice,
            },
    {
        match self.registry.find(key) {
            Some(i) => Ok(i),
            None => Err(Failure::UnknownDevice),
        }
    }

    /// Starts a dispatch, or takes it up again after a wait of `waited_ms`
    /// in all. A request that names no registered location or route, or no
    /// configured device, is answered at once and touches no pool. Any other
    /// request goes to the pool of its device, and what the pool decides is
    /// passed on: the operation on a leased session, a connect for a
    /// reserved slot, a bounded wait, or the answer that the pool is
    /// exhausted.
    pub fn begin(&mut self, request: &Request, waited_ms: u64) -> (step: Begin)
        requires
            old(self).wf(),
        ensures
            final(self).wf(),
            final(self).router() == old(self).router(),
            old(self).pool_of(*request) is Err ==> final(self).registry() == old(self).registry()
                && step is Answer && step->Answer_0.availability_of() is None,
            match old(self).pool_of(*request) {
                Err(failure) => {
                    &&& final(self).registry() == old(self).registry()
                    &&& step matches Begin::Answer(outcome)
                    &&& old(self).fails_with(outcome, *request, failure)
                },
                Ok(i) => {
                    let pool = old(self).registry().pools()[i];
                    let (decision, next) = pool@.checkout(waited_ms);
                    &&& 0 <= i < old(self).registry().pools().len()
                    &&& final(self).registry().same_but(&old(self).registry(), i)
                    &&& final(self).registry().pools()[i]@ == next
                    &&& match decision {
                        Checkout::Lease(id) => {
                            &&& step matches Begin::Operate(lease)
                            &&& old(self).lease_for(lease, *request, i, id)
                        },
                        Checkout::Create(id) => {
                            &&& step matches Begin::Connect(lease, plan)
                            &&& old(self).lease_for(lease, *request, i, id)
                            &&& plan.address == pool.endpoint().addr
                            &&& plan.unit_id == pool.endpoint().slave
                            &&& plan.timeout_ms == CONNECT_TIMEOUT_MS
                        },
                        Checkout::Wait(millis) => step matches Begin::Wait(m) && m == millis,
                        Checkout::Exhausted => {
                            &&& step matches Begin::Answer(outcome)
                            &&& old(self).fails_with(outcome, *request, Failure::PoolExhausted)
                        },
                    }
                },
            },
    {
        let target = self.resolve(request);
        let alias = target.alias;
        let location_or_name = target.location_or_name;
        let operation = target.operation;
        let i = match target.pool {
            Ok(i) => i,
            Err(failure) => {
                return Begin::Answer(RequestOutcome { alias, location_or_name, result: Err(failure) });
            },
        };
        let decision = self.registry.checkout(i, waited_ms);
        match decision {
            Some(Checkout::Lease(session)) => Begin::Operate(
                Lease { pool: i, session, alias, location_or_name, operation },
            ),
            Some(Checkout::Create(session)) => {
                let manager = self.registry.manager(i);
                let plan = ConnectPlan {
                    address: manager.addr.clone(),
                    unit_id: manager.slave,
                    timeout_ms: CONNECT_TIMEOUT_MS,
                };
                Begin::Connect(Lease { pool: i, session, alias, location_or_name, operation }, plan)
            },
            Some(Checkout::Wait(millis)) => Begin::Wait(millis),
            _ => Begin::Answer(
                RequestOutcome { alias, location_or_name, result: Err(Failure::PoolExhausted) },
            ),
        }
    }

    /// Takes the end of the connect that `begin` asked for. A session that
    /// is open is leased to the dispatch, which goes on to its operation. One that
    /// could not be opened, by refusal or by timeout, gives its slot back
    /// and the dispatch ends with a connect failure. None, and no change,
    /// when the lease names no connecting session.
    pub fn connected(&mut self, lease: Lease, outcome: ConnectOutcome) -> (step: Option<Connected>)
        requires
            old(self).wf(),
        ensures
            final(self).wf(),
            final(self).router() == old(self).router(),
            final(self).registry().same_but(&old(self).registry(), lease@.pool as int),
            if lease@.pool < old(self).registry().pools().len() {
                let pool = old(self).registry().pools()[lease@.pool as int];
                let (report, next) = pool@.connected(lease@.session, outcome is Connected);
                &&& final(self).registry().pools()[lease@.pool as int]@ == next
                &&& match report {
                    None => step is None,
                    Some(Ok(())) => step == Some(Connected::Operate(lease)),
                    Some(Err(failure)) => {
                        &&& step matches Some(Connected::Answer(answer))
                        &&& answer.alias@ == lease@.alias
                        &&& answer.location_or_name@ == lease@.location_or_name
                        &&& answer.result == Err::<Vec<u16>, Failure>(Failure::ConnectFailure)
                    },
                }
            } else {
                step is None && final(self).registry().pools() == old(self).registry().pools()
            },
    {
        if lease.pool >= self.registry.len() {
            return None;
        }
        let created = self.registry.manager(lease.pool).create(outcome);
        match self.registry.connected(lease.pool, lease.session, created.is_ok()) {
            Some(Ok(())) => Some(Connected::Operate(lease)),
            Some(Err(failure)) => Some(
                Connected::Answer(
                    RequestOutcome {
                        alias: lease.alias,
                        location_or_name: lease.location_or_name,
                        result: Err(failure),
                    },
                ),
            ),
            None => None,
        }
    }

    /// Takes what the operation brought and ends the dispatch. The reply is
    /// classified; the session is reported alive when the device answered,
    /// with values or with an exception, and dead after a transport error or
    /// a timeout; and the session is handed back to its pool with that
    /// report, whatever the operation brought. The answer carries the values or
    /// the failure. What follows is the probe of a session that was handed
    /// back alive, or the closing of one that left the pool. None, and no
    /// change, when the lease names no session in use.
    pub fn complete(&mut self, lease: Lease, raw: RawReply) -> (step: Option<Completion>)
        requires
            old(self).wf(),
        ensures
            final(self).wf(),
            final(self).router() == old(self).router(),
            final(self).registry().same_but(&old(self).registry(), lease@.pool as int),
            step is Some ==> final(self).registry().pools()[lease@.pool as int]@.state_of(
                lease@.session,
            ) != Some(SessionState::InUse),
            if lease@.pool < old(self).registry().pools().len() {
                let pool = old(self).registry().pools()[lease@.pool as int];
                let (action, next) = pool@.hand_back(
                    lease@.session,
                    session_survives(classified(raw)),
                );
                &&& final(self).registry().pools()[lease@.pool as int]@ == next
                &&& match action {
                    None => step is None,
                    Some(action) => {
                        &&& step matches Some(done)
                        &&& done.outcome.alias@ == lease@.alias
                        &&& done.outcome.location_or_name@ == lease@.location_or_name
                        &&& done.outcome.result == result_of(classified(raw))
                        &&& done.followup == match action {
                            HandBack::Probe => Followup::Probe(
                                lease@.pool,
                                lease@.session,
                                probe_plan(),
                            ),
                            HandBack::Destroy => Followup::Close(lease@.pool, lease@.session),
                        }
                    },
                }
            } else {
                step is None && final(self).registry().pools() == old(self).registry().pools()
            },
    {
        if lease.pool >= self.registry.len() {
            return None;
        }
        proof {
            self.registry().pools()[lease.pool as int]@.lemma_hand_back_releases(
                lease.session,
                session_survives(classified(raw)),
            );
        }
        let outcome = classify(raw);
        let manager = self.registry.manager(lease.pool);
        let session = Modbus {
            addr: manager.addr.clone(),
            slave: manager.slave,
            status: reported_liveness(&outcome),
        };
        let followup = match self.registry.hand_back(lease.pool, lease.session, &session) {
            Some(HandBack::Probe) => Followup::Probe(
                lease.pool,
                lease.session,
                ReadPlan {
                    address: PROBE_ADDRESS,
                    count: PROBE_COUNT,
                    timeout_ms: PROBE_TIMEOUT_MS,
                },
            ),
            Some(HandBack::Destroy) => Followup::Close(lease.pool, lease.session),
            None => {
                return None;
            },
        };
        Some(
            Completion {
                outcome: RequestOutcome {
                    alias: lease.alias,
                    location_or_name: lease.location_or_name,
                    result: outcome.into_result(),
                },
                followup,
            },
        )
    }

    /// Takes what the probe of session `id` of pool `i` brought. A session
    /// whose probe succeeded is idle again. Any other leaves the pool,
    /// whether its probe timed out, lost the connection or was answered with
    /// an exception: its transport is to be closed, and the health check
    /// failure is returned. None, and no change, when no such session is
    /// under probe.
    pub fn probed(&mut self, i: usize, id: u64, probe: &RawReply) -> (report: Option<
        Result<(), Failure>,
    >)
        requires
            old(self).wf(),
        ensures
            final(self).wf(),
            final(self).router() == old(self).router(),
            final(self).registry().same_but(&old(self).registry(), i as int),
            if i < old(self).registry().pools().len() {
                (report, final(self).registry().pools()[i as int]@) == old(
                    self,
                ).registry().pools()[i as int]@.probed(id, probe_passes(*probe))
            } else {
                report is None && final(self).registry().pools() == old(self).registry().pools()
            },
            report is Some && !probe_passes(*probe) ==> report == Some(
                Err::<(), Failure>(Failure::HealthCheckFailure),
            ) && final(self).registry().pools()[i as int]@.state_of(id) is None,
            report is Some && probe_passes(*probe) ==> report == Some(Ok::<(), Failure>(()))
                && final(self).registry().pools()[i as int]@.state_of(id) == Some(
                SessionState::Idle,
            ),
    {
        proof {
            if i < self.registry().pools().len() {
                self.registry().pools()[i as int]@.lemma_probed_settles(id, probe_passes(*probe));
            }
        }
        self.registry.probed(i, id, is_connection_alive(probe))
    }
}

} // verus!
