//! The pools of all devices, each under the name of its device. The set of
//! devices is fixed when the registry is built; only the pools change.

use vstd::prelude::*;
use crate::app_config::{Modbus as Device, ModbusConfig};
use crate::lookup::{is_last, last_index, lemma_last_index, lemma_last_is_unique};
use crate::modbus_manager::{Modbus, ModbusManager};
use crate::outcome::Failure;
use crate::pool::{Checkout, ConnectionPool, HandBack, PoolState, SessionState, WaitPolicy};

verus! {

/// The most sessions that the gateway holds to one device.
pub const MAX_SIZE: usize = 1;

/// The place of the device that `name` resolves to: the last one of that
/// name. None for a name that no device carries.
pub open spec fn device_of(names: Seq<Seq<char>>, name: Seq<char>) -> Option<int> {
    last_index(names, name)
}

/// The pools of all devices.
pub struct PoolRegistry {
    names: Vec<String>,
    pools: Vec<ConnectionPool>,
}

impl PoolRegistry {
    /// The names of the devices, in the order of the configuration.
    pub closed spec fn names(&self) -> Seq<Seq<char>> {
        self.names@.map_values(|name: String| name@)
    }

    /// The pools of the devices, in the same order.
    pub closed spec fn pools(&self) -> Seq<ConnectionPool> {
        self.pools@
    }

    /// Each device has its pool, the places of the pools fit the machine,
    /// and each pool is well-formed.
    pub open spec fn wf(&self) -> bool {
        &&& self.names().len() == self.pools().len()
        &&& self.pools().len() <= usize::MAX
        &&& forall|i: int| 0 <= i < self.pools().len() ==> (#[trigger] self.pools()[i]).wf()
    }

    /// `other` has the same devices with the same endpoints, and the same
    /// pools but for the one at `i`.
    pub open spec fn same_but(&self, other: &PoolRegistry, i: int) -> bool {
        &&& self.names() == other.names()
        &&& self.pools().len() == other.pools().len()
        &&& forall|k: int|
            0 <= k < self.pools().len() ==> (#[trigger] self.pools()[k]).endpoint()
                == other.pools()[k].endpoint()
        &&& forall|k: int|
            0 <= k < self.pools().len() && k != i ==> #[trigger] self.pools()[k] == other.pools()[k]
    }

    /// For every device, the sessions that are leased or idle are no more
    /// than the bound of its pool.
    pub proof fn lemma_every_pool_bounded(&self)
        requires
            self.wf(),
        ensures
            forall|i: int|
                0 <= i < self.pools().len() ==> (#[trigger] self.pools()[i])@.count(
                    SessionState::InUse,
                ) + self.pools()[i]@.count(SessionState::Idle) <= self.pools()[i]@.max_size,
    {
        assert forall|i: int| 0 <= i < self.pools().len() implies (#[trigger] self.pools()[i])@.count(
            SessionState::InUse,
        ) + self.pools()[i]@.count(SessionState::Idle) <= self.pools()[i]@.max_size by {
            self.pools()[i]@.lemma_sessions_bounded();
        }
    }

    /// A registry without devices.
    pub fn new() -> (registry: Self)
        ensures
            registry.wf(),
            registry.names().len() == 0,
    {
        PoolRegistry { names: Vec::new(), pools: Vec::new() }
    }

    /// Adds a device with an empty pool. It takes the place of any earlier
    /// device of the same name.
    pub fn add(&mut self, device: &Device, max_size: usize, policy: WaitPolicy)
        requires
            old(self).wf(),
        ensures
            final(self).wf(),
            final(self).names() == old(self).names().push(device.name@),
            final(self).pools().len() == old(self).pools().len() + 1,
            forall|k: int|
                0 <= k < old(self).pools().len() ==> #[trigger] final(self).pools()[k] == old(
                    self,
                ).pools()[k],
            final(self).pools().last().endpoint() == device.endpoint(),
            final(self).pools().last()@ == PoolState::empty(max_size as nat, policy),
    {
        self.names.push(device.name.clone());
        self.pools.push(ConnectionPool::new(device.manager(), max_size, policy));
        proof {
            assert(self.pools@.len() == self.pools.len());
        }
    }

    /// The registry of the configured devices: one empty pool for each, with
    /// the same bound and policy for all.
    pub fn from_config(config: &ModbusConfig, max_size: usize, policy: WaitPolicy) -> (registry:
        Self)
        ensures
            registry.wf(),
            registry.names() == config.configs@.map_values(|device: Device| device.name@),
            forall|i: int|
                0 <= i < config.configs@.len() ==> (#[trigger] registry.pools()[i]).endpoint()
                    == config.configs@[i].endpoint() && registry.pools()[i]@ == PoolState::empty(
                    max_size as nat,
                    policy,
                ),
    {
        let mut registry = PoolRegistry::new();
        let mut i: usize = 0;
        while i < config.configs.len()
            invariant
                i <= config.configs.len(),
                registry.wf(),
                registry.names() == config.configs@.take(i as int).map_values(
                    |device: Device| device.name@,
                ),
                forall|k: int|
                    0 <= k < i ==> (#[trigger] registry.pools()[k]).endpoint()
                        == config.configs@[k].endpoint() && registry.pools()[k]@
                        == PoolState::empty(max_size as nat, policy),
            decreases config.configs.len() - i,
        {
            registry.add(&config.configs[i], max_size, policy);
            proof {
                let names = |device: Device| device.name@;
                assert(config.configs@.take(i + 1).map_values(names) == config.configs@.take(
                    i as int,
                ).map_values(names).push(config.configs@[i as int].name@));
            }
            i = i + 1;
        }
        proof {
            assert(config.configs@.take(i as int) == config.configs@);
        }
        registry
    }

    /// The number of devices, replaced ones included.
    pub fn len(&self) -> (n: usize)
        ensures
            n == self.pools().len(),
    {
        self.pools.len()
    }

    /// Looks a device up by its name.
    pub fn find(&self, name: &str) -> (found: Option<usize>)
        requires
            self.wf(),
        ensures
            match found {
                Some(i) => device_of(self.names(), name@) == Some(i as int) && i
                    < self.pools().len(),
                None => device_of(self.names(), name@) is None,
            },
            found is None <==> !self.names().contains(name@),
    {
        proof {
            lemma_last_index(self.names(), name@);
        }
        let key = String::from_str(name);
        let mut i: usize = self.names.len();
        while i > 0
            invariant
                self.wf(),
                i <= self.names.len(),
                key@ == name@,
                forall|j: int| i <= j < self.names().len() ==> #[trigger] self.names()[j] != name@,
            decreases i,
        {
            i = i - 1;
            if self.names[i] == key {
                proof {
                    assert(is_last(self.names(), name@, i as int));
                    lemma_last_is_unique(self.names(), name@, i as int);
                }
                return Some(i);
            }
        }
        None
    }

    /// The pool at `i`, if there is one.
    pub fn pool(&self, i: usize) -> (pool: Option<&ConnectionPool>)
        ensures
            match pool {
                Some(p) => i < self.pools().len() && *p == self.pools()[i as int],
                None => i >= self.pools().len(),
            },
    {
        if i < self.pools.len() {
            Some(&self.pools[i])
        } else {
            None
        }
    }

    /// The endpoint of the device at `i`.
    pub fn manager(&self, i: usize) -> (manager: &ModbusManager)
        requires
            i < self.pools().len(),
        ensures
            *manager == self.pools()[i as int].endpoint(),
    {
        self.pools[i].manager()
    }

    /// A checkout from the pool at `i`; none, and no change, where there is
    /// no such pool.
    pub fn checkout(&mut self, i: usize, waited_ms: u64) -> (decision: Option<Checkout>)
        requires
            old(self).wf(),
        ensures
            final(self).wf(),
            final(self).same_but(old(self), i as int),
            match decision {
                Some(d) => i < old(self).pools().len() && (d, final(self).pools()[i as int]@)
                    == old(self).pools()[i as int]@.checkout(waited_ms),
                None => i >= old(self).pools().len() && final(self).pools() == old(self).pools(),
            },
    {
        if i < self.pools.len() {
            Some(self.pools[i].checkout(waited_ms))
        } else {
            None
        }
    }

    /// The end of a connect, reported to the pool at `i`; none, and no
    /// change, where there is no such pool or no such connecting session.
    pub fn connected(&mut self, i: usize, id: u64, ok: bool) -> (report: Option<
        Result<(), Failure>,
    >)
        requires
            old(self).wf(),
        ensures
            final(self).wf(),
            final(self).same_but(old(self), i as int),
            if i < old(self).pools().len() {
                (report, final(self).pools()[i as int]@) == old(self).pools()[i as int]@.connected(
                    id,
                    ok,
                )
            } else {
                report is None && final(self).pools() == old(self).pools()
            },
    {
        if i < self.pools.len() {
            self.pools[i].connected(id, ok)
        } else {
            None
        }
    }

    /// A hand-back to the pool at `i`; none, and no change, where there is
    /// no such pool or no such session in use.
    pub fn hand_back(&mut self, i: usize, id: u64, session: &Modbus) -> (action: Option<HandBack>)
        requires
            old(self).wf(),
        ensures
            final(self).wf(),
            final(self).same_but(old(self), i as int),
            if i < old(self).pools().len() {
                (action, final(self).pools()[i as int]@) == old(self).pools()[i as int]@.hand_back(
                    id,
                    session.status,
                )
            } else {
                action is None && final(self).pools() == old(self).pools()
            },
    {
        if i < self.pools.len() {
            self.pools[i].hand_back(id, session)
        } else {
            None
        }
    }

    /// The end of a probe, reported to the pool at `i`; none, and no change,
    /// where there is no such pool or no such session under probe.
    pub fn probed(&mut self, i: usize, id: u64, alive: bool) -> (report: Option<Result<(), Failure>>)
        requires
            old(self).wf(),
        ensures
            final(self).wf(),
            final(self).same_but(old(self), i as int),
            if i < old(self).pools().len() {
                (report, final(self).pools()[i as int]@) == old(self).pools()[i as int]@.probed(
                    id,
                    alive,
                )
            } else {
                report is None && final(self).pools() == old(self).pools()
            },
    {
        if i < self.pools.len() {
            self.pools[i].probed(id, alive)
        } else {
            None
        }
    }
}

} // verus!
