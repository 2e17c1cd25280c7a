//! The supervisor registry: which device has a supervisor, and which one.
//!
//! Every supervisor is started under a handle that carries a number of its
//! own. The registry maps the address of each supervised device to the number
//! of its current supervisor. Numbers are handed out in ascending order and
//! never again, so a supervisor that was cancelled stays cancelled even when
//! its device comes back and gets a new one.

use crate::address::lemma_key_is_injective;
use crate::address::Address;
use std::collections::HashMap;
use vstd::prelude::*;

verus! {

/// The cancellation handle of one supervisor.
#[derive(Clone, Copy, Debug, PartialEq, Eq, Hash)]
pub struct SupervisorHandle {
    /// The device that the supervisor looks after.
    pub address: Address,
    /// The number under which the supervisor was started.
    pub id: u64,
}

/// What came of asking for a supervisor.
#[derive(Clone, Copy, Debug, PartialEq, Eq)]
pub enum Admission {
    /// A supervisor is to be started under this handle.
    Started(SupervisorHandle),
    /// The device has a supervisor already; this is its handle.
    AlreadyActive(SupervisorHandle),
    /// Every number has been handed out; nothing was started.
    Exhausted,
}

/// What a registry holds, as mathematics.
pub struct RegistryModel {
    /// The number of the current supervisor of each supervised device, by
    /// the key of the device's address.
    pub ids: Map<u64, u64>,
    /// How many numbers have been handed out; the next one to be given.
    pub issued: nat,
}

impl RegistryModel {
    /// The registry is consistent: it holds finitely many devices, every
    /// number in it has been handed out, none lies beyond the numbers there
    /// are, and no two devices share one.
    pub open spec fn wf(self) -> bool {
        &&& self.ids.dom().finite()
        &&& self.issued <= u64::MAX
        &&& forall|k: u64| #[trigger] self.ids.dom().contains(k) ==> self.ids[k] < self.issued
        &&& forall|j: u64, k: u64|
            #![trigger self.ids[j], self.ids[k]]
            self.ids.dom().contains(j) && self.ids.dom().contains(k) && self.ids[j] == self.ids[k]
                ==> j == k
    }

    /// Whether the device has a supervisor.
    pub open spec fn supervises(self, address: Address) -> bool {
        self.ids.dom().contains(address.spec_key())
    }

    /// The handle of the device's supervisor, if it has one.
    pub open spec fn handle_of(self, address: Address) -> Option<SupervisorHandle> {
        if self.supervises(address) {
            Some(SupervisorHandle { address, id: self.ids[address.spec_key()] })
        } else {
            None
        }
    }

    /// Whether the handle is that of its device's current supervisor.
    pub open spec fn is_current(self, handle: SupervisorHandle) -> bool {
        self.supervises(handle.address) && self.ids[handle.address.spec_key()] == handle.id
    }

    /// Whether the handle was given out once and is current no more.
    pub open spec fn cancelled(self, handle: SupervisorHandle) -> bool {
        handle.id < self.issued && !self.is_current(handle)
    }

    /// What registering a supervisor for the device gives.
    ///
    /// A device that is supervised keeps its supervisor. Otherwise the next
    /// number is handed out, as long as one is left: the last number there
    /// is stays unused, so that the count of those handed out never
    /// overflows.
    pub open spec fn admission(self, address: Address) -> Admission {
        if self.supervises(address) {
            Admission::AlreadyActive(self.handle_of(address).unwrap())
        } else if self.issued < u64::MAX {
            Admission::Started(SupervisorHandle { address, id: self.issued as u64 })
        } else {
            Admission::Exhausted
        }
    }

    /// The registry after registering a supervisor for the device: one entry
    /// and one number more where a supervisor is started, unchanged
    /// otherwise.
    pub open spec fn register(self, address: Address) -> RegistryModel {
        if self.admission(address) is Started {
            RegistryModel {
                ids: self.ids.insert(address.spec_key(), self.issued as u64),
                issued: self.issued + 1,
            }
        } else {
            self
        }
    }

    /// The registry after the device's supervisor was retired: without an
    /// entry for the device, and with no number given back.
    pub open spec fn retire(self, address: Address) -> RegistryModel {
        RegistryModel { ids: self.ids.remove(address.spec_key()), issued: self.issued }
    }
}

/// The registry of active supervisors.
pub struct Registry {
    active: HashMap<u64, u64>,
    issued: u64,
}

impl View for Registry {
    type V = RegistryModel;

    closed spec fn view(&self) -> RegistryModel {
        RegistryModel { ids: self.active@, issued: self.issued as nat }
    }
}

impl Registry {
    /// A registry without supervisors.
    pub fn new() -> (registry: Registry)
        ensures
            registry@.wf(),
            registry@ == (RegistryModel { ids: Map::empty(), issued: 0 }),
    {
        Registry { active: HashMap::new(), issued: 0 }
    }

    /// A registry without supervisors whose first handle bears the number
    /// `first`.
    pub fn numbering_from(first: u64) -> (registry: Registry)
        ensures
            registry@.wf(),
            registry@ == (RegistryModel { ids: Map::empty(), issued: first as nat }),
    {
        Registry { active: HashMap::new(), issued: first }
    }

    /// The number of supervised devices.
    pub fn len(&self) -> (count: usize)
        ensures
            count == self@.ids.len(),
    {
        self.active.len()
    }

    /// Looks up the handle of a device's supervisor.
    pub fn handle_of(&self, address: Address) -> (handle: Option<SupervisorHandle>)
        ensures
            handle == self@.handle_of(address),
    {
        broadcast use vstd::std_specs::hash::group_hash_axioms;

        let key: u64 = address.key();
        match self.active.get(&key) {
            Some(id) => Some(SupervisorHandle { address, id: *id }),
            None => None,
        }
    }

    /// Tells whether a device has a supervisor.
    pub fn supervises(&self, address: Address) -> (present: bool)
        ensures
            present == self@.supervises(address),
    {
        broadcast use vstd::std_specs::hash::group_hash_axioms;

        let key: u64 = address.key();
        self.active.contains_key(&key)
    }

    /// Tells whether a handle is still that of its device's supervisor. A
    /// supervisor asks this before every tick and stops on `false`.
    pub fn is_current(&self, handle: SupervisorHandle) -> (current: bool)
        ensures
            current == self@.is_current(handle),
    {
        broadcast use vstd::std_specs::hash::group_hash_axioms;

        let key: u64 = handle.address.key();
        match self.active.get(&key) {
            Some(id) => *id == handle.id,
            None => false,
        }
    }

    /// Registers a supervisor for the device unless it has one.
    pub fn register(&mut self, address: Address) -> (admission: Admission)
        requires
            old(self)@.wf(),
        ensures
            final(self)@.wf(),
            admission == old(self)@.admission(address),
            final(self)@ == old(self)@.register(address),
    {
        broadcast use vstd::std_specs::hash::group_hash_axioms;

        proof {
            lemma_register_keeps_consistent(self@, address);
        }
        let key: u64 = address.key();
        match self.active.get(&key) {
            Some(id) => {
                return Admission::AlreadyActive(SupervisorHandle { address, id: *id });
            },
            None => {},
        }
        if self.issued == u64::MAX {
            return Admission::Exhausted;
        }
        let id: u64 = self.issued;
        self.active.insert(key, id);
        self.issued = id + 1;
        assert(self@.ids =~= old(self)@.register(address).ids);
        Admission::Started(SupervisorHandle { address, id })
    }

    /// Removes the device's supervisor from the registry and returns its
    /// handle, which is cancelled from then on.
    pub fn retire(&mut self, address: Address) -> (retired: Option<SupervisorHandle>)
        requires
            old(self)@.wf(),
        ensures
            final(self)@.wf(),
            retired == old(self)@.handle_of(address),
            final(self)@ == old(self)@.retire(address),
    {
        broadcast use vstd::std_specs::hash::group_hash_axioms;

        proof {
            lemma_retire_keeps_consistent(self@, address);
        }
        let key: u64 = address.key();
        let retired = match self.active.remove(&key) {
            Some(id) => Some(SupervisorHandle { address, id }),
            None => None,
        };
        assert(self@.ids =~= old(self)@.retire(address).ids);
        retired
    }
}

/// Registering keeps the registry consistent.
pub proof fn lemma_register_keeps_consistent(registry: RegistryModel, address: Address)
    requires
        registry.wf(),
    ensures
        registry.register(address).wf(),
{
    let next = registry.register(address);
    if registry.admission(address) is Started {
        let key = address.spec_key();
        assert forall|j: u64, k: u64|
            next.ids.dom().contains(j) && next.ids.dom().contains(k) && next.ids[j]
                == next.ids[k] implies j == k by {
            if j != key {
                assert(registry.ids.dom().contains(j));
            }
            if k != key {
                assert(registry.ids.dom().contains(k));
            }
        }
    }
}

/// Retiring keeps the registry consistent.
pub proof fn lemma_retire_keeps_consistent(registry: RegistryModel, address: Address)
    requires
        registry.wf(),
    ensures
        registry.retire(address).wf(),
{
    let next = registry.retire(address);
    assert forall|j: u64, k: u64|
        next.ids.dom().contains(j) && next.ids.dom().contains(k) && next.ids[j]
            == next.ids[k] implies j == k by {
        assert(registry.ids.dom().contains(j));
        assert(registry.ids.dom().contains(k));
    }
}

/// A device has at most one supervisor: two current handles for one address
/// are the same handle.
pub proof fn lemma_one_supervisor_per_device(
    registry: RegistryModel,
    first: SupervisorHandle,
    second: SupervisorHandle,
)
    requires
        registry.is_current(first),
        registry.is_current(second),
        first.address == second.address,
    ensures
        first == second,
{
}

/// No supervisor looks after two devices: two current handles with one
/// number are the same handle.
pub proof fn lemma_one_device_per_supervisor(
    registry: RegistryModel,
    first: SupervisorHandle,
    second: SupervisorHandle,
)
    requires
        registry.wf(),
        registry.is_current(first),
        registry.is_current(second),
        first.id == second.id,
    ensures
        first == second,
{
    let j = first.address.spec_key();
    let k = second.address.spec_key();
    assert(registry.ids[j] == registry.ids[k]);
    lemma_key_is_injective(first.address, second.address);
}

/// A handle that was retired is cancelled, and its device is without a
/// supervisor.
pub proof fn lemma_retired_is_cancelled(registry: RegistryModel, address: Address)
    requires
        registry.wf(),
    ensures
        !registry.retire(address).supervises(address),
        registry.handle_of(address) matches Some(handle) ==> registry.retire(address).cancelled(
            handle,
        ),
{
}

/// Cancellation is final: neither registering nor retiring any device makes
/// a cancelled handle current again.
pub proof fn lemma_cancelled_stays_cancelled(
    registry: RegistryModel,
    handle: SupervisorHandle,
    address: Address,
)
    requires
        registry.wf(),
        registry.cancelled(handle),
    ensures
        registry.register(address).cancelled(handle),
        registry.retire(address).cancelled(handle),
{
    lemma_key_is_injective(handle.address, address);
}

} // verus!
