//! The discovery event router.
//!
//! The adapter reports devices that come and go. A device that comes is
//! inspected; if it advertises the ASHA service it gets a supervisor, unless
//! it has one. A device that goes loses its supervisor. Everything else the
//! adapter reports is ignored.

use crate::address::lemma_key_is_injective;
use crate::address::Address;
use crate::registry::Admission;
use crate::registry::lemma_cancelled_stays_cancelled;
use crate::registry::lemma_register_keeps_consistent;
use crate::registry::lemma_retire_keeps_consistent;
use crate::registry::Registry;
use crate::registry::RegistryModel;
use crate::registry::SupervisorHandle;
use crate::service::advertises_asha;
use crate::service::service_match;
use vstd::prelude::*;

verus! {

/// An event of the discovery stream.
#[derive(Clone, Copy, Debug, PartialEq, Eq)]
pub enum DiscoveryEvent {
    DeviceAdded(Address),
    DeviceRemoved(Address),
    Other,
}

/// What inspecting a device brought to light.
#[derive(Debug, PartialEq, Eq)]
pub enum Advertisement {
    /// The device could not be resolved from its address.
    Unresolved,
    /// The device's service UUIDs could not be read.
    Unreadable,
    /// The device advertises no service UUIDs.
    Absent,
    /// The device advertises these UUIDs.
    Uuids(Vec<u128>),
}

/// What the router does with an event.
#[derive(Clone, Copy, Debug, PartialEq, Eq)]
pub enum Dispatch {
    /// Inspect the device and come back with its advertisement.
    Inspect(Address),
    /// The device is gone; if it had a supervisor, this was its handle, and
    /// the supervisor is to be stopped.
    Removed(Address, Option<SupervisorHandle>),
    /// Nothing to do.
    Ignored,
}

/// What the router decides about a device that was inspected.
#[derive(Clone, Copy, Debug, PartialEq, Eq)]
pub enum Verdict {
    /// The advertisement could not be had: the event is dropped, and the
    /// device's next advertisement starts over.
    Dropped,
    /// The device does not advertise the ASHA service.
    NoMatch,
    /// The device matches and has a supervisor already.
    AlreadySupervised(SupervisorHandle),
    /// The device matches: start a supervisor under this handle.
    Spawn(SupervisorHandle),
    /// The device matches and the registry can hand out no more handles.
    Exhausted,
}

impl Advertisement {
    /// Whether the advertisement shows the ASHA service.
    pub open spec fn spec_matches(&self) -> bool {
        self matches Advertisement::Uuids(uuids) && advertises_asha(uuids@)
    }

    /// Whether the advertisement holds a set of UUIDs at all.
    pub open spec fn legible(&self) -> bool {
        self is Uuids
    }

    /// Tells whether the advertisement shows the ASHA service.
    #[verifier::when_used_as_spec(spec_matches)]
    pub fn matches(&self) -> (hit: bool)
        ensures
            hit == self.spec_matches(),
    {
        match self {
            Advertisement::Uuids(uuids) => service_match(uuids),
            _ => false,
        }
    }
}

/// The verdict on a device with the given advertisement, for a registry in
/// the given state.
///
/// An advertisement that could not be had drops the event. One that does
/// not show the ASHA service is no match. For a match the registry decides:
/// a supervisor is spawned unless the device has one.
pub open spec fn spec_verdict(
    registry: RegistryModel,
    address: Address,
    advertisement: Advertisement,
) -> Verdict {
    if !advertisement.legible() {
        Verdict::Dropped
    } else if !advertisement.spec_matches() {
        Verdict::NoMatch
    } else {
        match registry.admission(address) {
            Admission::Started(handle) => Verdict::Spawn(handle),
            Admission::AlreadyActive(handle) => Verdict::AlreadySupervised(handle),
            Admission::Exhausted => Verdict::Exhausted,
        }
    }
}

/// The registry after a device was added and inspected: a supervisor is
/// registered for a device that matches, and nothing changes for one that
/// does not.
pub open spec fn spec_after_added(
    registry: RegistryModel,
    address: Address,
    advertisement: Advertisement,
) -> RegistryModel {
    if advertisement.spec_matches() {
        registry.register(address)
    } else {
        registry
    }
}

/// The step that an event calls for.
pub open spec fn spec_dispatch(registry: RegistryModel, event: DiscoveryEvent) -> Dispatch {
    match event {
        DiscoveryEvent::DeviceAdded(address) => Dispatch::Inspect(address),
        DiscoveryEvent::DeviceRemoved(address) => Dispatch::Removed(
            address,
            registry.handle_of(address),
        ),
        DiscoveryEvent::Other => Dispatch::Ignored,
    }
}

/// The registry after an event: a device that was removed loses its
/// supervisor, and no other event changes anything.
pub open spec fn spec_after_event(registry: RegistryModel, event: DiscoveryEvent) -> RegistryModel {
    match event {
        DiscoveryEvent::DeviceRemoved(address) => registry.retire(address),
        _ => registry,
    }
}

/// Routes one event of the discovery stream.
///
/// A device that was added is to be inspected, and nothing changes until
/// `handle_device_added` hears of the result. A device that was removed
/// loses its supervisor at once. Any other event changes nothing.
pub fn handle_event(registry: &mut Registry, event: DiscoveryEvent) -> (dispatch: Dispatch)
    requires
        old(registry)@.wf(),
    ensures
        final(registry)@.wf(),
        dispatch == spec_dispatch(old(registry)@, event),
        final(registry)@ == spec_after_event(old(registry)@, event),
{
    match event {
        DiscoveryEvent::DeviceAdded(address) => Dispatch::Inspect(address),
        DiscoveryEvent::DeviceRemoved(address) => {
            let cancelled = handle_device_removed(registry, address);
            Dispatch::Removed(address, cancelled)
        },
        DiscoveryEvent::Other => Dispatch::Ignored,
    }
}

/// Decides about a device that was added and has been inspected.
///
/// A supervisor is registered exactly when the advertisement shows the ASHA
/// service, the device has no supervisor, and a handle is left to give. In
/// every other case the registry stays as it was.
pub fn handle_device_added(
    registry: &mut Registry,
    address: Address,
    advertisement: &Advertisement,
) -> (verdict: Verdict)
    requires
        old(registry)@.wf(),
    ensures
        final(registry)@.wf(),
        verdict == spec_verdict(old(registry)@, address, *advertisement),
        final(registry)@ == spec_after_added(old(registry)@, address, *advertisement),
{
    match advertisement {
        Advertisement::Uuids(_) => {},
        _ => {
            return Verdict::Dropped;
        },
    }
    if !advertisement.matches() {
        return Verdict::NoMatch;
    }
    match registry.register(address) {
        Admission::Started(handle) => Verdict::Spawn(handle),
        Admission::AlreadyActive(handle) => Verdict::AlreadySupervised(handle),
        Admission::Exhausted => Verdict::Exhausted,
    }
}

/// Takes the supervisor of a device that was removed out of the registry and
/// returns its handle. The handle is cancelled from then on, and the device
/// is without a supervisor until it is added again.
pub fn handle_device_removed(registry: &mut Registry, address: Address) -> (cancelled: Option<
    SupervisorHandle,
>)
    requires
        old(registry)@.wf(),
    ensures
        final(registry)@.wf(),
        cancelled == old(registry)@.handle_of(address),
        final(registry)@ == old(registry)@.retire(address),
{
    registry.retire(address)
}

/// The name under which a device is announced: the name it gave, or
/// "Unknown" where it gave none or the query failed.
pub open spec fn spec_display_name<E>(read: Result<Option<String>, E>) -> Seq<char> {
    match read {
        Ok(Some(name)) => name@,
        _ => "Unknown"@,
    }
}

/// Picks the name under which a device is announced.
pub fn display_name<E>(read: Result<Option<String>, E>) -> (name: String)
    ensures
        name@ == spec_display_name(read),
{
    match read {
        Ok(Some(name)) => name,
        _ => String::from_str("Unknown"),
    }
}

/// The line that announces a new supervisor.
pub fn found_line(name: &str) -> (line: String)
    ensures
        line@ == "ASHA device found: "@ + name@,
{
    String::from_str("ASHA device found: ").concat(name)
}

/// The line that announces a removed device.
pub fn removed_line(name: &str) -> (line: String)
    ensures
        line@ == "Device removed: "@ + name@,
{
    String::from_str("Device removed: ").concat(name)
}

/// One step of the router, as it changes the registry.
pub enum RouterStep {
    /// An event of the discovery stream was routed.
    Event(DiscoveryEvent),
    /// A device that was added has been inspected.
    Inspected(Address, Advertisement),
}

/// The registry after one step of the router.
pub open spec fn spec_after_step(registry: RegistryModel, step: RouterStep) -> RegistryModel {
    match step {
        RouterStep::Event(event) => spec_after_event(registry, event),
        RouterStep::Inspected(address, advertisement) => spec_after_added(
            registry,
            address,
            advertisement,
        ),
    }
}

/// The registry after a run of steps, in order.
pub open spec fn spec_after_steps(registry: RegistryModel, steps: Seq<RouterStep>) -> RegistryModel
    decreases steps.len(),
{
    if steps.len() == 0 {
        registry
    } else {
        spec_after_step(spec_after_steps(registry, steps.drop_last()), steps.last())
    }
}

/// A supervisor is spawned only for a device that advertises the ASHA
/// service and has no supervisor, and the registry grows by nothing else.
pub proof fn lemma_spawn_needs_match(
    registry: RegistryModel,
    address: Address,
    advertisement: Advertisement,
)
    ensures
        spec_verdict(registry, address, advertisement) is Spawn ==> advertisement.spec_matches()
            && !registry.supervises(address),
        !(spec_verdict(registry, address, advertisement) is Spawn) ==> spec_after_added(
            registry,
            address,
            advertisement,
        ) == registry,
        spec_verdict(registry, address, advertisement) matches Verdict::Spawn(handle)
            ==> handle.address == address && spec_after_added(
            registry,
            address,
            advertisement,
        ).is_current(handle),
{
}

/// Whatever the router does, the registry stays consistent.
pub proof fn lemma_steps_keep_consistent(registry: RegistryModel, steps: Seq<RouterStep>)
    requires
        registry.wf(),
    ensures
        spec_after_steps(registry, steps).wf(),
    decreases steps.len(),
{
    if steps.len() > 0 {
        lemma_steps_keep_consistent(registry, steps.drop_last());
        let before = spec_after_steps(registry, steps.drop_last());
        match steps.last() {
            RouterStep::Event(DiscoveryEvent::DeviceRemoved(address)) => {
                lemma_retire_keeps_consistent(before, address);
            },
            RouterStep::Event(_) => {},
            RouterStep::Inspected(address, _) => {
                lemma_register_keeps_consistent(before, address);
            },
        }
    }
}

/// A device that never shows the ASHA service never has a supervisor: if it
/// has none to begin with and no inspection of it finds a match, it has none
/// after any run of steps.
pub proof fn lemma_never_supervised_without_match(
    registry: RegistryModel,
    steps: Seq<RouterStep>,
    address: Address,
)
    requires
        !registry.supervises(address),
        forall|i: int|
            0 <= i < steps.len() ==> (#[trigger] steps[i] matches RouterStep::Inspected(
                inspected,
                advertisement,
            ) ==> inspected != address || !advertisement.spec_matches()),
    ensures
        !spec_after_steps(registry, steps).supervises(address),
    decreases steps.len(),
{
    if steps.len() > 0 {
        let earlier = steps.drop_last();
        assert forall|i: int| 0 <= i < earlier.len() implies (#[trigger] earlier[i]
            matches RouterStep::Inspected(inspected, advertisement) ==> inspected != address
            || !advertisement.spec_matches()) by {
            assert(earlier[i] == steps[i]);
        }
        lemma_never_supervised_without_match(registry, earlier, address);
        assert(steps.last() == steps[steps.len() - 1]);
        match steps.last() {
            RouterStep::Inspected(inspected, _) => {
                lemma_key_is_injective(inspected, address);
            },
            RouterStep::Event(_) => {},
        }
    }
}

/// Cancellation is final: a handle that is cancelled is cancelled after any
/// run of steps, also when its device is added again.
pub proof fn lemma_cancelled_for_good(
    registry: RegistryModel,
    steps: Seq<RouterStep>,
    handle: SupervisorHandle,
)
    requires
        registry.wf(),
        registry.cancelled(handle),
    ensures
        spec_after_steps(registry, steps).cancelled(handle),
    decreases steps.len(),
{
    if steps.len() > 0 {
        lemma_cancelled_for_good(registry, steps.drop_last(), handle);
        lemma_steps_keep_consistent(registry, steps.drop_last());
        let before = spec_after_steps(registry, steps.drop_last());
        match steps.last() {
            RouterStep::Event(DiscoveryEvent::DeviceRemoved(address)) => {
                lemma_cancelled_stays_cancelled(before, handle, address);
            },
            RouterStep::Event(_) => {},
            RouterStep::Inspected(address, _) => {
                lemma_cancelled_stays_cancelled(before, handle, address);
            },
        }
    }
}

/// Removing a device cancels its supervisor for good: the handle that the
/// removal returns is cancelled after the removal and after any run of steps
/// that follows it.
pub proof fn lemma_removal_cancels_for_good(
    registry: RegistryModel,
    address: Address,
    later: Seq<RouterStep>,
)
    requires
        registry.wf(),
    ensures
        registry.handle_of(address) matches Some(handle) ==> spec_after_steps(
            spec_after_event(registry, DiscoveryEvent::DeviceRemoved(address)),
            later,
        ).cancelled(handle),
{
    lemma_retire_keeps_consistent(registry, address);
    match registry.handle_of(address) {
        Some(handle) => {
            lemma_cancelled_for_good(registry.retire(address), later, handle);
        },
        None => {},
    }
}

} // verus!
