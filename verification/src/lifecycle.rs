//! What holds of a device over its whole life with the router and its
//! supervisors: from the first time it is seen, through every run of router
//! steps, to its removal and beyond.

use crate::address::Address;
use crate::registry::lemma_one_supervisor_per_device;
use crate::registry::RegistryModel;
use crate::registry::SupervisorHandle;
use crate::router::lemma_never_supervised_without_match;
use crate::router::lemma_removal_cancels_for_good;
use crate::router::lemma_steps_keep_consistent;
use crate::router::spec_after_event;
use crate::router::spec_after_steps;
use crate::router::DiscoveryEvent;
use crate::router::RouterStep;
use crate::supervisor::spec_plan_tick;
use crate::supervisor::spec_tick_requests;
use crate::supervisor::Observation;
use crate::supervisor::Tick;
use vstd::prelude::*;

verus! {

/// At any instant a device has at most one supervisor: after any run of
/// router steps the registry is consistent, and two handles that are current
/// for one device are one handle.
pub proof fn lemma_one_supervisor_at_any_instant(
    registry: RegistryModel,
    steps: Seq<RouterStep>,
    first: SupervisorHandle,
    second: SupervisorHandle,
)
    requires
        registry.wf(),
        spec_after_steps(registry, steps).is_current(first),
        spec_after_steps(registry, steps).is_current(second),
        first.address == second.address,
    ensures
        spec_after_steps(registry, steps).wf(),
        first == second,
{
    lemma_steps_keep_consistent(registry, steps);
    lemma_one_supervisor_per_device(spec_after_steps(registry, steps), first, second);
}

/// A device that never shows the ASHA service is never asked anything: if it
/// has no supervisor to begin with and no inspection of it finds a match,
/// then after any run of router steps a tick under any handle for it is
/// cancelled and issues no request.
pub proof fn lemma_unmatched_device_is_asked_nothing(
    registry: RegistryModel,
    steps: Seq<RouterStep>,
    handle: SupervisorHandle,
    observation: Observation,
    playing: bool,
)
    requires
        !registry.supervises(handle.address),
        forall|i: int|
            0 <= i < steps.len() ==> (#[trigger] steps[i] matches RouterStep::Inspected(
                inspected,
                advertisement,
            ) ==> inspected != handle.address || !advertisement.spec_matches()),
    ensures
        spec_plan_tick(spec_after_steps(registry, steps), handle, observation, playing)
            == Tick::Cancelled,
        spec_tick_requests(
            spec_plan_tick(spec_after_steps(registry, steps), handle, observation, playing),
        ).len() == 0,
{
    lemma_never_supervised_without_match(registry, steps, handle.address);
}

/// Removing a device stops its supervisor for good: after the removal, and
/// after any run of router steps that follows it, a tick under the handle
/// that the removal returned is cancelled and issues no request, whatever
/// the device and the playback signal show.
pub proof fn lemma_removed_device_is_asked_nothing(
    registry: RegistryModel,
    address: Address,
    later: Seq<RouterStep>,
    observation: Observation,
    playing: bool,
)
    requires
        registry.wf(),
    ensures
        registry.handle_of(address) matches Some(handle) ==> {
            let after = spec_after_steps(
                spec_after_event(registry, DiscoveryEvent::DeviceRemoved(address)),
                later,
            );
            &&& after.cancelled(handle)
            &&& spec_plan_tick(after, handle, observation, playing) == Tick::Cancelled
            &&& spec_tick_requests(spec_plan_tick(after, handle, observation, playing)).len() == 0
        },
{
    lemma_removal_cancels_for_good(registry, address, later);
}

} // verus!
