//! The syscall dispatch state the exception runtime starts with.
use vstd::prelude::*;
use crate::boot_contract::BootstrapCapsuleSummary;
use crate::init_capsule::NovaInitCapsuleCapabilityV1;
use crate::kernel_syscall::{BootstrapTaskState, CurrentTaskState, SyscallDispatchState};

verus! {

/// The dispatch state for an init capsule, as described below.
pub open spec fn spec_dispatch_state(init_capsule: Option<BootstrapCapsuleSummary>) -> SyscallDispatchState {
    match init_capsule {
        None => SyscallDispatchState { current_task: None, endpoints_ready: false, shared_memory_ready: false },
        Some(c) => SyscallDispatchState {
            current_task: Some(CurrentTaskState {
                service_name: c.service_name,
                bootstrap: BootstrapTaskState {
                    bootstrap_capabilities: c.requested_capabilities,
                    endpoint_slots: c.endpoint_slots,
                    shared_memory_regions: c.shared_memory_regions,
                },
            }),
            endpoints_ready: c.requested_capabilities & NovaInitCapsuleCapabilityV1::EndpointBootstrap.spec_raw() != 0
                && c.endpoint_slots != 0,
            shared_memory_ready: c.requested_capabilities & NovaInitCapsuleCapabilityV1::SharedMemoryBootstrap.spec_raw() != 0
                && c.shared_memory_regions != 0,
        },
    }
}

/// The dispatch state for the bootstrap task an init capsule describes: the
/// capsule's service and grant, with the endpoint lane ready where endpoint
/// bootstrap was granted with at least one slot, and the shared-memory lane
/// ready where shared-memory bootstrap was granted with at least one region.
/// Without a capsule, the scaffold state.
pub fn bootstrap_syscall_dispatch_state(init_capsule: Option<BootstrapCapsuleSummary>) -> (r: SyscallDispatchState)
    ensures
        r == spec_dispatch_state(init_capsule),
{
    match init_capsule {
        Some(capsule) => {
            let task_state = capsule.task_state();
            let endpoints_ready = task_state.has_bootstrap_capability(NovaInitCapsuleCapabilityV1::EndpointBootstrap)
                && task_state.endpoint_slots != 0;
            let shared_memory_ready = task_state.has_bootstrap_capability(NovaInitCapsuleCapabilityV1::SharedMemoryBootstrap)
                && task_state.shared_memory_regions != 0;
            SyscallDispatchState::bootstrap(CurrentTaskState::new(capsule.service_name, task_state), endpoints_ready, shared_memory_ready)
        },
        None => SyscallDispatchState::scaffold(),
    }
}

} // verus!
