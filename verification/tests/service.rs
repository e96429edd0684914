use novaos::init_capsule::{NovaInitCapsuleCapabilityV1, NOVA_INIT_CAPSULE_KNOWN_CAPABILITIES_V1};
use novaos::service::{
    NovaAgentId, NovaAppActionKind, NovaAppActionRequest, NovaAppBridgeKind, NovaEndpointId, NovaIntentDispatch,
    NovaIntentKind, NovaIntentProjection, NovaPolicyAction, NovaPolicyDecision, NovaPolicyRequest, NovaPolicyScope,
    NovaSceneId, NovaSceneMode, NovaSceneSwitchRequest, NovaServiceBindingState, NovaServiceBootstrapRequirement,
    NovaServiceDescriptor, NovaServiceId, NovaServiceKernelBinding, NovaServiceKernelLaunchPlan, NovaServiceKind,
    NovaServiceLaunchRequest, NovaServiceLaunchResult, NovaServiceLaunchSpec, NovaServiceLaunchStatus,
    NovaServiceState, NovaServiceStatus, NovaSharedMemoryRegionId, NovaStatusRequest, NovaTaskId,
};

#[test]
fn service_ids_cover_core_runtime_graph() {
    assert_ne!(NovaServiceId::initd(), NovaServiceId::policyd());
    assert_ne!(NovaServiceId::agentd(), NovaServiceId::intentd());
    assert_eq!(NovaServiceKind::Core.as_raw(), 2);
}

#[test]
fn service_ids_have_stable_raw_values() {
    assert_eq!(NovaServiceId::initd().0, 0x494E_4954_445F_3031);
    assert_eq!(NovaServiceId::shelld().0, 0x5348_454C_4C44_3031);
    assert!(NovaServiceId::new(0).is_empty());
    assert!(!NovaServiceId::memd().is_empty());
    assert!(!NovaTaskId::unassigned().is_assigned());
    assert!(NovaTaskId::bootstrap_initd().is_assigned());
    assert_eq!(NovaAgentId::kernel().0, 1);
    assert_eq!(NovaSceneId::root().0, 1);
}

#[test]
fn service_enums_expose_stable_labels() {
    assert_eq!(NovaServiceKind::Interaction.label(), "interaction");
    assert_eq!(NovaServiceState::Running.label(), "running");
    assert_eq!(NovaServiceLaunchStatus::AlreadyRunning.label(), "already-running");
    assert_eq!(NovaServiceBindingState::KernelBacked.label(), "kernel-backed");
    assert_eq!(NovaPolicyDecision::Allow.label(), "allow");
    assert_eq!(NovaIntentKind::RequestStatus.label(), "request-status");
    assert_eq!(NovaSceneMode::Operator.label(), "operator");
    assert_eq!(NovaAppBridgeKind::Compatibility.label(), "compatibility");
    assert_eq!(NovaAppActionKind::RequestAction.label(), "request-action");
    assert_eq!(NovaIntentKind::Custom.as_raw(), 0xffff);
}

#[test]
fn launch_result_reports_started_target() {
    let result = NovaServiceLaunchResult::started(NovaServiceId::policyd());
    assert_eq!(result.target, NovaServiceId::policyd());
    assert_eq!(result.status, NovaServiceLaunchStatus::Started);
}

#[test]
fn service_launch_spec_rejects_unknown_bootstrap_capability_bits() {
    let descriptor = NovaServiceDescriptor::new(NovaServiceId::policyd(), "policyd", NovaServiceKind::Core, true, 10);
    let spec = NovaServiceLaunchSpec::new(
        descriptor,
        NovaServiceBootstrapRequirement::new(NOVA_INIT_CAPSULE_KNOWN_CAPABILITIES_V1 | (1 << 20), 0, 0),
    );

    assert!(!spec.is_valid());
}

#[test]
fn service_bootstrap_requirement_presets_are_valid() {
    let required = NovaServiceBootstrapRequirement::core_required();
    let boot_log_only = NovaServiceBootstrapRequirement::boot_log_only();

    assert!(required.is_valid());
    assert!(boot_log_only.is_valid());
    assert_eq!(required.endpoint_slots, 1);
    assert_eq!(boot_log_only.endpoint_slots, 0);
}

#[test]
fn service_bootstrap_requirement_ties_slots_to_capabilities() {
    let endpoint = NovaInitCapsuleCapabilityV1::EndpointBootstrap.as_raw();
    assert!(!NovaServiceBootstrapRequirement::new(endpoint, 0, 0).is_valid());
    assert!(!NovaServiceBootstrapRequirement::new(0, 1, 0).is_valid());
    assert!(NovaServiceBootstrapRequirement::new(endpoint, 3, 0).is_valid());
    assert!(NovaServiceBootstrapRequirement::new(endpoint, 3, 0).has_capability(NovaInitCapsuleCapabilityV1::EndpointBootstrap));
}

#[test]
fn service_launch_spec_encodes_init_capsule_service_name() {
    let descriptor = NovaServiceDescriptor::new(NovaServiceId::policyd(), "policyd", NovaServiceKind::Core, true, 10);
    let spec = NovaServiceLaunchSpec::new(
        descriptor,
        NovaServiceBootstrapRequirement::new(NovaInitCapsuleCapabilityV1::BootLog.as_raw(), 0, 0),
    );

    assert_eq!(spec.encoded_service_name().expect("service name")[..7], *b"policyd");
    assert!(spec.is_valid());
    let request = spec.launch_request(NovaServiceId::initd(), NovaSceneId::root());
    assert_eq!(request, NovaServiceLaunchRequest::new(NovaServiceId::initd(), NovaServiceId::policyd(), NovaSceneId::root(), 0));
}

#[test]
fn service_launch_spec_builds_bootstrap_context() {
    let descriptor = NovaServiceDescriptor::new(NovaServiceId::agentd(), "agentd", NovaServiceKind::Core, true, 20);
    let caps = NovaInitCapsuleCapabilityV1::BootLog.as_raw()
        | NovaInitCapsuleCapabilityV1::EndpointBootstrap.as_raw()
        | NovaInitCapsuleCapabilityV1::SharedMemoryBootstrap.as_raw();
    let spec = NovaServiceLaunchSpec::new(descriptor, NovaServiceBootstrapRequirement::new(caps, 1, 1));
    let context = spec.bootstrap_context_v1().expect("context");

    assert!(context.is_valid());
    assert_eq!(context.service_name(), "agentd");
    assert_eq!(context.endpoint_slots, 1);
    assert_eq!(context.shared_memory_regions, 1);
}

#[test]
fn service_launch_spec_without_encodable_name_has_no_context() {
    let descriptor = NovaServiceDescriptor::new(NovaServiceId::agentd(), "Agent D", NovaServiceKind::Core, true, 20);
    let spec = NovaServiceLaunchSpec::new(descriptor, NovaServiceBootstrapRequirement::boot_log_only());
    assert!(spec.bootstrap_context_v1().is_none());
    assert!(!spec.is_valid());
}

#[test]
fn service_status_tracks_health_from_launch_result() {
    let descriptor = NovaServiceDescriptor::new(NovaServiceId::intentd(), "intentd", NovaServiceKind::Interaction, true, 50);
    let running = NovaServiceStatus::running(descriptor);
    let deferred = NovaServiceStatus::deferred(descriptor, 7);

    assert!(running.is_healthy());
    assert!(!deferred.is_healthy());
    assert_eq!(deferred.last_result.status, NovaServiceLaunchStatus::Deferred);
    assert_eq!(deferred.last_result.detail, 7);
    assert!(NovaServiceStatus::new(descriptor, NovaServiceState::Degraded, running.last_result).is_healthy());
}

#[test]
fn service_kernel_binding_tracks_planned_and_backed_states() {
    let planned = NovaServiceKernelBinding::planned(
        NovaServiceId::policyd(),
        NovaTaskId::new(0x1001),
        NovaEndpointId::new(0x2001),
        NovaSharedMemoryRegionId::new(0x3001),
    );
    let backed = NovaServiceKernelBinding::kernel_backed(
        NovaServiceId::policyd(),
        planned.task,
        planned.control_endpoint,
        planned.shared_memory_region,
        9,
    );

    assert_eq!(planned.state, NovaServiceBindingState::Planned);
    assert!(planned.has_kernel_objects());
    assert!(!planned.can_publish_kernel_health());
    assert!(backed.can_publish_kernel_health());
    assert!(!NovaServiceKernelBinding::model_only(NovaServiceId::policyd()).has_kernel_objects());
}

#[test]
fn service_kernel_launch_plan_requires_kernel_until_backed() {
    let descriptor = NovaServiceDescriptor::new(NovaServiceId::agentd(), "agentd", NovaServiceKind::Core, true, 20);
    let request = NovaServiceLaunchRequest::new(NovaServiceId::initd(), NovaServiceId::agentd(), NovaSceneId::root(), 0);
    let planned = NovaServiceKernelLaunchPlan::new(
        descriptor,
        request,
        NovaServiceKernelBinding::planned(
            NovaServiceId::agentd(),
            NovaTaskId::new(0x1002),
            NovaEndpointId::new(0x2002),
            NovaSharedMemoryRegionId::new(0x3002),
        ),
    );
    let backed = NovaServiceKernelLaunchPlan::new(
        descriptor,
        request,
        NovaServiceKernelBinding::kernel_backed(
            NovaServiceId::agentd(),
            NovaTaskId::new(0x1002),
            NovaEndpointId::new(0x2002),
            NovaSharedMemoryRegionId::new(0x3002),
            1,
        ),
    );

    assert!(planned.requires_kernel_launch());
    assert!(!backed.requires_kernel_launch());
}

#[test]
fn policy_request_can_target_service_or_bridge_scope() {
    let request = NovaPolicyRequest {
        subject_service: NovaServiceId::agentd(),
        subject_agent: NovaAgentId::init(),
        action: NovaPolicyAction::AppAction,
        scope: NovaPolicyScope::Service(NovaServiceId::appbridged()),
    };

    assert_eq!(request.action, NovaPolicyAction::AppAction);
    assert_eq!(request.scope, NovaPolicyScope::Service(NovaServiceId::appbridged()));
    assert_eq!(NovaPolicyDecision::Ask.as_raw(), 3);
}

#[test]
fn intent_projection_requests_track_empty_and_resolved_targets() {
    let unresolved_scene = NovaSceneSwitchRequest::unresolved(NovaAgentId::init(), NovaSceneId::root());
    let unresolved_app = NovaAppActionRequest::unresolved(NovaSceneId::root(), NovaAgentId::init(), NovaAppActionKind::Open);
    let status = NovaStatusRequest::new(NovaAgentId::init(), NovaSceneId::root(), NovaServiceId::shelld());

    assert!(!unresolved_scene.has_target());
    assert!(!unresolved_app.has_target_app());
    assert_eq!(status.target_service, NovaServiceId::shelld());
    assert!(NovaSceneSwitchRequest::new(NovaAgentId::init(), NovaSceneId::root(), NovaSceneId::new(4)).has_target());
}

#[test]
fn intent_projection_carries_typed_dispatch_payloads() {
    let launch = NovaServiceLaunchRequest::new(NovaServiceId::intentd(), NovaServiceId::agentd(), NovaSceneId::root(), 0);
    let projection = NovaIntentProjection::new(7, NovaServiceId::agentd(), NovaIntentDispatch::LaunchService(launch));

    assert_eq!(projection.intent_id, 7);
    assert_eq!(projection.target_service, NovaServiceId::agentd());
    assert_eq!(projection.dispatch_label(), "launch-service");
    assert_eq!(projection.dispatch, NovaIntentDispatch::LaunchService(launch));
}
