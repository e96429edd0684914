use novaos::initd::{
    core_launch_plan, core_launch_table, initd_boot_snapshot, initd_boot_status_page, initd_descriptor,
    initd_identity, initd_kernel_launch_plan_page, trace_probe_passed, InitKernelLaunchPlanPage,
    InitRuntimeStatusPage, InitServiceLaunchPlan, INITD_KERNEL_CALL_PROBE_VALUE0, INITD_KERNEL_CALL_PROBE_VALUE1,
};
use novaos::service::{
    NovaServiceBindingState, NovaServiceBootstrapRequirement, NovaServiceDescriptor, NovaServiceId, NovaServiceKind,
    NovaServiceLaunchSpec, NovaServiceLaunchStatus, NovaServiceState, NovaServiceStatus,
};
use novaos::syscall::NovaSyscallResultV1;

#[test]
fn init_launch_table_starts_policy_before_agents_and_intents() {
    let table = core_launch_table();
    assert_eq!(table.launch_request(0).expect("policyd").target, NovaServiceId::policyd());
    assert_eq!(table.launch_request(1).expect("agentd").target, NovaServiceId::agentd());
    assert_eq!(table.launch_request(4).expect("intentd").target, NovaServiceId::intentd());
    assert!(table.launch_request(8).is_none());
    assert_eq!(table.required_service_count(), 7);
}

#[test]
fn init_snapshot_reports_runtime_health() {
    let snapshot = initd_boot_snapshot();
    assert_eq!(snapshot.registered_service.id, NovaServiceId::initd());
    assert!(snapshot.healthy());
    assert!(snapshot.launch_service_count >= 7);
}

#[test]
fn init_status_page_reports_required_services_running() {
    let status_page = initd_boot_status_page();
    assert_eq!(status_page.registered_service.id, NovaServiceId::initd());
    assert!(status_page.healthy());
    assert_eq!(status_page.running_required_service_count(), 7);
    assert_eq!(status_page.status_for(NovaServiceId::policyd()).expect("policyd").state, NovaServiceState::Running);
}

#[test]
fn init_status_page_keeps_optional_shell_deferred() {
    let status = initd_boot_status_page().status_for(NovaServiceId::shelld()).expect("shelld");
    assert_eq!(status.state, NovaServiceState::NotStarted);
    assert_eq!(status.last_result.status, NovaServiceLaunchStatus::Deferred);
}

#[test]
fn init_status_page_is_unhealthy_when_a_required_service_stops() {
    let mut page = initd_boot_status_page();
    page.services[2] = NovaServiceStatus::deferred(page.services[2].descriptor, 9);
    assert!(!page.healthy());
    assert_eq!(page.running_required_service_count(), 6);
    let empty = InitRuntimeStatusPage { registered_service: initd_descriptor(), services: Vec::new(), health_generation: 0 };
    assert!(!empty.healthy());
    assert!(empty.status_for(NovaServiceId::policyd()).is_none());
}

#[test]
fn core_launch_specs_match_static_launch_order() {
    let table = core_launch_table();
    let plan = core_launch_plan();
    assert_eq!(table.service_count(), plan.service_count());
    for (index, service) in table.services.iter().enumerate() {
        assert_eq!(service.id, plan.specs[index].descriptor.id);
    }
}

#[test]
fn core_launch_plan_resolves_policyd_request_and_context() {
    let plan = core_launch_plan();
    let request = plan.launch_request_for(NovaServiceId::policyd()).expect("policyd request");
    let spec = plan.spec_for(NovaServiceId::policyd()).expect("policyd spec");
    let context = spec.bootstrap_context_v1().expect("bootstrap context");
    assert_eq!(request.requester, NovaServiceId::initd());
    assert_eq!(request.target, NovaServiceId::policyd());
    assert_eq!(context.service_name(), "policyd");
    assert_eq!(context.endpoint_slots, 1);
    assert_eq!(context.shared_memory_regions, 1);
    assert!(plan.launch_request_for(NovaServiceId::new(42)).is_none());
}

#[test]
fn core_launch_plan_keeps_optional_shell_model_only() {
    let status = initd_boot_status_page().status_for(NovaServiceId::shelld()).expect("shelld status");
    let kernel_plan = initd_kernel_launch_plan_page().plan_for(NovaServiceId::shelld()).expect("shelld kernel plan");
    assert_eq!(status.last_result.status, NovaServiceLaunchStatus::Deferred);
    assert_eq!(kernel_plan.binding.state, NovaServiceBindingState::ModelOnly);
    assert!(!kernel_plan.binding.has_kernel_objects());
}

#[test]
fn core_launch_plan_validates_unique_ids_and_order() {
    let plan = core_launch_plan();
    let kernel_plan = initd_kernel_launch_plan_page();
    assert!(plan.validate());
    assert_eq!(plan.required_service_count(), 7);
    assert!(kernel_plan.ready_for_kernel_handoff());
    assert_eq!(kernel_plan.planned_required_service_count(), 7);
    assert_eq!(kernel_plan.kernel_backed_service_count(), 0);
}

#[test]
fn launch_plan_validation_rejects_duplicates_disorder_and_emptiness() {
    let mut duplicated = core_launch_plan();
    duplicated.specs[3] = duplicated.specs[1];
    assert!(!duplicated.validate());
    let mut reordered = core_launch_plan();
    reordered.specs.swap(2, 5);
    assert!(!reordered.validate());
    assert!(!InitServiceLaunchPlan::new(Vec::new()).validate());
}

#[test]
fn kernel_plan_page_is_not_ready_without_every_required_binding() {
    let mut page = initd_kernel_launch_plan_page();
    page.plans[0].binding = novaos::service::NovaServiceKernelBinding::model_only(page.plans[0].descriptor.id);
    assert!(!page.ready_for_kernel_handoff());
    let empty = InitKernelLaunchPlanPage { registered_service: initd_descriptor(), plans: Vec::new(), generation: 0 };
    assert!(!empty.ready_for_kernel_handoff());
}

#[test]
fn initd_payload_identity_and_probe_check() {
    assert_eq!(initd_identity(), "NovaOS initd payload");
    let ok = NovaSyscallResultV1::ok(INITD_KERNEL_CALL_PROBE_VALUE0, INITD_KERNEL_CALL_PROBE_VALUE1);
    assert!(trace_probe_passed(ok, INITD_KERNEL_CALL_PROBE_VALUE0, INITD_KERNEL_CALL_PROBE_VALUE1));
    assert!(!trace_probe_passed(NovaSyscallResultV1::denied(), 0, 0));
}

#[test]
fn core_tables_list_each_service_in_launch_order() {
    let names = ["policyd", "agentd", "memd", "acceld", "intentd", "scened", "appbridged", "shelld"];
    let ids = [
        NovaServiceId::policyd(),
        NovaServiceId::agentd(),
        NovaServiceId::memd(),
        NovaServiceId::acceld(),
        NovaServiceId::intentd(),
        NovaServiceId::scened(),
        NovaServiceId::appbridged(),
        NovaServiceId::shelld(),
    ];
    let table = core_launch_table();
    let plan = core_launch_plan();
    let page = initd_kernel_launch_plan_page();
    for i in 0..8 {
        assert_eq!(table.services[i].name, names[i]);
        assert_eq!(table.services[i].id, ids[i]);
        assert_eq!(table.services[i].launch_order, 10 * (i as u16 + 1));
        assert_eq!(table.services[i].required, i < 7);
        assert_eq!(plan.specs[i].descriptor, table.services[i]);
        assert_eq!(page.plans[i].descriptor, table.services[i]);
        assert_eq!(page.plans[i].request.requester, NovaServiceId::initd());
        assert_eq!(page.plans[i].request.target, ids[i]);
    }
    assert_eq!(plan.specs[0].bootstrap.requested_capabilities, 0xF);
    assert_eq!(plan.specs[7].bootstrap.requested_capabilities, 1);
    assert_eq!(page.plans[1].binding.task.0, 0x1002);
    assert_eq!(page.plans[1].binding.control_endpoint.0, 0x2002);
    assert_eq!(page.plans[1].binding.shared_memory_region.0, 0x3002);
    assert_eq!(page.plans[1].binding.state, NovaServiceBindingState::Planned);
    let shell = initd_boot_status_page().status_for(NovaServiceId::shelld()).expect("shelld");
    assert_eq!(shell.last_result.detail, 1);
    assert_eq!(shell.last_result.target, NovaServiceId::shelld());
}

fn service_owned_launch_specs() -> Vec<NovaServiceLaunchSpec> {
    let core = NovaServiceBootstrapRequirement::core_required();
    let spec = |id: NovaServiceId, name: &'static str, kind: NovaServiceKind, required: bool, order: u16| {
        let bootstrap = if required { core } else { NovaServiceBootstrapRequirement::boot_log_only() };
        NovaServiceLaunchSpec::new(NovaServiceDescriptor::new(id, name, kind, required, order), bootstrap)
    };
    vec![
        spec(NovaServiceId::policyd(), "policyd", NovaServiceKind::Core, true, 10),
        spec(NovaServiceId::agentd(), "agentd", NovaServiceKind::Core, true, 20),
        spec(NovaServiceId::memd(), "memd", NovaServiceKind::Core, true, 30),
        spec(NovaServiceId::acceld(), "acceld", NovaServiceKind::Core, true, 40),
        spec(NovaServiceId::intentd(), "intentd", NovaServiceKind::Interaction, true, 50),
        spec(NovaServiceId::scened(), "scened", NovaServiceKind::Interaction, true, 60),
        spec(NovaServiceId::appbridged(), "appbridged", NovaServiceKind::Bridge, true, 70),
        spec(NovaServiceId::shelld(), "shelld", NovaServiceKind::Operator, false, 80),
    ]
}

#[test]
fn core_launch_specs_are_service_owned() {
    let plan = core_launch_plan();
    assert_eq!(plan.specs, service_owned_launch_specs());
}
