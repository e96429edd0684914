use novaos::boot_contract::{BootRecordMemory, BootstrapCapsuleSummary, KernelBringupState};
use novaos::bootinfo::NovaBootInfoV1;
use novaos::console::TextConsole;
use novaos::init_capsule::{encode_init_capsule_service_name, NovaInitCapsuleCapabilityV1};
use novaos::kernel::{
    architecture_name, kernel_identity, kernel_main, kernel_window, log_halt_reason, log_init_capsule_summary,
    kernel_stage0_entry, user_window, KernelContext, MemoryWindow,
};
use novaos::trace::{TraceBuffer, TraceEvent, TraceKind};

fn summary(payload: bool, from_v2: bool) -> BootstrapCapsuleSummary {
    BootstrapCapsuleSummary {
        service_name: encode_init_capsule_service_name("initd").expect("service name"),
        requested_capabilities: NovaInitCapsuleCapabilityV1::BootLog.as_raw(),
        endpoint_slots: 0,
        shared_memory_regions: 0,
        payload_body_present: payload,
        payload_image_base: if payload { 0x1000 } else { 0 },
        payload_image_size: if payload { 92 } else { 0 },
        payload_load_base: if payload { 0x1058 } else { 0 },
        payload_load_size: if payload { 4 } else { 0 },
        payload_entry_point: if payload { 0x1058 } else { 0 },
        payload_descriptor_from_boot_info_v2: from_v2,
    }
}

#[test]
fn kernel_identities_are_stable() {
    assert_eq!(architecture_name(), "arm64");
    assert_eq!(kernel_identity(), "NovaOS kernel");
}

#[test]
fn memory_windows_follow_boot_info() {
    let mut info = NovaBootInfoV1::new();
    info.memory_map_ptr = 0x8000;
    info.memory_map_entries = 4;
    info.memory_map_desc_size = 48;
    info.config_tables_ptr = 0x2000;
    info.config_table_count = 3;
    assert_eq!(kernel_window(&info), MemoryWindow { base: 0x8000, size: 192 });
    assert_eq!(user_window(&info), MemoryWindow { base: 0x2000, size: 3 });
    assert_eq!(MemoryWindow::empty(), MemoryWindow { base: 0, size: 0 });
}

#[test]
fn halt_reason_is_logged_after_the_halt_notice() {
    let mut console = TextConsole::new();
    log_halt_reason(&mut console, "kernel bring-up remains a scaffold");
    assert_eq!(console.as_str(), "[error] kernel halted\n[error] kernel bring-up remains a scaffold\n");
}

#[test]
fn capsule_summary_log_names_service_and_payload_source() {
    let mut console = TextConsole::new();
    log_init_capsule_summary(&mut console, summary(true, true));
    assert_eq!(
        console.as_str(),
        "[info] init capsule summary observed\n[info] init capsule service initd\n[info] bootstrap task current initd\n[info] bootstrap task image observed\n[info] bootstrap task launch plan from bootinfo_v2\n"
    );
    let mut console = TextConsole::new();
    log_init_capsule_summary(&mut console, summary(false, false));
    assert_eq!(
        console.as_str(),
        "[info] init capsule summary observed\n[info] init capsule service initd\n[info] bootstrap task current initd\n"
    );
}

#[test]
fn kernel_main_announces_the_transfer_of_a_launchable_capsule() {
    let info = NovaBootInfoV1::new();
    let mut bringup = KernelBringupState::empty();
    bringup.init_capsule = Some(summary(true, false));
    let mut console = TextConsole::new();
    let (state, dispatch, plan) = kernel_main(
        KernelContext { boot_info: &info, boot_info_v2: None, bringup: Some(bringup), console: &mut console },
        &BootRecordMemory::empty(),
    );
    assert_eq!(state, bringup);
    assert!(dispatch.current_task.is_some());
    assert_eq!(plan.expect("launch plan").entry_point, 0x1058);
    let text = console.as_str();
    assert!(text.starts_with("[info] NovaOS kernel bring-up\n[info] boot info parsed\n"));
    assert!(text.contains("[info] bootstrap task image staged\n"));
    assert!(text.ends_with("[info] bootstrap task transfer initd\n"));
}

#[test]
fn kernel_main_falls_back_to_the_empty_state_on_invalid_records() {
    let info = NovaBootInfoV1::empty();
    let mut console = TextConsole::new();
    let (state, dispatch, plan) = kernel_main(
        KernelContext { boot_info: &info, boot_info_v2: None, bringup: None, console: &mut console },
        &BootRecordMemory::empty(),
    );
    assert_eq!(state, KernelBringupState::empty());
    assert!(dispatch.current_task.is_none());
    assert!(plan.is_none());
    assert!(console.as_str().starts_with("[info] NovaOS kernel bring-up\n[warn] boot info marker is not set\n"));
}

#[test]
fn trace_buffer_wraps_round_its_slots() {
    let slot = TraceEvent::new(TraceKind::Boot, 0, 0);
    let mut buffer = TraceBuffer::new(vec![slot; 2]);
    buffer.record(TraceEvent::new(TraceKind::Memory, 1, 10));
    buffer.record(TraceEvent::new(TraceKind::Driver, 2, 20));
    buffer.record(TraceEvent::new(TraceKind::Panic, 3, 30));
    assert_eq!(buffer.cursor(), 3);
    assert_eq!(buffer.slots()[0], TraceEvent::new(TraceKind::Panic, 3, 30));
    assert_eq!(buffer.slots()[1], TraceEvent::new(TraceKind::Driver, 2, 20));
    let mut empty = TraceBuffer::new(Vec::new());
    empty.record(slot);
    assert_eq!(empty.cursor(), 0);
}

#[test]
fn stage0_entry_halts_on_each_invalid_record() {
    let memory = BootRecordMemory::empty();
    let mut markers = TextConsole::new();
    assert!(kernel_stage0_entry(&mut markers, None, None, &memory).is_none());
    let invalid = NovaBootInfoV1::empty();
    assert!(kernel_stage0_entry(&mut markers, Some(&invalid), None, &memory).is_none());
    let info = NovaBootInfoV1::new();
    let invalid_v2 = novaos::bootinfo_v2::NovaBootInfoV2::empty();
    assert!(kernel_stage0_entry(&mut markers, Some(&info), Some(&invalid_v2), &memory).is_none());
    assert!(kernel_stage0_entry(&mut markers, Some(&info), None, &memory).is_none());
    assert_eq!(
        markers.as_str(),
        "NovaOS kernel bootinfo invalid\n\
NovaOS kernel bootinfo invalid\n\
NovaOS kernel bootinfo_v2 invalid\n\
NovaOS kernel bootinfo_v2 ready\n\
NovaOS kernel bringup invalid\n"
    );
}

#[test]
fn trace_buffer_keeps_the_latest_events() {
    let slot = TraceEvent::new(TraceKind::Boot, 0, 0);
    let mut buffer = TraceBuffer::new(vec![slot; 3]);
    for code in 0..5u32 {
        buffer.record(TraceEvent::new(TraceKind::Scheduler, code, code as u64 * 10));
    }
    assert_eq!(buffer.cursor(), 5);
    assert_eq!(buffer.slots()[0], TraceEvent::new(TraceKind::Scheduler, 3, 30));
    assert_eq!(buffer.slots()[1], TraceEvent::new(TraceKind::Scheduler, 4, 40));
    assert_eq!(buffer.slots()[2], TraceEvent::new(TraceKind::Scheduler, 2, 20));

    let mut partial = TraceBuffer::new(vec![slot; 4]);
    partial.record(TraceEvent::new(TraceKind::Memory, 7, 70));
    assert_eq!(partial.slots()[0], TraceEvent::new(TraceKind::Memory, 7, 70));
    assert_eq!(partial.slots()[1], slot);
    assert_eq!(partial.slots()[3], slot);
}
