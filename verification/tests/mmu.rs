use novaos::bootinfo::NovaBootInfoV1;
use novaos::bootinfo_v2::{NovaBootInfoV2, NovaBootstrapUserWindowDescriptorV1};
use novaos::mmu::{
    construct_bootstrap_el0_page_tables, l0_index, l1_index, l2_index, l3_index, page_descriptor,
    populate_bootstrap_el0_backing_frames, table_descriptor, table_entry_offset, Arm64AccessPerm,
    Arm64MemoryAttr, BootstrapEl0BackingFramePopulationReadiness, BootstrapEl0MappingPlan,
    BootstrapEl0MappingReadiness, BootstrapEl0MappingRequest, BootstrapEl0PageTableConstructionReadiness,
    BootstrapEl0PageTablePlan, BootstrapEl0PageTableReadiness, BootstrapEl0PageTableRequest, PageTablePlan,
    BOOTSTRAP_EL0_TRANSLATION_TABLE_BYTES, BOOTSTRAP_EL0_TRANSLATION_TABLE_ENTRIES, DESCRIPTOR_NG,
    DESCRIPTOR_PXN, DESCRIPTOR_UXN, KERNEL_L2_TABLE_INDEX, L1_TABLE_INDEX, PAGE_SIZE, ROOT_TABLE_INDEX,
    USER_L2_TABLE_INDEX, USER_L3_TABLE_INDEX,
};

#[test]
fn page_table_plan_prefers_valid_bootinfo_v2_bootstrap_user_window() {
    let mut boot_info = NovaBootInfoV1::new();
    boot_info.memory_map_ptr = 0x1000;
    boot_info.memory_map_entries = 4;
    boot_info.memory_map_desc_size = 48;
    boot_info.config_tables_ptr = 0x2000;
    boot_info.config_table_count = 3;
    let mut boot_info_v2 = NovaBootInfoV2::new();
    boot_info_v2.bootstrap_user_window = NovaBootstrapUserWindowDescriptorV1 {
        base: 0x4000_0000,
        len: 0x20_000,
        stack_size: 0x8000,
        page_size: NovaBootstrapUserWindowDescriptorV1::PAGE_SIZE_4K,
        flags: 0,
    };

    let plan = PageTablePlan::from_boot_info_with_v2(&boot_info, Some(&boot_info_v2));

    assert_eq!(plan.kernel_base, 0x1000);
    assert_eq!(plan.kernel_size, 4 * 48);
    assert_eq!(plan.user_base, 0x4000_0000);
    assert_eq!(plan.user_size, 0x20_000);
    assert_eq!(plan.user_stack_size, 0x8000);
}

#[test]
fn page_table_plan_keeps_v1_placeholder_when_bootinfo_v2_window_is_empty() {
    let mut boot_info = NovaBootInfoV1::new();
    boot_info.config_tables_ptr = 0x2000;
    boot_info.config_table_count = 3;
    let boot_info_v2 = NovaBootInfoV2::new();

    let plan = PageTablePlan::from_boot_info_with_v2(&boot_info, Some(&boot_info_v2));

    assert_eq!(plan.user_base, 0x2000);
    assert_eq!(plan.user_size, 3);
    assert_eq!(plan.user_stack_size, 0);
}

#[test]
fn page_table_plan_without_sidecar_uses_v1_windows() {
    let mut boot_info = NovaBootInfoV1::new();
    boot_info.config_tables_ptr = 0x7000;
    boot_info.config_table_count = 9;
    let plan = PageTablePlan::from_boot_info_with_v2(&boot_info, None);
    assert_eq!(plan, PageTablePlan::from_boot_info(&boot_info));
    assert_eq!(plan.user_base, 0x7000);
    assert_eq!(PageTablePlan::empty().user_base, 0);
}

#[test]
fn bootstrap_el0_mapping_plan_rebases_unaligned_payload_source_into_user_window() {
    let page_tables = PageTablePlan {
        kernel_base: 0,
        kernel_size: 0,
        user_base: 0x4000_0000,
        user_size: 0x20_000,
        user_stack_size: 0,
    };
    let request = BootstrapEl0MappingRequest::new(0x8020_0098, 0x1234, 0x8020_00A0, 0x8100_0000, 96, 0x8000);

    let plan = page_tables.bootstrap_el0_mapping_plan(request);

    assert!(plan.ready());
    assert_eq!(plan.readiness, BootstrapEl0MappingReadiness::Ready);
    assert_eq!(plan.payload_source_map_base, 0x8020_0000);
    assert_eq!(plan.payload_source_map_size, PAGE_SIZE * 2);
    assert_eq!(plan.user_image_base, 0x4000_0000);
    assert_eq!(plan.user_image_size, PAGE_SIZE * 2);
    assert_eq!(plan.user_entry_point, 0x4000_0008);
    assert_eq!(plan.context_source_base, 0x8100_0000);
    assert_eq!(plan.context_source_size, 96);
    assert_eq!(plan.user_context_base, 0x4000_2000);
    assert_eq!(plan.user_context_size, PAGE_SIZE);
    assert_eq!(plan.user_stack_base, 0x4001_8000);
    assert_eq!(plan.user_stack_size, 0x8000);
}

#[test]
fn bootstrap_el0_mapping_plan_rejects_placeholder_bootinfo_user_window() {
    let page_tables = PageTablePlan { kernel_base: 0, kernel_size: 0, user_base: 0x2000, user_size: 3, user_stack_size: 0 };
    let request = BootstrapEl0MappingRequest::new(0x8020_0098, 4, 0x8020_0098, 0x8100_0000, 96, 0x4000);

    let plan = page_tables.bootstrap_el0_mapping_plan(request);

    assert_eq!(plan.readiness, BootstrapEl0MappingReadiness::UnalignedUserWindow);
}

#[test]
fn bootstrap_el0_mapping_plan_rejects_entry_outside_payload() {
    let page_tables = PageTablePlan {
        kernel_base: 0,
        kernel_size: 0,
        user_base: 0x4000_0000,
        user_size: 0x20_000,
        user_stack_size: 0,
    };
    let request = BootstrapEl0MappingRequest::new(0x8020_0000, 0x1000, 0x8020_1000, 0x8100_0000, 96, 0x4000);

    let plan = page_tables.bootstrap_el0_mapping_plan(request);

    assert_eq!(plan.readiness, BootstrapEl0MappingReadiness::EntryOutsidePayload);
}

#[test]
fn bootstrap_el0_mapping_plan_rejects_user_window_without_stack_room() {
    let page_tables = PageTablePlan {
        kernel_base: 0,
        kernel_size: 0,
        user_base: 0x4000_0000,
        user_size: 0x4000,
        user_stack_size: 0,
    };
    let request = BootstrapEl0MappingRequest::new(0x8020_0000, 0x3000, 0x8020_0000, 0x8100_0000, 96, 0x1000);

    let plan = page_tables.bootstrap_el0_mapping_plan(request);

    assert_eq!(plan.readiness, BootstrapEl0MappingReadiness::UserWindowTooSmall);
}

#[test]
fn bootstrap_el0_mapping_plan_reports_each_missing_input() {
    let window = PageTablePlan { kernel_base: 0, kernel_size: 0, user_base: 0x4000_0000, user_size: 0x20_000, user_stack_size: 0 };
    let missing = PageTablePlan { user_base: 0, ..window };
    let req = BootstrapEl0MappingRequest::new(0x8020_0000, 0x1000, 0x8020_0000, 0x8100_0000, 96, 0x1000);
    assert_eq!(missing.bootstrap_el0_mapping_plan(req).readiness, BootstrapEl0MappingReadiness::MissingUserWindow);
    let overflow = PageTablePlan { user_base: u64::MAX - 0xfff, ..window };
    assert_eq!(overflow.bootstrap_el0_mapping_plan(req).readiness, BootstrapEl0MappingReadiness::UserWindowAddressOverflow);
    let empty = BootstrapEl0MappingRequest { payload_size: 0, ..req };
    assert_eq!(window.bootstrap_el0_mapping_plan(empty).readiness, BootstrapEl0MappingReadiness::EmptyPayload);
    let no_context = BootstrapEl0MappingRequest { context_size: 0, ..req };
    assert_eq!(window.bootstrap_el0_mapping_plan(no_context).readiness, BootstrapEl0MappingReadiness::MissingContext);
    let no_stack = BootstrapEl0MappingRequest { user_stack_size: 0, ..req };
    assert_eq!(window.bootstrap_el0_mapping_plan(no_stack).readiness, BootstrapEl0MappingReadiness::EmptyUserStack);
    assert_eq!(BootstrapEl0MappingReadiness::UserWindowTooSmall.label(), "user-window-too-small");
    assert_eq!(BootstrapEl0MappingReadiness::Ready.label(), "ready");
}

#[test]
fn bootstrap_el0_page_table_plan_builds_copy_based_user_mappings() {
    let mapping = ready_bootstrap_el0_mapping_plan();
    let request = BootstrapEl0PageTableRequest::new(
        0x1000_0000,
        0x5000,
        0x9000_0000,
        0x9000_2000,
        0x9000_3000,
        0x9000_B000,
        BOOTSTRAP_EL0_TRANSLATION_TABLE_BYTES,
    );

    let plan = mapping.page_table_plan(request);

    assert!(plan.ready());
    assert_eq!(plan.readiness, BootstrapEl0PageTableReadiness::Ready);
    assert_eq!(plan.source_readiness, BootstrapEl0MappingReadiness::Ready);
    assert_eq!(plan.payload_copy_source_base, 0x8020_0098);
    assert_eq!(plan.payload_copy_source_size, 0x1234);
    assert_eq!(plan.context_copy_source_base, 0x8100_0000);
    assert_eq!(plan.context_copy_source_size, 96);
    assert_ne!(plan.user_image_mapping.phys_base, mapping.payload_source_map_base);
    assert_eq!(plan.kernel_mapping.virt_base, 0x1000_0000);
    assert_eq!(plan.kernel_mapping.phys_base, 0x1000_0000);
    assert_eq!(plan.kernel_mapping.size, 0x5000);
    assert_eq!(plan.kernel_mapping.access, Arm64AccessPerm::KernelReadWrite);
    assert!(!plan.kernel_mapping.execute_never);
    assert_eq!(plan.user_image_mapping.virt_base, mapping.user_image_base);
    assert_eq!(plan.user_image_mapping.phys_base, 0x9000_0000);
    assert_eq!(plan.user_image_mapping.size, mapping.user_image_size);
    assert_eq!(plan.user_image_mapping.access, Arm64AccessPerm::UserReadExecute);
    assert!(!plan.user_image_mapping.execute_never);
    assert_eq!(plan.user_context_mapping.virt_base, mapping.user_context_base);
    assert_eq!(plan.user_context_mapping.phys_base, 0x9000_2000);
    assert_eq!(plan.user_context_mapping.access, Arm64AccessPerm::UserReadOnly);
    assert!(plan.user_context_mapping.execute_never);
    assert_eq!(plan.user_stack_mapping.virt_base, mapping.user_stack_base);
    assert_eq!(plan.user_stack_mapping.phys_base, 0x9000_3000);
    assert_eq!(plan.user_stack_mapping.access, Arm64AccessPerm::UserReadWrite);
    assert!(plan.user_stack_mapping.execute_never);
    assert_eq!(plan.user_stack_mapping.attr, Arm64MemoryAttr::NormalCached);
    assert!(plan.kernel_mapping.is_page_aligned());
    assert!(plan.user_image_mapping.is_page_aligned());
    assert!(plan.user_context_mapping.is_page_aligned());
    assert!(plan.user_stack_mapping.is_page_aligned());
    assert_eq!(plan.page_table_phys_base, 0x9000_B000);
    assert_eq!(plan.page_table_bytes, BOOTSTRAP_EL0_TRANSLATION_TABLE_BYTES);
    assert_eq!(plan.root_table_phys_base, 0x9000_B000);
    assert_eq!(plan.l1_table_phys_base, 0x9000_C000);
    assert_eq!(plan.kernel_l2_table_phys_base, 0x9000_D000);
    assert_eq!(plan.kernel_l3_table_phys_base, 0x9000_E000);
    assert_eq!(plan.user_l2_table_phys_base, 0x9000_F000);
    assert_eq!(plan.user_l3_table_phys_base, 0x9001_0000);
}

#[test]
fn bootstrap_el0_page_table_construction_writes_translation_tables() {
    let plan = ready_bootstrap_el0_page_table_plan();
    let mut entries = [u64::MAX; BOOTSTRAP_EL0_TRANSLATION_TABLE_ENTRIES];

    let construction = construct_bootstrap_el0_page_tables(plan, &mut entries);

    assert!(construction.ready());
    assert_eq!(construction.readiness, BootstrapEl0PageTableConstructionReadiness::Ready);
    assert_eq!(construction.source_readiness, BootstrapEl0PageTableReadiness::Ready);
    assert_eq!(construction.root_table_phys_base, plan.root_table_phys_base);
    assert_eq!(construction.page_table_bytes, plan.page_table_bytes);
    assert_eq!(construction.mapped_pages, 16);
    assert_eq!(
        entries[table_entry_offset(ROOT_TABLE_INDEX, l0_index(plan.user_image_mapping.virt_base))],
        table_descriptor(plan.l1_table_phys_base)
    );
    assert_eq!(
        entries[table_entry_offset(L1_TABLE_INDEX, l1_index(plan.kernel_mapping.virt_base))],
        table_descriptor(plan.kernel_l2_table_phys_base)
    );
    assert_eq!(
        entries[table_entry_offset(L1_TABLE_INDEX, l1_index(plan.user_image_mapping.virt_base))],
        table_descriptor(plan.user_l2_table_phys_base)
    );
    assert_eq!(
        entries[table_entry_offset(KERNEL_L2_TABLE_INDEX, l2_index(plan.kernel_mapping.virt_base))],
        table_descriptor(plan.kernel_l3_table_phys_base)
    );
    assert_eq!(
        entries[table_entry_offset(USER_L2_TABLE_INDEX, l2_index(plan.user_image_mapping.virt_base))],
        table_descriptor(plan.user_l3_table_phys_base)
    );

    let image_entry = entries[table_entry_offset(USER_L3_TABLE_INDEX, l3_index(plan.user_image_mapping.virt_base))];
    assert_eq!(image_entry, page_descriptor(plan.user_image_mapping, plan.user_image_mapping.phys_base));
    assert_ne!(image_entry & DESCRIPTOR_NG, 0);
    assert_ne!(image_entry & DESCRIPTOR_PXN, 0);
    assert_eq!(image_entry & DESCRIPTOR_UXN, 0);

    let context_entry = entries[table_entry_offset(USER_L3_TABLE_INDEX, l3_index(plan.user_context_mapping.virt_base))];
    assert_eq!(context_entry, page_descriptor(plan.user_context_mapping, plan.user_context_mapping.phys_base));
    assert_ne!(context_entry & DESCRIPTOR_PXN, 0);
    assert_ne!(context_entry & DESCRIPTOR_UXN, 0);

    let stack_entry = entries[table_entry_offset(USER_L3_TABLE_INDEX, l3_index(plan.user_stack_mapping.virt_base))];
    assert_eq!(stack_entry, page_descriptor(plan.user_stack_mapping, plan.user_stack_mapping.phys_base));
    assert_eq!((stack_entry >> 6) & 0b11, 0b01);
}

#[test]
fn bootstrap_el0_page_table_construction_exact_descriptor_values() {
    assert_eq!(table_descriptor(0x9000_C123), 0x9000_C003);
    let kernel = novaos::mmu::Arm64PageMapping::new(
        0x1000_0000,
        0x1000_0000,
        0x1000,
        Arm64MemoryAttr::NormalCached,
        Arm64AccessPerm::KernelReadWrite,
        false,
    );
    assert_eq!(page_descriptor(kernel, 0x1000_0000), 0x1000_0000 | 0x3 | 0x300 | 0x400);
    let plan = ready_bootstrap_el0_page_table_plan();
    let mut entries = vec![7u64; BOOTSTRAP_EL0_TRANSLATION_TABLE_ENTRIES + 4];
    let construction = construct_bootstrap_el0_page_tables(plan, &mut entries);
    assert!(construction.ready());
    assert_eq!(&entries[BOOTSTRAP_EL0_TRANSLATION_TABLE_ENTRIES..], &[7, 7, 7, 7]);
    let not_ready = BootstrapEl0PageTablePlan { readiness: BootstrapEl0PageTableReadiness::MissingKernelMapping, ..plan };
    let mut untouched = vec![9u64; BOOTSTRAP_EL0_TRANSLATION_TABLE_ENTRIES];
    let refused = construct_bootstrap_el0_page_tables(not_ready, &mut untouched);
    assert_eq!(refused.readiness, BootstrapEl0PageTableConstructionReadiness::PageTablePlanNotReady);
    assert!(untouched.iter().all(|e| *e == 9));
}

#[test]
fn bootstrap_el0_page_table_plan_rejects_small_table_arena() {
    let mapping = ready_bootstrap_el0_mapping_plan();
    let request = BootstrapEl0PageTableRequest::new(
        0x1000_0000,
        0x5000,
        0x9000_0000,
        0x9000_2000,
        0x9000_3000,
        0x9000_B000,
        BOOTSTRAP_EL0_TRANSLATION_TABLE_BYTES - PAGE_SIZE,
    );

    let plan = mapping.page_table_plan(request);

    assert_eq!(plan.readiness, BootstrapEl0PageTableReadiness::PageTableArenaTooSmall);
}

#[test]
fn bootstrap_el0_page_table_construction_refuses_short_output_buffer() {
    let plan = ready_bootstrap_el0_page_table_plan();
    let mut entries = [0; BOOTSTRAP_EL0_TRANSLATION_TABLE_ENTRIES - 1];

    let construction = construct_bootstrap_el0_page_tables(plan, &mut entries);

    assert_eq!(construction.readiness, BootstrapEl0PageTableConstructionReadiness::OutputBufferTooSmall);
    assert_eq!(construction.source_readiness, BootstrapEl0PageTableReadiness::Ready);
}

#[test]
fn bootstrap_el0_backing_frame_population_copies_payload_context_and_zeros_padding() {
    let plan = ready_bootstrap_el0_page_table_plan();
    let payload_source = [0x5a; 0x1234];
    let context_source = [0xc3; 96];
    let mut image_frame = [0xaa; 0x2000];
    let mut context_frame = [0xbb; 0x1000];
    let mut stack_frame = [0xcc; 0x8000];

    let population = populate_bootstrap_el0_backing_frames(
        plan,
        &payload_source,
        &context_source,
        &mut image_frame,
        &mut context_frame,
        &mut stack_frame,
    );

    assert!(population.ready());
    assert_eq!(population.readiness, BootstrapEl0BackingFramePopulationReadiness::Ready);
    assert_eq!(population.payload_bytes, 0x1234);
    assert_eq!(population.context_bytes, 96);
    assert_eq!(population.zeroed_bytes, 0x8000 + 0x2000 - 0x1234 + 0x1000 - 96);
    assert_eq!(&image_frame[..0x1234], &payload_source);
    assert!(image_frame[0x1234..].iter().all(|byte| *byte == 0));
    assert_eq!(&context_frame[..96], &context_source);
    assert!(context_frame[96..].iter().all(|byte| *byte == 0));
    assert!(stack_frame.iter().all(|byte| *byte == 0));
}

#[test]
fn bootstrap_el0_backing_frame_population_rejects_short_payload_source() {
    let plan = ready_bootstrap_el0_page_table_plan();
    let payload_source = [0x5a; 0x1233];
    let context_source = [0xc3; 96];
    let mut image_frame = [0xaa; 0x2000];
    let mut context_frame = [0xbb; 0x1000];
    let mut stack_frame = [0xcc; 0x8000];

    let population = populate_bootstrap_el0_backing_frames(
        plan,
        &payload_source,
        &context_source,
        &mut image_frame,
        &mut context_frame,
        &mut stack_frame,
    );

    assert_eq!(population.readiness, BootstrapEl0BackingFramePopulationReadiness::PayloadSourceTooSmall);
    assert!(image_frame.iter().all(|byte| *byte == 0xaa));
}

#[test]
fn bootstrap_el0_backing_frame_population_rejects_each_short_frame() {
    let plan = ready_bootstrap_el0_page_table_plan();
    let payload_source = [0x5a; 0x1234];
    let context_source = [0xc3; 96];
    let mut image_frame = [0xaa; 0x2000];
    let mut small_image = [0xaa; 0x1000];
    let mut context_frame = [0xbb; 0x1000];
    let mut stack_frame = [0xcc; 0x8000];
    let mut small_stack = [0xcc; 0x10];
    let r = populate_bootstrap_el0_backing_frames(
        plan, &payload_source, &context_source[..10], &mut image_frame, &mut context_frame, &mut stack_frame,
    );
    assert_eq!(r.readiness, BootstrapEl0BackingFramePopulationReadiness::ContextSourceTooSmall);
    let r = populate_bootstrap_el0_backing_frames(
        plan, &payload_source, &context_source, &mut small_image, &mut context_frame, &mut stack_frame,
    );
    assert_eq!(r.readiness, BootstrapEl0BackingFramePopulationReadiness::ImageFrameTooSmall);
    let r = populate_bootstrap_el0_backing_frames(
        plan, &payload_source, &context_source, &mut image_frame, &mut context_frame, &mut small_stack,
    );
    assert_eq!(r.readiness, BootstrapEl0BackingFramePopulationReadiness::StackFrameTooSmall);
    assert_eq!(r.readiness.label(), "stack-frame-too-small");
}

#[test]
fn bootstrap_el0_page_table_plan_refuses_unready_mapping_plan() {
    let page_tables = PageTablePlan { kernel_base: 0, kernel_size: 0, user_base: 0x2000, user_size: 3, user_stack_size: 0 };
    let mapping = page_tables.bootstrap_el0_mapping_plan(BootstrapEl0MappingRequest::new(
        0x8020_0098,
        4,
        0x8020_0098,
        0x8100_0000,
        96,
        0x4000,
    ));
    let request = BootstrapEl0PageTableRequest::new(
        0x1000_0000,
        0x5000,
        0x9000_0000,
        0x9000_1000,
        0x9000_2000,
        0x9000_B000,
        BOOTSTRAP_EL0_TRANSLATION_TABLE_BYTES,
    );

    let plan = mapping.page_table_plan(request);

    assert_eq!(plan.readiness, BootstrapEl0PageTableReadiness::MappingPlanNotReady);
    assert_eq!(plan.source_readiness, BootstrapEl0MappingReadiness::UnalignedUserWindow);
}

#[test]
fn bootstrap_el0_page_table_plan_rejects_unaligned_physical_mapping() {
    let mapping = ready_bootstrap_el0_mapping_plan();
    let request = BootstrapEl0PageTableRequest::new(
        0x1000_0000,
        0x5000,
        0x9000_0001,
        0x9000_2000,
        0x9000_3000,
        0x9000_B000,
        BOOTSTRAP_EL0_TRANSLATION_TABLE_BYTES,
    );

    let plan = mapping.page_table_plan(request);

    assert_eq!(plan.readiness, BootstrapEl0PageTableReadiness::UnalignedMapping);
    assert_eq!(plan.readiness.label(), "unaligned-mapping");
}

fn ready_bootstrap_el0_mapping_plan() -> BootstrapEl0MappingPlan {
    let page_tables = PageTablePlan {
        kernel_base: 0,
        kernel_size: 0,
        user_base: 0x4000_0000,
        user_size: 0x20_000,
        user_stack_size: 0,
    };
    page_tables.bootstrap_el0_mapping_plan(BootstrapEl0MappingRequest::new(
        0x8020_0098,
        0x1234,
        0x8020_00A0,
        0x8100_0000,
        96,
        0x8000,
    ))
}

fn ready_bootstrap_el0_page_table_plan() -> BootstrapEl0PageTablePlan {
    ready_bootstrap_el0_mapping_plan().page_table_plan(BootstrapEl0PageTableRequest::new(
        0x1000_0000,
        0x5000,
        0x9000_0000,
        0x9000_2000,
        0x9000_3000,
        0x9000_B000,
        BOOTSTRAP_EL0_TRANSLATION_TABLE_BYTES,
    ))
}
