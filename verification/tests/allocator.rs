use novaos::allocator::{
    BootstrapEl0BackingFramePlan, BootstrapEl0BackingFrameReadiness, BootstrapEl0BackingFrameRequest, FrameAllocatorPlan,
};
use novaos::bootinfo::NovaBootInfoV1;
use novaos::bootinfo_v2::{NovaBootInfoV2, NovaBootstrapFrameArenaDescriptorV1};
use novaos::mmu::{BootstrapEl0MappingPlan, BootstrapEl0MappingReadiness, BootstrapEl0MappingRequest, PageTablePlan};

fn ready_mapping_plan() -> BootstrapEl0MappingPlan {
    let page_tables = PageTablePlan { kernel_base: 0, kernel_size: 0, user_base: 0x4000_0000, user_size: 0x20_000, user_stack_size: 0 };
    page_tables.bootstrap_el0_mapping_plan(BootstrapEl0MappingRequest::new(0x8020_0098, 0x1234, 0x8020_00A0, 0x8100_0000, 96, 0x8000))
}

#[test]
fn bootstrap_el0_backing_frame_plan_carves_image_context_and_stack_frames() {
    let mapping = ready_mapping_plan();
    let backing = BootstrapEl0BackingFramePlan::from_mapping_plan(mapping, BootstrapEl0BackingFrameRequest::new(0x9000_0000, 0x20_000));

    assert!(backing.ready());
    assert_eq!(backing.readiness, BootstrapEl0BackingFrameReadiness::Ready);
    assert_eq!(backing.source_readiness, BootstrapEl0MappingReadiness::Ready);
    assert_eq!(backing.image_phys_base, 0x9000_0000);
    assert_eq!(backing.image_size, 0x2000);
    assert_eq!(backing.context_phys_base, 0x9000_2000);
    assert_eq!(backing.context_size, 0x1000);
    assert_eq!(backing.stack_phys_base, 0x9000_3000);
    assert_eq!(backing.stack_size, 0x8000);
    assert_eq!(backing.total_size, 0xB000);

    let page_tables = mapping.page_table_plan(backing.page_table_request(0x1000_0000, 0x5000));
    assert!(page_tables.ready());
    assert_eq!(page_tables.user_image_mapping.phys_base, backing.image_phys_base);
    assert_eq!(page_tables.user_context_mapping.phys_base, backing.context_phys_base);
    assert_eq!(page_tables.user_stack_mapping.phys_base, backing.stack_phys_base);
    assert_eq!(page_tables.root_table_phys_base, 0x9000_B000);
}

#[test]
fn bootstrap_el0_backing_frame_plan_refuses_unready_mapping_plan() {
    let page_tables = PageTablePlan { kernel_base: 0, kernel_size: 0, user_base: 0x2000, user_size: 3, user_stack_size: 0 };
    let mapping = page_tables.bootstrap_el0_mapping_plan(BootstrapEl0MappingRequest::new(0x8020_0098, 4, 0x8020_0098, 0x8100_0000, 96, 0x4000));

    let backing = BootstrapEl0BackingFramePlan::from_mapping_plan(mapping, BootstrapEl0BackingFrameRequest::new(0x9000_0000, 0x20_000));

    assert_eq!(backing.readiness, BootstrapEl0BackingFrameReadiness::MappingPlanNotReady);
    assert_eq!(backing.source_readiness, BootstrapEl0MappingReadiness::UnalignedUserWindow);
}

#[test]
fn bootstrap_el0_backing_frame_plan_rejects_unaligned_arena() {
    let backing = BootstrapEl0BackingFramePlan::from_mapping_plan(ready_mapping_plan(), BootstrapEl0BackingFrameRequest::new(0x9000_0001, 0x20_000));

    assert_eq!(backing.readiness, BootstrapEl0BackingFrameReadiness::UnalignedArena);
}

#[test]
fn bootstrap_el0_backing_frame_plan_rejects_small_arena() {
    let backing = BootstrapEl0BackingFramePlan::from_mapping_plan(ready_mapping_plan(), BootstrapEl0BackingFrameRequest::new(0x9000_0000, 0xA000));

    assert_eq!(backing.readiness, BootstrapEl0BackingFrameReadiness::ArenaTooSmall);
    assert_eq!(backing.readiness.label(), "arena-too-small");
}

#[test]
fn bootstrap_el0_backing_frame_plan_rejects_missing_and_overflowing_arena() {
    let missing = BootstrapEl0BackingFramePlan::from_mapping_plan(ready_mapping_plan(), BootstrapEl0BackingFrameRequest::new(0, 0x20_000));
    assert_eq!(missing.readiness, BootstrapEl0BackingFrameReadiness::MissingArena);
    let overflow = BootstrapEl0BackingFramePlan::from_mapping_plan(ready_mapping_plan(), BootstrapEl0BackingFrameRequest::new(0xFFFF_FFFF_FFFF_F000, 0x2000));
    assert_eq!(overflow.readiness, BootstrapEl0BackingFrameReadiness::ArenaAddressOverflow);
}

#[test]
fn frame_allocator_plan_records_bootinfo_v2_arena() {
    let mut boot_info = NovaBootInfoV1::new();
    boot_info.init_capsule_ptr = 0x5000;
    boot_info.init_capsule_len = 0x6000;
    boot_info.loader_log_ptr = 0x100;
    let v1 = FrameAllocatorPlan::from_boot_info(&boot_info);
    assert_eq!(
        v1,
        FrameAllocatorPlan {
            usable_base: 0x5000,
            usable_limit: 0x6000,
            reserved_bytes: 0x100,
            bootstrap_el0_arena_base: 0,
            bootstrap_el0_arena_size: 0,
        }
    );
    let mut v2 = NovaBootInfoV2::new();
    assert_eq!(FrameAllocatorPlan::from_boot_info_with_v2(&boot_info, Some(&v2)), v1);
    v2.bootstrap_frame_arena = NovaBootstrapFrameArenaDescriptorV1 { base: 0x9000_0000, len: 0x20_000, page_size: 4096, flags: 0 };
    let plan = FrameAllocatorPlan::from_boot_info_with_v2(&boot_info, Some(&v2));
    assert_eq!(plan.usable_base, 0x5000);
    assert_eq!(plan.usable_limit, 0x6000);
    assert_eq!(plan.reserved_bytes, 0x100);
    assert_eq!(plan.bootstrap_el0_arena_base, 0x9000_0000);
    assert_eq!(plan.bootstrap_el0_arena_size, 0x20_000);
    assert_eq!(FrameAllocatorPlan::empty().usable_limit, 0);
}
