use novaos::allocator::FrameAllocatorPlan;
use novaos::boot_contract::BootstrapTaskLaunchPlan;
use novaos::bootstrap_el0::{log_bootstrap_el0_population, plan_bootstrap_el0_boundary};
use novaos::console::TextConsole;
use novaos::mmu::{
    BootstrapEl0BackingFramePopulation, BootstrapEl0BackingFramePopulationReadiness, BootstrapEl0PageTableReadiness,
    PageTablePlan,
};

fn launch_plan() -> BootstrapTaskLaunchPlan {
    BootstrapTaskLaunchPlan {
        service_name: *b"initd\0\0\0\0\0\0\0\0\0\0\0",
        image_base: 0x8020_0000,
        image_size: 0x2000,
        load_base: 0x8020_0098,
        load_size: 0x1234,
        entry_point: 0x8020_00A0,
    }
}

fn page_tables() -> PageTablePlan {
    PageTablePlan {
        kernel_base: 0x1000_0000,
        kernel_size: 0x5000,
        user_base: 0x4000_0000,
        user_size: 0x20_000,
        user_stack_size: 0x8000,
    }
}

fn allocator(arena_base: u64) -> FrameAllocatorPlan {
    FrameAllocatorPlan {
        usable_base: 0,
        usable_limit: 0,
        reserved_bytes: 0,
        bootstrap_el0_arena_base: arena_base,
        bootstrap_el0_arena_size: 0x20_000,
    }
}

#[test]
fn el0_boundary_plans_tables_in_the_arena() {
    let mut console = TextConsole::new();
    let plan = plan_bootstrap_el0_boundary(&mut console, launch_plan(), Some(0x8100_0000), page_tables(), allocator(0x9000_0000))
        .expect("page-table plan");
    assert_eq!(plan.readiness, BootstrapEl0PageTableReadiness::Ready);
    assert_eq!(plan.user_image_mapping.phys_base, 0x9000_0000);
    assert_eq!(plan.context_copy_source_base, 0x8100_0000);
    assert_eq!(plan.context_copy_source_size, 56);
    assert_eq!(
        console.as_str(),
        "[info] bootstrap el0 mapping ready\n[info] bootstrap el0 backing frames ready\n[info] bootstrap el0 page tables ready\n"
    );
}

#[test]
fn el0_boundary_without_an_arena_stops_before_the_tables() {
    let mut console = TextConsole::new();
    let plan = plan_bootstrap_el0_boundary(&mut console, launch_plan(), Some(0x8100_0000), page_tables(), allocator(0));
    assert!(plan.is_none());
    assert_eq!(
        console.as_str(),
        "[info] bootstrap el0 mapping ready\n\
[info] bootstrap el0 backing frames missing-arena\n\
[info] bootstrap el0 page tables backing-frames-not-ready\n\
[info] bootstrap el0 backing frames populated page-tables-not-ready\n\
[info] bootstrap el0 page tables constructed page-tables-not-ready\n\
[info] bootstrap el0 mmu registers prepared page-tables-not-ready\n"
    );
}

#[test]
fn el0_population_log_follows_the_table_plan() {
    let mut console = TextConsole::new();
    let plan = plan_bootstrap_el0_boundary(&mut console, launch_plan(), Some(0x8100_0000), page_tables(), allocator(0x9000_0000))
        .expect("page-table plan");
    let live = BootstrapEl0BackingFramePopulation {
        readiness: BootstrapEl0BackingFramePopulationReadiness::Ready,
        source_readiness: plan.readiness,
        payload_bytes: 0x1234,
        context_bytes: 56,
        zeroed_bytes: 0,
    };
    let mut log = TextConsole::new();
    let population = log_bootstrap_el0_population(&mut log, plan, live);
    assert_eq!(population, live);
    assert_eq!(log.as_str(), "[info] bootstrap el0 backing frames populated ready\n");
}
