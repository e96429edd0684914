//! Planning the bootstrap task's user address space at the EL0 boundary:
//! the mapping, the frames that back it and the translation tables that map
//! them, with the log lines the kernel writes at each step.
use vstd::prelude::*;
use crate::allocator::{lemma_ready_backing_plan, spec_backing_plan, BootstrapEl0BackingFramePlan, FrameAllocatorPlan};
use crate::boot_contract::BootstrapTaskLaunchPlan;
use crate::bootstrap_task::NOVA_BOOTSTRAP_TASK_CONTEXT_V2_SIZE;
use crate::console::ConsoleSink;
use crate::el::BOOTSTRAP_TASK_STACK_SIZE;
use crate::mmu::{
    population_of, spec_mapping_plan, spec_page_table_plan, BootstrapEl0BackingFramePopulation,
    BootstrapEl0BackingFramePopulationReadiness, BootstrapEl0MappingPlan, BootstrapEl0MappingRequest,
    BootstrapEl0PageTableConstruction, BootstrapEl0PageTablePlan, BootstrapEl0PageTableRequest, PageTablePlan,
};

verus! {

/// What the bootstrap task's address space is planned from: its load range
/// and entry, its context at `context_addr` where it has one, and the
/// user stack the page-table plan asks for, or half the kernel's bootstrap
/// stack when it asks for none.
pub open spec fn spec_el0_mapping_request(
    launch: BootstrapTaskLaunchPlan,
    context_addr: Option<u64>,
    pt: PageTablePlan,
) -> BootstrapEl0MappingRequest {
    BootstrapEl0MappingRequest {
        payload_source_base: launch.load_base,
        payload_size: launch.load_size,
        payload_entry_point: launch.entry_point,
        context_source_base: match context_addr {
            Some(a) => a,
            None => 0,
        },
        context_size: if context_addr is Some {
            NOVA_BOOTSTRAP_TASK_CONTEXT_V2_SIZE as u64
        } else {
            0
        },
        user_stack_size: if pt.user_stack_size == 0 {
            BOOTSTRAP_TASK_STACK_SIZE / 2
        } else {
            pt.user_stack_size
        },
    }
}

/// The mapping plan for the bootstrap task.
pub open spec fn spec_el0_mapping(launch: BootstrapTaskLaunchPlan, context_addr: Option<u64>, pt: PageTablePlan) -> BootstrapEl0MappingPlan {
    spec_mapping_plan(pt, spec_el0_mapping_request(launch, context_addr, pt))
}

/// The backing-frame plan carved from the allocator's arena.
pub open spec fn spec_el0_backing(
    launch: BootstrapTaskLaunchPlan,
    context_addr: Option<u64>,
    pt: PageTablePlan,
    alloc: FrameAllocatorPlan,
) -> BootstrapEl0BackingFramePlan {
    spec_backing_plan(
        spec_el0_mapping(launch, context_addr, pt),
        crate::allocator::BootstrapEl0BackingFrameRequest {
            arena_base: alloc.bootstrap_el0_arena_base,
            arena_size: alloc.bootstrap_el0_arena_size,
        },
    )
}

/// The translation-table request for ready frames: the kernel window, the
/// frames, and the rest of the arena for the tables.
pub open spec fn spec_el0_table_request(b: BootstrapEl0BackingFramePlan, pt: PageTablePlan) -> BootstrapEl0PageTableRequest {
    BootstrapEl0PageTableRequest {
        kernel_base: pt.kernel_base,
        kernel_size: pt.kernel_size,
        user_image_phys_base: b.image_phys_base,
        user_context_phys_base: b.context_phys_base,
        user_stack_phys_base: b.stack_phys_base,
        page_table_phys_base: (b.arena_base + b.total_size) as u64,
        page_table_size: (b.arena_size - b.total_size) as u64,
    }
}

/// The translation-table plan, where the frames could be carved.
pub open spec fn spec_el0_page_tables(
    launch: BootstrapTaskLaunchPlan,
    context_addr: Option<u64>,
    pt: PageTablePlan,
    alloc: FrameAllocatorPlan,
) -> Option<BootstrapEl0PageTablePlan> {
    let b = spec_el0_backing(launch, context_addr, pt, alloc);
    if b.readiness == crate::allocator::BootstrapEl0BackingFrameReadiness::Ready {
        Some(spec_page_table_plan(spec_el0_mapping(launch, context_addr, pt), spec_el0_table_request(b, pt)))
    } else {
        None
    }
}

/// The log of the planning steps: the mapping's and the frames' readiness,
/// then the tables' readiness, or, where the frames could not be carved, the
/// steps that cannot follow.
pub open spec fn el0_plan_log(
    launch: BootstrapTaskLaunchPlan,
    context_addr: Option<u64>,
    pt: PageTablePlan,
    alloc: FrameAllocatorPlan,
) -> Seq<char> {
    let m = spec_el0_mapping(launch, context_addr, pt);
    let b = spec_el0_backing(launch, context_addr, pt, alloc);
    "[info] bootstrap el0 mapping "@ + m.readiness.spec_label() + "\n"@ + "[info] bootstrap el0 backing frames "@
        + b.readiness.spec_label() + "\n"@ + "[info] bootstrap el0 page tables "@ + match spec_el0_page_tables(
        launch,
        context_addr,
        pt,
        alloc,
    ) {
        Some(p) => p.readiness.spec_label() + "\n"@,
        None => "backing-frames-not-ready"@ + "\n"@ + "[info] bootstrap el0 backing frames populated page-tables-not-ready"@
            + "\n"@ + "[info] bootstrap el0 page tables constructed page-tables-not-ready"@ + "\n"@
            + "[info] bootstrap el0 mmu registers prepared page-tables-not-ready"@ + "\n"@,
    }
}

/// Plans the bootstrap task's address space and logs each step; gives the
/// translation-table plan where the frames could be carved. Populating the
/// frames and building the tables in live memory follow.
#[verifier::rlimit(40)]
pub fn plan_bootstrap_el0_boundary<C: ConsoleSink>(
    console: &mut C,
    launch_plan: BootstrapTaskLaunchPlan,
    context_addr: Option<u64>,
    page_tables: PageTablePlan,
    allocator: FrameAllocatorPlan,
) -> (r: Option<BootstrapEl0PageTablePlan>)
    ensures
        r == spec_el0_page_tables(launch_plan, context_addr, page_tables, allocator),
        final(console).written() == old(console).written() + el0_plan_log(
            launch_plan,
            context_addr,
            page_tables,
            allocator,
        ),
{
    proof {
        reveal_strlit("\n");
    }
    let (context_source, context_size) = match context_addr {
        Some(a) => (a, NOVA_BOOTSTRAP_TASK_CONTEXT_V2_SIZE as u64),
        None => (0, 0),
    };
    let request = BootstrapEl0MappingRequest::new(
        launch_plan.load_base,
        launch_plan.load_size,
        launch_plan.entry_point,
        context_source,
        context_size,
        if page_tables.user_stack_size == 0 {
            BOOTSTRAP_TASK_STACK_SIZE / 2
        } else {
            page_tables.user_stack_size
        },
    );
    let mapping = page_tables.bootstrap_el0_mapping_plan(request);
    console.write_str("[info] bootstrap el0 mapping ");
    console.write_line(mapping.readiness.label());
    let arena = allocator.bootstrap_el0_backing_frame_request();
    let backing = BootstrapEl0BackingFramePlan::from_mapping_plan(mapping, arena);
    console.write_str("[info] bootstrap el0 backing frames ");
    console.write_line(backing.readiness.label());
    console.write_str("[info] bootstrap el0 page tables ");
    if backing.ready() {
        proof {
            lemma_ready_backing_plan(page_tables, request, arena);
        }
        let page_table_plan = mapping.page_table_plan(
            backing.page_table_request(page_tables.kernel_base, page_tables.kernel_size),
        );
        console.write_line(page_table_plan.readiness.label());
        assert(final(console).written() =~= old(console).written() + el0_plan_log(
            launch_plan,
            context_addr,
            page_tables,
            allocator,
        ));
        Some(page_table_plan)
    } else {
        console.write_line("backing-frames-not-ready");
        console.write_line("[info] bootstrap el0 backing frames populated page-tables-not-ready");
        console.write_line("[info] bootstrap el0 page tables constructed page-tables-not-ready");
        console.write_line("[info] bootstrap el0 mmu registers prepared page-tables-not-ready");
        assert(final(console).written() =~= old(console).written() + el0_plan_log(
            launch_plan,
            context_addr,
            page_tables,
            allocator,
        ));
        None
    }
}

/// What populating the frames came to: the live outcome where the tables
/// were planned, else a record that the tables were not ready.
pub open spec fn spec_el0_population(
    plan: BootstrapEl0PageTablePlan,
    live: BootstrapEl0BackingFramePopulation,
) -> BootstrapEl0BackingFramePopulation {
    if plan.readiness == crate::mmu::BootstrapEl0PageTableReadiness::Ready {
        live
    } else {
        population_of(plan, BootstrapEl0BackingFramePopulationReadiness::PageTablePlanNotReady)
    }
}

/// Logs the outcome of populating the frames: the live outcome's readiness
/// where the tables were planned, else that they were not.
pub fn log_bootstrap_el0_population<C: ConsoleSink>(
    console: &mut C,
    plan: BootstrapEl0PageTablePlan,
    live: BootstrapEl0BackingFramePopulation,
) -> (r: BootstrapEl0BackingFramePopulation)
    ensures
        r == spec_el0_population(plan, live),
        final(console).written() == old(console).written() + "[info] bootstrap el0 backing frames populated "@ + (
        if plan.readiness == crate::mmu::BootstrapEl0PageTableReadiness::Ready {
            live.readiness.spec_label()
        } else {
            "page-tables-not-ready"@
        }) + "\n"@,
{
    proof {
        reveal_strlit("\n");
    }
    console.write_str("[info] bootstrap el0 backing frames populated ");
    if plan.ready() {
        console.write_line(live.readiness.label());
        live
    } else {
        console.write_line("page-tables-not-ready");
        BootstrapEl0BackingFramePopulation {
            readiness: BootstrapEl0BackingFramePopulationReadiness::PageTablePlanNotReady,
            source_readiness: plan.readiness,
            payload_bytes: 0,
            context_bytes: 0,
            zeroed_bytes: 0,
        }
    }
}

/// Logs the outcome of building the tables: the construction's readiness
/// where both the tables were planned and the frames populated, else that
/// the frames were not populated and the registers cannot be prepared.
pub fn log_bootstrap_el0_construction<C: ConsoleSink>(
    console: &mut C,
    plan: BootstrapEl0PageTablePlan,
    population: BootstrapEl0BackingFramePopulation,
    construction: BootstrapEl0PageTableConstruction,
)
    ensures
        final(console).written() == old(console).written() + "[info] bootstrap el0 page tables constructed "@ + (
        if plan.readiness == crate::mmu::BootstrapEl0PageTableReadiness::Ready && population.readiness
            == BootstrapEl0BackingFramePopulationReadiness::Ready {
            construction.readiness.spec_label() + "\n"@
        } else {
            "backing-frames-not-populated"@ + "\n"@ + "[info] bootstrap el0 mmu registers prepared page-tables-not-constructed"@
                + "\n"@
        }),
{
    proof {
        reveal_strlit("\n");
    }
    console.write_str("[info] bootstrap el0 page tables constructed ");
    if plan.ready() && population.ready() {
        console.write_line(construction.readiness.label());
    } else {
        console.write_line("backing-frames-not-populated");
        console.write_line("[info] bootstrap el0 mmu registers prepared page-tables-not-constructed");
    }
    assert(final(console).written() =~= old(console).written() + "[info] bootstrap el0 page tables constructed "@ + (
    if plan.readiness == crate::mmu::BootstrapEl0PageTableReadiness::Ready && population.readiness
        == BootstrapEl0BackingFramePopulationReadiness::Ready {
        construction.readiness.spec_label() + "\n"@
    } else {
        "backing-frames-not-populated"@ + "\n"@ + "[info] bootstrap el0 mmu registers prepared page-tables-not-constructed"@
            + "\n"@
    }));
}

} // verus!
