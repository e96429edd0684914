//! Physical frames for the bootstrap task: the frame-allocator window and the
//! carving of image, context and stack frames out of a frame arena.
use vstd::prelude::*;
use crate::bootinfo::NovaBootInfoV1;
use crate::bootinfo_v2::NovaBootInfoV2;
use crate::mmu::{
    lemma_ready_mapping_plan_layout, page_aligned, spec_mapping_plan, BootstrapEl0MappingPlan,
    BootstrapEl0MappingReadiness, BootstrapEl0MappingRequest, BootstrapEl0PageTableRequest, PageTablePlan, PAGE_SIZE,
};

verus! {

/// The window the frame allocator hands frames out of, and the arena the
/// bootstrap task's frames are carved from.
#[derive(Clone, Copy, Debug, PartialEq, Eq, Structural)]
pub struct FrameAllocatorPlan {
    pub usable_base: u64,
    pub usable_limit: u64,
    pub reserved_bytes: u64,
    pub bootstrap_el0_arena_base: u64,
    pub bootstrap_el0_arena_size: u64,
}

impl FrameAllocatorPlan {
    pub open spec fn spec_from_boot_info(boot_info: NovaBootInfoV1) -> FrameAllocatorPlan {
        FrameAllocatorPlan {
            usable_base: boot_info.spec_memory().usable_base,
            usable_limit: boot_info.spec_memory().usable_limit,
            reserved_bytes: boot_info.spec_memory().reserved_bytes,
            bootstrap_el0_arena_base: 0,
            bootstrap_el0_arena_size: 0,
        }
    }

    pub open spec fn spec_from_boot_info_with_v2(boot_info: NovaBootInfoV1, boot_info_v2: Option<NovaBootInfoV2>) -> FrameAllocatorPlan {
        let base = Self::spec_from_boot_info(boot_info);
        match boot_info_v2 {
            Some(v2) => {
                let a = v2.bootstrap_frame_arena;
                if a.spec_is_valid() {
                    FrameAllocatorPlan { bootstrap_el0_arena_base: a.base, bootstrap_el0_arena_size: a.len, ..base }
                } else {
                    base
                }
            },
            None => base,
        }
    }

    /// No window and no arena.
    pub fn empty() -> (r: Self)
        ensures
            r == (FrameAllocatorPlan {
                usable_base: 0,
                usable_limit: 0,
                reserved_bytes: 0,
                bootstrap_el0_arena_base: 0,
                bootstrap_el0_arena_size: 0,
            }),
    {
        FrameAllocatorPlan {
            usable_base: 0,
            usable_limit: 0,
            reserved_bytes: 0,
            bootstrap_el0_arena_base: 0,
            bootstrap_el0_arena_size: 0,
        }
    }

    /// The window BootInfo v1 describes, with no bootstrap arena.
    pub fn from_boot_info(boot_info: &NovaBootInfoV1) -> (r: Self)
        ensures
            r == Self::spec_from_boot_info(*boot_info),
    {
        let memory = boot_info.memory();
        FrameAllocatorPlan {
            usable_base: memory.usable_base,
            usable_limit: memory.usable_limit,
            reserved_bytes: memory.reserved_bytes,
            bootstrap_el0_arena_base: 0,
            bootstrap_el0_arena_size: 0,
        }
    }

    /// The v1 window, with the bootstrap arena taken from the frame arena of a
    /// BootInfo v2 sidecar whose arena descriptor is valid.
    pub fn from_boot_info_with_v2(boot_info: &NovaBootInfoV1, boot_info_v2: Option<&NovaBootInfoV2>) -> (r: Self)
        ensures
            r == Self::spec_from_boot_info_with_v2(*boot_info, match boot_info_v2 { Some(v) => Some(*v), None => None }),
    {
        let mut plan = Self::from_boot_info(boot_info);
        if let Some(v2) = boot_info_v2 {
            let arena = v2.bootstrap_frame_arena;
            if arena.is_valid() {
                plan.bootstrap_el0_arena_base = arena.base;
                plan.bootstrap_el0_arena_size = arena.len;
            }
        }
        plan
    }
}

impl FrameAllocatorPlan {
    /// The arena request the bootstrap task's frames are carved from.
    pub fn bootstrap_el0_backing_frame_request(self) -> (r: BootstrapEl0BackingFrameRequest)
        ensures
            r == (BootstrapEl0BackingFrameRequest {
                arena_base: self.bootstrap_el0_arena_base,
                arena_size: self.bootstrap_el0_arena_size,
            }),
    {
        BootstrapEl0BackingFrameRequest::new(self.bootstrap_el0_arena_base, self.bootstrap_el0_arena_size)
    }
}

/// The arena the bootstrap frames are carved from.
#[derive(Clone, Copy, Debug, PartialEq, Eq, Structural)]
pub struct BootstrapEl0BackingFrameRequest {
    pub arena_base: u64,
    pub arena_size: u64,
}

impl BootstrapEl0BackingFrameRequest {
    /// A request from its parts.
    pub fn new(arena_base: u64, arena_size: u64) -> (r: Self)
        ensures
            r == (BootstrapEl0BackingFrameRequest { arena_base, arena_size }),
    {
        BootstrapEl0BackingFrameRequest { arena_base, arena_size }
    }
}

/// Why a backing-frame plan is not ready, or that it is.
#[derive(Clone, Copy, Debug, PartialEq, Eq, Structural)]
pub enum BootstrapEl0BackingFrameReadiness {
    Ready,
    MappingPlanNotReady,
    MissingArena,
    UnalignedArena,
    ArenaAddressOverflow,
    FrameAddressOverflow,
    ArenaTooSmall,
}

impl BootstrapEl0BackingFrameReadiness {
    pub open spec fn spec_label(self) -> Seq<char> {
        match self {
            BootstrapEl0BackingFrameReadiness::Ready => "ready"@,
            BootstrapEl0BackingFrameReadiness::MappingPlanNotReady => "mapping-plan-not-ready"@,
            BootstrapEl0BackingFrameReadiness::MissingArena => "missing-arena"@,
            BootstrapEl0BackingFrameReadiness::UnalignedArena => "unaligned-arena"@,
            BootstrapEl0BackingFrameReadiness::ArenaAddressOverflow => "arena-address-overflow"@,
            BootstrapEl0BackingFrameReadiness::FrameAddressOverflow => "frame-address-overflow"@,
            BootstrapEl0BackingFrameReadiness::ArenaTooSmall => "arena-too-small"@,
        }
    }

    /// A stable kebab-case name.
    pub fn label(self) -> (r: &'static str)
        ensures
            r@ == self.spec_label(),
    {
        match self {
            BootstrapEl0BackingFrameReadiness::Ready => "ready",
            BootstrapEl0BackingFrameReadiness::MappingPlanNotReady => "mapping-plan-not-ready",
            BootstrapEl0BackingFrameReadiness::MissingArena => "missing-arena",
            BootstrapEl0BackingFrameReadiness::UnalignedArena => "unaligned-arena",
            BootstrapEl0BackingFrameReadiness::ArenaAddressOverflow => "arena-address-overflow",
            BootstrapEl0BackingFrameReadiness::FrameAddressOverflow => "frame-address-overflow",
            BootstrapEl0BackingFrameReadiness::ArenaTooSmall => "arena-too-small",
        }
    }
}

/// Where the image, context and stack frames sit in the arena.
#[derive(Clone, Copy, Debug, PartialEq, Eq, Structural)]
pub struct BootstrapEl0BackingFramePlan {
    pub readiness: BootstrapEl0BackingFrameReadiness,
    pub source_readiness: BootstrapEl0MappingReadiness,
    pub arena_base: u64,
    pub arena_size: u64,
    pub image_phys_base: u64,
    pub image_size: u64,
    pub context_phys_base: u64,
    pub context_size: u64,
    pub stack_phys_base: u64,
    pub stack_size: u64,
    pub total_size: u64,
}

/// The backing-frame plan: the image frames at the start of the arena, the
/// context frames after them and the stack frames after those, each as large
/// as the mapping plan's region; the first check that fails names the
/// readiness.
pub open spec fn spec_backing_plan(m: BootstrapEl0MappingPlan, req: BootstrapEl0BackingFrameRequest) -> BootstrapEl0BackingFramePlan {
    let p0 = BootstrapEl0BackingFramePlan {
        readiness: BootstrapEl0BackingFrameReadiness::Ready,
        source_readiness: m.readiness,
        arena_base: req.arena_base,
        arena_size: req.arena_size,
        image_phys_base: 0,
        image_size: m.user_image_size,
        context_phys_base: 0,
        context_size: m.user_context_size,
        stack_phys_base: 0,
        stack_size: m.user_stack_size,
        total_size: 0,
    };
    let context_base = req.arena_base + m.user_image_size;
    let stack_base = context_base + m.user_context_size;
    let frame_end = stack_base + m.user_stack_size;
    if m.readiness != BootstrapEl0MappingReadiness::Ready {
        BootstrapEl0BackingFramePlan { readiness: BootstrapEl0BackingFrameReadiness::MappingPlanNotReady, ..p0 }
    } else if req.arena_base == 0 || req.arena_size == 0 {
        BootstrapEl0BackingFramePlan { readiness: BootstrapEl0BackingFrameReadiness::MissingArena, ..p0 }
    } else if !page_aligned(req.arena_base as int) || !page_aligned(req.arena_size as int) {
        BootstrapEl0BackingFramePlan { readiness: BootstrapEl0BackingFrameReadiness::UnalignedArena, ..p0 }
    } else if req.arena_base + req.arena_size > u64::MAX {
        BootstrapEl0BackingFramePlan { readiness: BootstrapEl0BackingFrameReadiness::ArenaAddressOverflow, ..p0 }
    } else if frame_end > u64::MAX {
        BootstrapEl0BackingFramePlan { readiness: BootstrapEl0BackingFrameReadiness::FrameAddressOverflow, ..p0 }
    } else if frame_end > req.arena_base + req.arena_size {
        BootstrapEl0BackingFramePlan { readiness: BootstrapEl0BackingFrameReadiness::ArenaTooSmall, ..p0 }
    } else {
        BootstrapEl0BackingFramePlan {
            image_phys_base: req.arena_base,
            context_phys_base: context_base as u64,
            stack_phys_base: stack_base as u64,
            total_size: (frame_end - req.arena_base) as u64,
            ..p0
        }
    }
}

impl BootstrapEl0BackingFramePlan {
    /// Carves the frames a mapping plan needs out of the arena.
    pub fn from_mapping_plan(mapping: BootstrapEl0MappingPlan, request: BootstrapEl0BackingFrameRequest) -> (r: Self)
        ensures
            r == spec_backing_plan(mapping, request),
    {
        let mut plan = BootstrapEl0BackingFramePlan {
            readiness: BootstrapEl0BackingFrameReadiness::Ready,
            source_readiness: mapping.readiness,
            arena_base: request.arena_base,
            arena_size: request.arena_size,
            image_phys_base: 0,
            image_size: mapping.user_image_size,
            context_phys_base: 0,
            context_size: mapping.user_context_size,
            stack_phys_base: 0,
            stack_size: mapping.user_stack_size,
            total_size: 0,
        };
        if !mapping.ready() {
            plan.readiness = BootstrapEl0BackingFrameReadiness::MappingPlanNotReady;
            return plan;
        }
        if request.arena_base == 0 || request.arena_size == 0 {
            plan.readiness = BootstrapEl0BackingFrameReadiness::MissingArena;
            return plan;
        }
        if request.arena_base % PAGE_SIZE != 0 || request.arena_size % PAGE_SIZE != 0 {
            plan.readiness = BootstrapEl0BackingFrameReadiness::UnalignedArena;
            return plan;
        }
        let arena_end = match request.arena_base.checked_add(request.arena_size) {
            Some(v) => v,
            None => {
                plan.readiness = BootstrapEl0BackingFrameReadiness::ArenaAddressOverflow;
                return plan;
            },
        };
        let context_phys_base = match request.arena_base.checked_add(mapping.user_image_size) {
            Some(v) => v,
            None => {
                plan.readiness = BootstrapEl0BackingFrameReadiness::FrameAddressOverflow;
                return plan;
            },
        };
        let stack_phys_base = match context_phys_base.checked_add(mapping.user_context_size) {
            Some(v) => v,
            None => {
                plan.readiness = BootstrapEl0BackingFrameReadiness::FrameAddressOverflow;
                return plan;
            },
        };
        let frame_end = match stack_phys_base.checked_add(mapping.user_stack_size) {
            Some(v) => v,
            None => {
                plan.readiness = BootstrapEl0BackingFrameReadiness::FrameAddressOverflow;
                return plan;
            },
        };
        if frame_end > arena_end {
            plan.readiness = BootstrapEl0BackingFrameReadiness::ArenaTooSmall;
            return plan;
        }
        plan.image_phys_base = request.arena_base;
        plan.context_phys_base = context_phys_base;
        plan.stack_phys_base = stack_phys_base;
        plan.total_size = frame_end - request.arena_base;
        plan
    }

    /// Whether every check passed.
    pub fn ready(self) -> (r: bool)
        ensures
            r == (self.readiness == BootstrapEl0BackingFrameReadiness::Ready),
    {
        match self.readiness {
            BootstrapEl0BackingFrameReadiness::Ready => true,
            _ => false,
        }
    }

    /// The translation-table request that maps the carved frames, with the
    /// given kernel window and the translation tables placed in the arena
    /// right after the frames.
    pub fn page_table_request(self, kernel_base: u64, kernel_size: u64) -> (r: BootstrapEl0PageTableRequest)
        requires
            self.total_size <= self.arena_size,
            self.arena_base + self.total_size <= u64::MAX,
        ensures
            r == (BootstrapEl0PageTableRequest {
                kernel_base,
                kernel_size,
                user_image_phys_base: self.image_phys_base,
                user_context_phys_base: self.context_phys_base,
                user_stack_phys_base: self.stack_phys_base,
                page_table_phys_base: (self.arena_base + self.total_size) as u64,
                page_table_size: (self.arena_size - self.total_size) as u64,
            }),
    {
        BootstrapEl0PageTableRequest::new(
            kernel_base,
            kernel_size,
            self.image_phys_base,
            self.context_phys_base,
            self.stack_phys_base,
            self.arena_base + self.total_size,
            self.arena_size - self.total_size,
        )
    }
}

/// A ready backing-frame plan puts the image, context and stack frames back
/// to back from the start of the arena, page aligned, as large as their
/// mapped regions, and inside the arena; the rest of the arena follows them.
pub proof fn lemma_ready_backing_plan(pt: PageTablePlan, mreq: BootstrapEl0MappingRequest, req: BootstrapEl0BackingFrameRequest)
    requires
        spec_backing_plan(spec_mapping_plan(pt, mreq), req).readiness == BootstrapEl0BackingFrameReadiness::Ready,
    ensures
        ({
            let m = spec_mapping_plan(pt, mreq);
            let b = spec_backing_plan(m, req);
            &&& b.image_phys_base == req.arena_base
            &&& b.context_phys_base == b.image_phys_base + b.image_size
            &&& b.stack_phys_base == b.context_phys_base + b.context_size
            &&& b.image_size == m.user_image_size && b.context_size == m.user_context_size
                && b.stack_size == m.user_stack_size
            &&& page_aligned(b.image_phys_base as int) && page_aligned(b.context_phys_base as int)
                && page_aligned(b.stack_phys_base as int)
            &&& b.total_size == b.image_size + b.context_size + b.stack_size
            &&& page_aligned(b.total_size as int)
            &&& b.total_size <= b.arena_size
            &&& req.arena_base + req.arena_size <= u64::MAX
        }),
{
    lemma_ready_mapping_plan_layout(pt, mreq);
}

} // verus!
