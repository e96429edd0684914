//! Bootstrap EL0 address-space planning: the user-window mapping plan, the
//! translation-table plan, table construction and backing-frame population.
use vstd::prelude::*;
use crate::bootinfo::NovaBootInfoV1;
use crate::bootinfo_v2::NovaBootInfoV2;

verus! {

pub const PAGE_SIZE: u64 = 4096;
pub const ARM64_TABLE_ENTRY_COUNT: usize = 512;
pub const ROOT_TABLE_INDEX: usize = 0;
pub const L1_TABLE_INDEX: usize = 1;
pub const KERNEL_L2_TABLE_INDEX: usize = 2;
pub const KERNEL_L3_TABLE_INDEX: usize = 3;
pub const USER_L2_TABLE_INDEX: usize = 4;
pub const USER_L3_TABLE_INDEX: usize = 5;
pub const BOOTSTRAP_EL0_TRANSLATION_TABLE_COUNT: u64 = 6;
pub const BOOTSTRAP_EL0_TRANSLATION_TABLE_BYTES: u64 = 0x6000;
pub const BOOTSTRAP_EL0_TRANSLATION_TABLE_ENTRIES: usize = 3072;

pub const DESCRIPTOR_VALID: u64 = 0x1;
pub const DESCRIPTOR_TABLE: u64 = 0x2;
pub const DESCRIPTOR_AF: u64 = 0x400;
pub const DESCRIPTOR_NG: u64 = 0x800;
pub const DESCRIPTOR_PXN: u64 = 0x20_0000_0000_0000;
pub const DESCRIPTOR_UXN: u64 = 0x40_0000_0000_0000;
pub const DESCRIPTOR_OUTPUT_ADDRESS_MASK: u64 = 0x0000_FFFF_FFFF_F000;

// ---------------------------------------------------------------------------
// Page arithmetic
// ---------------------------------------------------------------------------

/// `v` is a multiple of the page size.
pub open spec fn page_aligned(v: int) -> bool {
    v % 4096 == 0
}

/// The smallest multiple of the page size not below `v`.
pub open spec fn align_up_int(v: int) -> int {
    if v % 4096 == 0 { v } else { v + 4096 - v % 4096 }
}

/// The largest multiple of the page size not above `v`.
pub open spec fn align_down_int(v: int) -> int {
    v - v % 4096
}

/// Rounding up to a page, or `None` where the result leaves `u64`.
pub open spec fn spec_align_up(v: u64) -> Option<u64> {
    if align_up_int(v as int) <= u64::MAX { Some(align_up_int(v as int) as u64) } else { None }
}

/// The page-granular range that covers `[base, base + size)`.
pub open spec fn spec_page_range(base: u64, size: u64) -> Option<(u64, u64)> {
    if base + size > u64::MAX || align_up_int(base + size) > u64::MAX {
        None
    } else {
        Some((align_down_int(base as int) as u64, (align_up_int(base + size) - align_down_int(base as int)) as u64))
    }
}

fn is_page_aligned(value: u64) -> (r: bool)
    ensures
        r == page_aligned(value as int),
{
    value % PAGE_SIZE == 0
}

fn align_down(value: u64) -> (r: u64)
    ensures
        r == align_down_int(value as int),
{
    value - value % PAGE_SIZE
}

fn align_up(value: u64) -> (r: Option<u64>)
    ensures
        r == spec_align_up(value),
{
    if value % PAGE_SIZE == 0 {
        Some(value)
    } else {
        match value.checked_add(4095) {
            Some(v) => Some(v - v % PAGE_SIZE),
            None => None,
        }
    }
}

fn page_range(base: u64, size: u64) -> (r: Option<(u64, u64)>)
    ensures
        r == spec_page_range(base, size),
{
    let end = match base.checked_add(size) {
        Some(e) => e,
        None => return None,
    };
    let map_base = align_down(base);
    let map_end = match align_up(end) {
        Some(e) => e,
        None => return None,
    };
    Some((map_base, map_end - map_base))
}

fn u64_to_usize(value: u64) -> (r: Option<usize>)
    ensures
        r == (if value <= usize::MAX { Some(value as usize) } else { None::<usize> }),
{
    if value > usize::MAX as u64 {
        None
    } else {
        Some(value as usize)
    }
}

// ---------------------------------------------------------------------------
// The windows the kernel plans with
// ---------------------------------------------------------------------------

/// The kernel and user windows the bootstrap address space is built from.
#[derive(Clone, Copy, Debug, PartialEq, Eq, Structural)]
pub struct PageTablePlan {
    pub kernel_base: u64,
    pub kernel_size: u64,
    pub user_base: u64,
    pub user_size: u64,
    pub user_stack_size: u64,
}

impl PageTablePlan {
    /// The plan with no windows.
    pub fn empty() -> (r: Self)
        ensures
            r == (PageTablePlan { kernel_base: 0, kernel_size: 0, user_base: 0, user_size: 0, user_stack_size: 0 }),
    {
        PageTablePlan { kernel_base: 0, kernel_size: 0, user_base: 0, user_size: 0, user_stack_size: 0 }
    }

    pub open spec fn spec_from_boot_info(boot_info: NovaBootInfoV1) -> PageTablePlan {
        PageTablePlan {
            kernel_base: boot_info.spec_memory().kernel_window_base,
            kernel_size: boot_info.spec_memory().kernel_window_size,
            user_base: boot_info.spec_memory().user_window_base,
            user_size: boot_info.spec_memory().user_window_size,
            user_stack_size: 0,
        }
    }

    /// The windows BootInfo v1 describes, with no stack reservation.
    pub fn from_boot_info(boot_info: &NovaBootInfoV1) -> (r: Self)
        ensures
            r == Self::spec_from_boot_info(*boot_info),
    {
        let memory = boot_info.memory();
        PageTablePlan {
            kernel_base: memory.kernel_window_base,
            kernel_size: memory.kernel_window_size,
            user_base: memory.user_window_base,
            user_size: memory.user_window_size,
            user_stack_size: 0,
        }
    }

    pub open spec fn spec_from_boot_info_with_v2(boot_info: NovaBootInfoV1, boot_info_v2: Option<NovaBootInfoV2>) -> PageTablePlan {
        let base = Self::spec_from_boot_info(boot_info);
        match boot_info_v2 {
            Some(v2) => {
                let w = v2.bootstrap_user_window;
                if !w.spec_is_empty() && w.spec_is_valid() {
                    PageTablePlan { user_base: w.base, user_size: w.len, user_stack_size: w.stack_size, ..base }
                } else {
                    base
                }
            },
            None => base,
        }
    }

    /// The v1 windows, with the user window and stack taken from a BootInfo v2
    /// sidecar whose bootstrap user window is present and valid.
    pub fn from_boot_info_with_v2(boot_info: &NovaBootInfoV1, boot_info_v2: Option<&NovaBootInfoV2>) -> (r: Self)
        ensures
            r == Self::spec_from_boot_info_with_v2(*boot_info, match boot_info_v2 { Some(v) => Some(*v), None => None }),
    {
        let mut plan = Self::from_boot_info(boot_info);
        if let Some(v2) = boot_info_v2 {
            let user_window = v2.bootstrap_user_window;
            if !user_window.is_empty() && user_window.is_valid() {
                plan.user_base = user_window.base;
                plan.user_size = user_window.len;
                plan.user_stack_size = user_window.stack_size;
            }
        }
        plan
    }

    /// Plans the bootstrap task's user address space inside the user window.
    pub fn bootstrap_el0_mapping_plan(self, request: BootstrapEl0MappingRequest) -> (r: BootstrapEl0MappingPlan)
        ensures
            r == spec_mapping_plan(self, request),
    {
        BootstrapEl0MappingPlan::from_page_table_plan(self, request)
    }
}

/// Where the bootstrap payload and context come from, and the stack it wants.
#[derive(Clone, Copy, Debug, PartialEq, Eq, Structural)]
pub struct BootstrapEl0MappingRequest {
    pub payload_source_base: u64,
    pub payload_size: u64,
    pub payload_entry_point: u64,
    pub context_source_base: u64,
    pub context_size: u64,
    pub user_stack_size: u64,
}

impl BootstrapEl0MappingRequest {
    /// A request from its parts.
    pub fn new(
        payload_source_base: u64,
        payload_size: u64,
        payload_entry_point: u64,
        context_source_base: u64,
        context_size: u64,
        user_stack_size: u64,
    ) -> (r: Self)
        ensures
            r == (BootstrapEl0MappingRequest {
                payload_source_base,
                payload_size,
                payload_entry_point,
                context_source_base,
                context_size,
                user_stack_size,
            }),
    {
        BootstrapEl0MappingRequest {
            payload_source_base,
            payload_size,
            payload_entry_point,
            context_source_base,
            context_size,
            user_stack_size,
        }
    }
}

/// Why a mapping plan is not ready, or that it is.
#[derive(Clone, Copy, Debug, PartialEq, Eq, Structural)]
pub enum BootstrapEl0MappingReadiness {
    Ready,
    MissingUserWindow,
    UserWindowAddressOverflow,
    UnalignedUserWindow,
    EmptyPayload,
    PayloadAddressOverflow,
    EntryOutsidePayload,
    MissingContext,
    ContextAddressOverflow,
    EmptyUserStack,
    UserStackAddressOverflow,
    UserWindowTooSmall,
}

impl BootstrapEl0MappingReadiness {
    pub open spec fn spec_label(self) -> Seq<char> {
        match self {
            BootstrapEl0MappingReadiness::Ready => "ready"@,
            BootstrapEl0MappingReadiness::MissingUserWindow => "missing-user-window"@,
            BootstrapEl0MappingReadiness::UserWindowAddressOverflow => "user-window-address-overflow"@,
            BootstrapEl0MappingReadiness::UnalignedUserWindow => "unaligned-user-window"@,
            BootstrapEl0MappingReadiness::EmptyPayload => "empty-payload"@,
            BootstrapEl0MappingReadiness::PayloadAddressOverflow => "payload-address-overflow"@,
            BootstrapEl0MappingReadiness::EntryOutsidePayload => "entry-outside-payload"@,
            BootstrapEl0MappingReadiness::MissingContext => "missing-context"@,
            BootstrapEl0MappingReadiness::ContextAddressOverflow => "context-address-overflow"@,
            BootstrapEl0MappingReadiness::EmptyUserStack => "empty-user-stack"@,
            BootstrapEl0MappingReadiness::UserStackAddressOverflow => "user-stack-address-overflow"@,
            BootstrapEl0MappingReadiness::UserWindowTooSmall => "user-window-too-small"@,
        }
    }

    /// A stable kebab-case name.
    pub fn label(self) -> (r: &'static str)
        ensures
            r@ == self.spec_label(),
    {
        match self {
            BootstrapEl0MappingReadiness::Ready => "ready",
            BootstrapEl0MappingReadiness::MissingUserWindow => "missing-user-window",
            BootstrapEl0MappingReadiness::UserWindowAddressOverflow => "user-window-address-overflow",
            BootstrapEl0MappingReadiness::UnalignedUserWindow => "unaligned-user-window",
            BootstrapEl0MappingReadiness::EmptyPayload => "empty-payload",
            BootstrapEl0MappingReadiness::PayloadAddressOverflow => "payload-address-overflow",
            BootstrapEl0MappingReadiness::EntryOutsidePayload => "entry-outside-payload",
            BootstrapEl0MappingReadiness::MissingContext => "missing-context",
            BootstrapEl0MappingReadiness::ContextAddressOverflow => "context-address-overflow",
            BootstrapEl0MappingReadiness::EmptyUserStack => "empty-user-stack",
            BootstrapEl0MappingReadiness::UserStackAddressOverflow => "user-stack-address-overflow",
            BootstrapEl0MappingReadiness::UserWindowTooSmall => "user-window-too-small",
        }
    }
}

/// The bootstrap task's user address space: the image at the bottom of the
/// user window, the context right after it and the stack at the top.
#[derive(Clone, Copy, Debug, PartialEq, Eq, Structural)]
pub struct BootstrapEl0MappingPlan {
    pub readiness: BootstrapEl0MappingReadiness,
    pub user_window_base: u64,
    pub user_window_size: u64,
    pub payload_source_base: u64,
    pub payload_source_size: u64,
    pub payload_source_map_base: u64,
    pub payload_source_map_size: u64,
    pub user_image_base: u64,
    pub user_image_size: u64,
    pub user_entry_point: u64,
    pub context_source_base: u64,
    pub context_source_size: u64,
    pub user_context_base: u64,
    pub user_context_size: u64,
    pub user_stack_base: u64,
    pub user_stack_size: u64,
}

/// The plan before any check: the windows and sources copied in, the rest zero.
pub open spec fn mapping_plan_seed(pt: PageTablePlan, req: BootstrapEl0MappingRequest) -> BootstrapEl0MappingPlan {
    BootstrapEl0MappingPlan {
        readiness: BootstrapEl0MappingReadiness::Ready,
        user_window_base: pt.user_base,
        user_window_size: pt.user_size,
        payload_source_base: req.payload_source_base,
        payload_source_size: req.payload_size,
        payload_source_map_base: 0,
        payload_source_map_size: 0,
        user_image_base: pt.user_base,
        user_image_size: 0,
        user_entry_point: 0,
        context_source_base: req.context_source_base,
        context_source_size: req.context_size,
        user_context_base: 0,
        user_context_size: 0,
        user_stack_base: 0,
        user_stack_size: 0,
    }
}

/// The mapping plan: each check in turn, the first that fails naming the
/// readiness, with the fields computed before it filled in.
pub open spec fn spec_mapping_plan(pt: PageTablePlan, req: BootstrapEl0MappingRequest) -> BootstrapEl0MappingPlan {
    let p0 = mapping_plan_seed(pt, req);
    let window_end = pt.user_base + pt.user_size;
    let payload_end = req.payload_source_base + req.payload_size;
    if window_end > u64::MAX {
        BootstrapEl0MappingPlan { readiness: BootstrapEl0MappingReadiness::UserWindowAddressOverflow, ..p0 }
    } else if pt.user_base == 0 || pt.user_size == 0 {
        BootstrapEl0MappingPlan { readiness: BootstrapEl0MappingReadiness::MissingUserWindow, ..p0 }
    } else if !page_aligned(pt.user_base as int) || !page_aligned(pt.user_size as int) {
        BootstrapEl0MappingPlan { readiness: BootstrapEl0MappingReadiness::UnalignedUserWindow, ..p0 }
    } else if req.payload_size == 0 {
        BootstrapEl0MappingPlan { readiness: BootstrapEl0MappingReadiness::EmptyPayload, ..p0 }
    } else if payload_end > u64::MAX {
        BootstrapEl0MappingPlan { readiness: BootstrapEl0MappingReadiness::PayloadAddressOverflow, ..p0 }
    } else if req.payload_entry_point < req.payload_source_base || req.payload_entry_point >= payload_end {
        BootstrapEl0MappingPlan { readiness: BootstrapEl0MappingReadiness::EntryOutsidePayload, ..p0 }
    } else if align_up_int(payload_end) > u64::MAX {
        BootstrapEl0MappingPlan { readiness: BootstrapEl0MappingReadiness::PayloadAddressOverflow, ..p0 }
    } else {
        let p1 = BootstrapEl0MappingPlan {
            payload_source_map_base: align_down_int(req.payload_source_base as int) as u64,
            payload_source_map_size: (align_up_int(payload_end) - align_down_int(req.payload_source_base as int)) as u64,
            ..p0
        };
        let image_size = align_up_int(req.payload_size as int);
        let entry = pt.user_base + (req.payload_entry_point - req.payload_source_base);
        if image_size > u64::MAX {
            BootstrapEl0MappingPlan { readiness: BootstrapEl0MappingReadiness::PayloadAddressOverflow, ..p1 }
        } else if entry > u64::MAX {
            BootstrapEl0MappingPlan {
                readiness: BootstrapEl0MappingReadiness::PayloadAddressOverflow,
                user_image_size: image_size as u64,
                ..p1
            }
        } else {
            let p2 = BootstrapEl0MappingPlan { user_image_size: image_size as u64, user_entry_point: entry as u64, ..p1 };
            let context_size = align_up_int(req.context_size as int);
            let context_base = pt.user_base + image_size;
            if req.context_source_base == 0 || req.context_size == 0 {
                BootstrapEl0MappingPlan { readiness: BootstrapEl0MappingReadiness::MissingContext, ..p2 }
            } else if req.context_source_base + req.context_size > u64::MAX {
                BootstrapEl0MappingPlan { readiness: BootstrapEl0MappingReadiness::ContextAddressOverflow, ..p2 }
            } else if context_size > u64::MAX {
                BootstrapEl0MappingPlan { readiness: BootstrapEl0MappingReadiness::ContextAddressOverflow, ..p2 }
            } else if context_base > u64::MAX {
                BootstrapEl0MappingPlan {
                    readiness: BootstrapEl0MappingReadiness::PayloadAddressOverflow,
                    user_context_size: context_size as u64,
                    ..p2
                }
            } else {
                let p3 = BootstrapEl0MappingPlan {
                    user_context_size: context_size as u64,
                    user_context_base: context_base as u64,
                    ..p2
                };
                let context_end = context_base + context_size;
                let stack_size = align_up_int(req.user_stack_size as int);
                if context_end > u64::MAX {
                    BootstrapEl0MappingPlan { readiness: BootstrapEl0MappingReadiness::ContextAddressOverflow, ..p3 }
                } else if req.user_stack_size == 0 {
                    BootstrapEl0MappingPlan { readiness: BootstrapEl0MappingReadiness::EmptyUserStack, ..p3 }
                } else if stack_size > u64::MAX {
                    BootstrapEl0MappingPlan { readiness: BootstrapEl0MappingReadiness::UserStackAddressOverflow, ..p3 }
                } else if stack_size > pt.user_size {
                    BootstrapEl0MappingPlan {
                        readiness: BootstrapEl0MappingReadiness::UserWindowTooSmall,
                        user_stack_size: stack_size as u64,
                        ..p3
                    }
                } else {
                    let p4 = BootstrapEl0MappingPlan {
                        user_stack_size: stack_size as u64,
                        user_stack_base: (window_end - stack_size) as u64,
                        ..p3
                    };
                    if context_end > window_end - stack_size {
                        BootstrapEl0MappingPlan { readiness: BootstrapEl0MappingReadiness::UserWindowTooSmall, ..p4 }
                    } else {
                        p4
                    }
                }
            }
        }
    }
}

impl BootstrapEl0MappingPlan {
    fn from_page_table_plan(page_tables: PageTablePlan, request: BootstrapEl0MappingRequest) -> (r: Self)
        ensures
            r == spec_mapping_plan(page_tables, request),
    {
        let mut plan = BootstrapEl0MappingPlan {
            readiness: BootstrapEl0MappingReadiness::Ready,
            user_window_base: page_tables.user_base,
            user_window_size: page_tables.user_size,
            payload_source_base: request.payload_source_base,
            payload_source_size: request.payload_size,
            payload_source_map_base: 0,
            payload_source_map_size: 0,
            user_image_base: page_tables.user_base,
            user_image_size: 0,
            user_entry_point: 0,
            context_source_base: request.context_source_base,
            context_source_size: request.context_size,
            user_context_base: 0,
            user_context_size: 0,
            user_stack_base: 0,
            user_stack_size: 0,
        };
        let user_window_end = match page_tables.user_base.checked_add(page_tables.user_size) {
            Some(v) => v,
            None => {
                plan.readiness = BootstrapEl0MappingReadiness::UserWindowAddressOverflow;
                return plan;
            },
        };
        if page_tables.user_base == 0 || page_tables.user_size == 0 {
            plan.readiness = BootstrapEl0MappingReadiness::MissingUserWindow;
            return plan;
        }
        if !is_page_aligned(page_tables.user_base) || !is_page_aligned(page_tables.user_size) {
            plan.readiness = BootstrapEl0MappingReadiness::UnalignedUserWindow;
            return plan;
        }
        if request.payload_size == 0 {
            plan.readiness = BootstrapEl0MappingReadiness::EmptyPayload;
            return plan;
        }
        let payload_end = match request.payload_source_base.checked_add(request.payload_size) {
            Some(v) => v,
            None => {
                plan.readiness = BootstrapEl0MappingReadiness::PayloadAddressOverflow;
                return plan;
            },
        };
        if request.payload_entry_point < request.payload_source_base || request.payload_entry_point >= payload_end {
            plan.readiness = BootstrapEl0MappingReadiness::EntryOutsidePayload;
            return plan;
        }
        let (map_base, map_size) = match page_range(request.payload_source_base, request.payload_size) {
            Some(v) => v,
            None => {
                plan.readiness = BootstrapEl0MappingReadiness::PayloadAddressOverflow;
                return plan;
            },
        };
        plan.payload_source_map_base = map_base;
        plan.payload_source_map_size = map_size;
        let user_image_size = match align_up(request.payload_size) {
            Some(v) => v,
            None => {
                plan.readiness = BootstrapEl0MappingReadiness::PayloadAddressOverflow;
                return plan;
            },
        };
        plan.user_image_size = user_image_size;
        let entry_offset = request.payload_entry_point - request.payload_source_base;
        let user_entry_point = match plan.user_image_base.checked_add(entry_offset) {
            Some(v) => v,
            None => {
                plan.readiness = BootstrapEl0MappingReadiness::PayloadAddressOverflow;
                return plan;
            },
        };
        plan.user_entry_point = user_entry_point;
        if request.context_source_base == 0 || request.context_size == 0 {
            plan.readiness = BootstrapEl0MappingReadiness::MissingContext;
            return plan;
        }
        if request.context_source_base.checked_add(request.context_size).is_none() {
            plan.readiness = BootstrapEl0MappingReadiness::ContextAddressOverflow;
            return plan;
        }
        let user_context_size = match align_up(request.context_size) {
            Some(v) => v,
            None => {
                plan.readiness = BootstrapEl0MappingReadiness::ContextAddressOverflow;
                return plan;
            },
        };
        plan.user_context_size = user_context_size;
        let user_context_base = match plan.user_image_base.checked_add(plan.user_image_size) {
            Some(v) => v,
            None => {
                plan.readiness = BootstrapEl0MappingReadiness::PayloadAddressOverflow;
                return plan;
            },
        };
        plan.user_context_base = user_context_base;
        let context_end = match user_context_base.checked_add(user_context_size) {
            Some(v) => v,
            None => {
                plan.readiness = BootstrapEl0MappingReadiness::ContextAddressOverflow;
                return plan;
            },
        };
        if request.user_stack_size == 0 {
            plan.readiness = BootstrapEl0MappingReadiness::EmptyUserStack;
            return plan;
        }
        let user_stack_size = match align_up(request.user_stack_size) {
            Some(v) => v,
            None => {
                plan.readiness = BootstrapEl0MappingReadiness::UserStackAddressOverflow;
                return plan;
            },
        };
        plan.user_stack_size = user_stack_size;
        if user_stack_size > page_tables.user_size {
            plan.readiness = BootstrapEl0MappingReadiness::UserWindowTooSmall;
            return plan;
        }
        plan.user_stack_base = user_window_end - user_stack_size;
        if context_end > plan.user_stack_base {
            plan.readiness = BootstrapEl0MappingReadiness::UserWindowTooSmall;
            return plan;
        }
        plan
    }

    /// Whether every check passed.
    pub fn ready(self) -> (r: bool)
        ensures
            r == (self.readiness == BootstrapEl0MappingReadiness::Ready),
    {
        match self.readiness {
            BootstrapEl0MappingReadiness::Ready => true,
            _ => false,
        }
    }
}

/// A ready mapping plan lays out the user window with a
/// page-aligned image, context and stack, in that order and without overlap,
/// each as large as what it holds rounded up to a page, the stack ending at the
/// top of the window, and the entry point inside the copied payload; the
/// window is a nonempty page-aligned range, and the payload's source pages
/// cover the whole payload.
pub proof fn lemma_ready_mapping_plan_layout(pt: PageTablePlan, req: BootstrapEl0MappingRequest)
    requires
        spec_mapping_plan(pt, req).readiness == BootstrapEl0MappingReadiness::Ready,
    ensures
        ({
            let p = spec_mapping_plan(pt, req);
            &&& p.user_window_base == pt.user_base && p.user_window_size == pt.user_size
            &&& page_aligned(p.user_image_base as int) && page_aligned(p.user_image_size as int)
            &&& page_aligned(p.user_context_base as int) && page_aligned(p.user_context_size as int)
            &&& page_aligned(p.user_stack_base as int) && page_aligned(p.user_stack_size as int)
            &&& p.user_image_base == pt.user_base
            &&& p.user_image_base + p.user_image_size == p.user_context_base
            &&& p.user_context_base + p.user_context_size <= p.user_stack_base
            &&& p.user_stack_base + p.user_stack_size == pt.user_base + pt.user_size
            &&& req.payload_size <= p.user_image_size < req.payload_size + 4096
            &&& req.context_size <= p.user_context_size < req.context_size + 4096
            &&& req.user_stack_size <= p.user_stack_size < req.user_stack_size + 4096
            &&& p.user_image_base <= p.user_entry_point < p.user_image_base + req.payload_size
            &&& p.user_entry_point - p.user_image_base == req.payload_entry_point - req.payload_source_base
            &&& pt.user_base != 0 && pt.user_size != 0 && page_aligned(pt.user_base as int) && page_aligned(pt.user_size as int)
            &&& 0 < req.context_size && 0 < req.user_stack_size
            &&& page_aligned(p.payload_source_map_base as int)
            &&& p.payload_source_map_base <= req.payload_source_base
            &&& req.payload_source_base + req.payload_size <= p.payload_source_map_base + p.payload_source_map_size
        }),
{
}


// ---------------------------------------------------------------------------
// Page mappings and the translation-table plan
// ---------------------------------------------------------------------------

/// Memory type of a mapping.
#[derive(Clone, Copy, Debug, PartialEq, Eq, Structural)]
pub enum Arm64MemoryAttr {
    NormalCached,
    DeviceNgNre,
}

/// Who may touch a mapping, and how.
#[derive(Clone, Copy, Debug, PartialEq, Eq, Structural)]
pub enum Arm64AccessPerm {
    KernelReadWrite,
    UserReadOnly,
    UserReadExecute,
    UserReadWrite,
}

/// One contiguous virtual-to-physical mapping.
#[derive(Clone, Copy, Debug, PartialEq, Eq, Structural)]
pub struct Arm64PageMapping {
    pub virt_base: u64,
    pub phys_base: u64,
    pub size: u64,
    pub attr: Arm64MemoryAttr,
    pub access: Arm64AccessPerm,
    pub execute_never: bool,
}

/// The mapping of nothing.
pub open spec fn empty_mapping() -> Arm64PageMapping {
    Arm64PageMapping {
        virt_base: 0,
        phys_base: 0,
        size: 0,
        attr: Arm64MemoryAttr::NormalCached,
        access: Arm64AccessPerm::KernelReadWrite,
        execute_never: true,
    }
}

impl Arm64PageMapping {
    pub open spec fn spec_is_page_aligned(self) -> bool {
        page_aligned(self.virt_base as int) && page_aligned(self.phys_base as int) && page_aligned(self.size as int)
    }

    /// The mapping of nothing, kernel-only and never executable.
    pub fn empty() -> (r: Self)
        ensures
            r == empty_mapping(),
    {
        Arm64PageMapping {
            virt_base: 0,
            phys_base: 0,
            size: 0,
            attr: Arm64MemoryAttr::NormalCached,
            access: Arm64AccessPerm::KernelReadWrite,
            execute_never: true,
        }
    }

    /// A mapping from its parts.
    pub fn new(
        virt_base: u64,
        phys_base: u64,
        size: u64,
        attr: Arm64MemoryAttr,
        access: Arm64AccessPerm,
        execute_never: bool,
    ) -> (r: Self)
        ensures
            r == (Arm64PageMapping { virt_base, phys_base, size, attr, access, execute_never }),
    {
        Arm64PageMapping { virt_base, phys_base, size, attr, access, execute_never }
    }

    /// Whether both bases and the size are page aligned.
    pub fn is_page_aligned(self) -> (r: bool)
        ensures
            r == self.spec_is_page_aligned(),
    {
        is_page_aligned(self.virt_base) && is_page_aligned(self.phys_base) && is_page_aligned(self.size)
    }
}

/// The physical side of the bootstrap address space.
#[derive(Clone, Copy, Debug, PartialEq, Eq, Structural)]
pub struct BootstrapEl0PageTableRequest {
    pub kernel_base: u64,
    pub kernel_size: u64,
    pub user_image_phys_base: u64,
    pub user_context_phys_base: u64,
    pub user_stack_phys_base: u64,
    pub page_table_phys_base: u64,
    pub page_table_size: u64,
}

impl BootstrapEl0PageTableRequest {
    /// A request from its parts.
    pub fn new(
        kernel_base: u64,
        kernel_size: u64,
        user_image_phys_base: u64,
        user_context_phys_base: u64,
        user_stack_phys_base: u64,
        page_table_phys_base: u64,
        page_table_size: u64,
    ) -> (r: Self)
        ensures
            r == (BootstrapEl0PageTableRequest {
                kernel_base,
                kernel_size,
                user_image_phys_base,
                user_context_phys_base,
                user_stack_phys_base,
                page_table_phys_base,
                page_table_size,
            }),
    {
        BootstrapEl0PageTableRequest {
            kernel_base,
            kernel_size,
            user_image_phys_base,
            user_context_phys_base,
            user_stack_phys_base,
            page_table_phys_base,
            page_table_size,
        }
    }
}

/// Why a translation-table plan is not ready, or that it is.
#[derive(Clone, Copy, Debug, PartialEq, Eq, Structural)]
pub enum BootstrapEl0PageTableReadiness {
    Ready,
    MappingPlanNotReady,
    MissingKernelMapping,
    MissingPageTableArena,
    UnalignedMapping,
    UnalignedPageTableArena,
    PageTableArenaTooSmall,
    UnsupportedVirtualAddressLayout,
    MappingAddressOverflow,
}

impl BootstrapEl0PageTableReadiness {
    pub open spec fn spec_label(self) -> Seq<char> {
        match self {
            BootstrapEl0PageTableReadiness::Ready => "ready"@,
            BootstrapEl0PageTableReadiness::MappingPlanNotReady => "mapping-plan-not-ready"@,
            BootstrapEl0PageTableReadiness::MissingKernelMapping => "missing-kernel-mapping"@,
            BootstrapEl0PageTableReadiness::MissingPageTableArena => "missing-page-table-arena"@,
            BootstrapEl0PageTableReadiness::UnalignedMapping => "unaligned-mapping"@,
            BootstrapEl0PageTableReadiness::UnalignedPageTableArena => "unaligned-page-table-arena"@,
            BootstrapEl0PageTableReadiness::PageTableArenaTooSmall => "page-table-arena-too-small"@,
            BootstrapEl0PageTableReadiness::UnsupportedVirtualAddressLayout => "unsupported-virtual-address-layout"@,
            BootstrapEl0PageTableReadiness::MappingAddressOverflow => "mapping-address-overflow"@,
        }
    }

    /// A stable kebab-case name.
    pub fn label(self) -> (r: &'static str)
        ensures
            r@ == self.spec_label(),
    {
        match self {
            BootstrapEl0PageTableReadiness::Ready => "ready",
            BootstrapEl0PageTableReadiness::MappingPlanNotReady => "mapping-plan-not-ready",
            BootstrapEl0PageTableReadiness::MissingKernelMapping => "missing-kernel-mapping",
            BootstrapEl0PageTableReadiness::MissingPageTableArena => "missing-page-table-arena",
            BootstrapEl0PageTableReadiness::UnalignedMapping => "unaligned-mapping",
            BootstrapEl0PageTableReadiness::UnalignedPageTableArena => "unaligned-page-table-arena",
            BootstrapEl0PageTableReadiness::PageTableArenaTooSmall => "page-table-arena-too-small",
            BootstrapEl0PageTableReadiness::UnsupportedVirtualAddressLayout => "unsupported-virtual-address-layout",
            BootstrapEl0PageTableReadiness::MappingAddressOverflow => "mapping-address-overflow",
        }
    }
}

/// The four mappings of the bootstrap address space and where its six
/// translation tables live.
#[derive(Clone, Copy, Debug, PartialEq, Eq, Structural)]
pub struct BootstrapEl0PageTablePlan {
    pub readiness: BootstrapEl0PageTableReadiness,
    pub source_readiness: BootstrapEl0MappingReadiness,
    pub payload_copy_source_base: u64,
    pub payload_copy_source_size: u64,
    pub context_copy_source_base: u64,
    pub context_copy_source_size: u64,
    pub kernel_mapping: Arm64PageMapping,
    pub user_image_mapping: Arm64PageMapping,
    pub user_context_mapping: Arm64PageMapping,
    pub user_stack_mapping: Arm64PageMapping,
    pub page_table_phys_base: u64,
    pub page_table_size: u64,
    pub page_table_bytes: u64,
    pub root_table_phys_base: u64,
    pub l1_table_phys_base: u64,
    pub kernel_l2_table_phys_base: u64,
    pub kernel_l3_table_phys_base: u64,
    pub user_l2_table_phys_base: u64,
    pub user_l3_table_phys_base: u64,
}

/// Index of the level-0 entry that translates `v`.
pub open spec fn spec_l0_index(v: u64) -> usize {
    ((v >> 39u64) & 0x1ffu64) as usize
}

/// Index of the level-1 entry that translates `v`.
pub open spec fn spec_l1_index(v: u64) -> usize {
    ((v >> 30u64) & 0x1ffu64) as usize
}

/// Index of the level-2 entry that translates `v`.
pub open spec fn spec_l2_index(v: u64) -> usize {
    ((v >> 21u64) & 0x1ffu64) as usize
}

/// Index of the level-3 entry that translates `v`.
pub open spec fn spec_l3_index(v: u64) -> usize {
    ((v >> 12u64) & 0x1ffu64) as usize
}

proof fn lemma_indices_in_table(v: u64)
    ensures
        spec_l0_index(v) < 512,
        spec_l1_index(v) < 512,
        spec_l2_index(v) < 512,
        spec_l3_index(v) < 512,
{
    assert((v >> 39u64) & 0x1ffu64 < 512) by (bit_vector);
    assert((v >> 30u64) & 0x1ffu64 < 512) by (bit_vector);
    assert((v >> 21u64) & 0x1ffu64 < 512) by (bit_vector);
    assert((v >> 12u64) & 0x1ffu64 < 512) by (bit_vector);
}

/// The four table indices split a 48-bit virtual address: nine bits each
/// for levels 0 to 3, above the 12-bit offset within the page, so the address
/// is rebuilt from its indices and its page offset.
pub proof fn lemma_indices_split_address(v: u64)
    requires
        v < 0x1_0000_0000_0000,
    ensures
        spec_l0_index(v) < 512 && spec_l1_index(v) < 512 && spec_l2_index(v) < 512 && spec_l3_index(v) < 512,
        v as int == spec_l0_index(v) as int * 0x80_0000_0000 + spec_l1_index(v) as int * 0x4000_0000
            + spec_l2_index(v) as int * 0x20_0000 + spec_l3_index(v) as int * 0x1000 + v as int % 0x1000,
{
    lemma_indices_in_table(v);
    let a = (v >> 39u64) & 0x1ffu64;
    let b = (v >> 30u64) & 0x1ffu64;
    let c = (v >> 21u64) & 0x1ffu64;
    let d = (v >> 12u64) & 0x1ffu64;
    let o = v & 0xfffu64;
    assert(v == a * 0x80_0000_0000 + b * 0x4000_0000 + c * 0x20_0000 + d * 0x1000 + o && o == v % 0x1000 && a < 512 && b < 512
        && c < 512 && d < 512 && o < 0x1000) by (bit_vector)
        requires
            v < 0x1_0000_0000_0000,
            a == (v >> 39u64) & 0x1ffu64,
            b == (v >> 30u64) & 0x1ffu64,
            c == (v >> 21u64) & 0x1ffu64,
            d == (v >> 12u64) & 0x1ffu64,
            o == v & 0xfffu64,
    ;
    assert(spec_l0_index(v) as int == a as int);
    assert(spec_l1_index(v) as int == b as int);
    assert(spec_l2_index(v) as int == c as int);
    assert(spec_l3_index(v) as int == d as int);
    assert(v as int == a as int * 0x80_0000_0000 + b as int * 0x4000_0000 + c as int * 0x20_0000 + d as int * 0x1000 + o as int);
}

/// Index of the level-0 entry that translates `virt_base`.
pub fn l0_index(virt_base: u64) -> (r: usize)
    ensures
        r == spec_l0_index(virt_base),
        r < 512,
{
    proof { lemma_indices_in_table(virt_base); }
    ((virt_base >> 39u64) & 0x1ffu64) as usize
}

/// Index of the level-1 entry that translates `virt_base`.
pub fn l1_index(virt_base: u64) -> (r: usize)
    ensures
        r == spec_l1_index(virt_base),
        r < 512,
{
    proof { lemma_indices_in_table(virt_base); }
    ((virt_base >> 30u64) & 0x1ffu64) as usize
}

/// Index of the level-2 entry that translates `virt_base`.
pub fn l2_index(virt_base: u64) -> (r: usize)
    ensures
        r == spec_l2_index(virt_base),
        r < 512,
{
    proof { lemma_indices_in_table(virt_base); }
    ((virt_base >> 21u64) & 0x1ffu64) as usize
}

/// Index of the level-3 entry that translates `virt_base`.
pub fn l3_index(virt_base: u64) -> (r: usize)
    ensures
        r == spec_l3_index(virt_base),
        r < 512,
{
    proof { lemma_indices_in_table(virt_base); }
    ((virt_base >> 12u64) & 0x1ffu64) as usize
}

/// Where one mapping's pages sit in the table hierarchy.
#[derive(Clone, Copy, Debug, PartialEq, Eq, Structural)]
pub struct MappingSpan {
    pub l0_index: usize,
    pub l1_index: usize,
    pub l2_index: usize,
    pub l3_start: usize,
    pub page_count: u64,
}

/// The span of a non-empty aligned mapping that stays inside one level-3 table.
pub open spec fn spec_mapping_span(m: Arm64PageMapping) -> Option<MappingSpan> {
    if !m.spec_is_page_aligned() || m.size == 0 || m.virt_base + m.size > u64::MAX {
        None
    } else {
        let end = (m.virt_base + m.size - 1) as u64;
        if spec_l0_index(m.virt_base) != spec_l0_index(end) || spec_l1_index(m.virt_base) != spec_l1_index(end)
            || spec_l2_index(m.virt_base) != spec_l2_index(end) {
            None
        } else if spec_l3_index(m.virt_base) + m.size / 4096 > 512 {
            None
        } else {
            Some(MappingSpan {
                l0_index: spec_l0_index(m.virt_base),
                l1_index: spec_l1_index(m.virt_base),
                l2_index: spec_l2_index(m.virt_base),
                l3_start: spec_l3_index(m.virt_base),
                page_count: (m.size / 4096) as u64,
            })
        }
    }
}

impl MappingSpan {
    /// The span of `mapping`, where it fits one level-3 table.
    pub fn from_mapping(mapping: Arm64PageMapping) -> (r: Option<Self>)
        ensures
            r == spec_mapping_span(mapping),
    {
        if !mapping.is_page_aligned() || mapping.size == 0 {
            return None;
        }
        let end = match mapping.virt_base.checked_add(mapping.size) {
            Some(e) => e - 1,
            None => return None,
        };
        if l0_index(mapping.virt_base) != l0_index(end) || l1_index(mapping.virt_base) != l1_index(end)
            || l2_index(mapping.virt_base) != l2_index(end) {
            return None;
        }
        let l3_start = l3_index(mapping.virt_base);
        let page_count = mapping.size / PAGE_SIZE;
        if l3_start as u64 + page_count > 512 {
            return None;
        }
        Some(MappingSpan {
            l0_index: l0_index(mapping.virt_base),
            l1_index: l1_index(mapping.virt_base),
            l2_index: l2_index(mapping.virt_base),
            l3_start,
            page_count,
        })
    }
}

/// Which table entries the bootstrap address space uses.
#[derive(Clone, Copy, Debug, PartialEq, Eq, Structural)]
pub struct BootstrapEl0TranslationTableLayout {
    pub l0_index: usize,
    pub kernel_l1_index: usize,
    pub kernel_l2_index: usize,
    pub kernel_l3_start: usize,
    pub user_l1_index: usize,
    pub user_l2_index: usize,
    pub user_image_l3_start: usize,
    pub user_context_l3_start: usize,
    pub user_stack_l3_start: usize,
}

/// The layout, where the four mappings share one level-0 entry, the user
/// mappings share one level-2 table and the kernel has a level-1 entry of its own.
pub open spec fn spec_layout(
    kernel: Arm64PageMapping,
    image: Arm64PageMapping,
    context: Arm64PageMapping,
    stack: Arm64PageMapping,
) -> Option<BootstrapEl0TranslationTableLayout> {
    match (spec_mapping_span(kernel), spec_mapping_span(image), spec_mapping_span(context), spec_mapping_span(stack)) {
        (Some(k), Some(i), Some(c), Some(s)) => {
            if k.l0_index != i.l0_index || i.l0_index != c.l0_index || c.l0_index != s.l0_index {
                None
            } else if i.l1_index != c.l1_index || c.l1_index != s.l1_index || i.l2_index != c.l2_index
                || c.l2_index != s.l2_index {
                None
            } else if k.l1_index == i.l1_index {
                None
            } else {
                Some(BootstrapEl0TranslationTableLayout {
                    l0_index: k.l0_index,
                    kernel_l1_index: k.l1_index,
                    kernel_l2_index: k.l2_index,
                    kernel_l3_start: k.l3_start,
                    user_l1_index: i.l1_index,
                    user_l2_index: i.l2_index,
                    user_image_l3_start: i.l3_start,
                    user_context_l3_start: c.l3_start,
                    user_stack_l3_start: s.l3_start,
                })
            }
        },
        _ => None,
    }
}

/// The layout of a plan's four mappings.
pub open spec fn spec_plan_layout(plan: BootstrapEl0PageTablePlan) -> Option<BootstrapEl0TranslationTableLayout> {
    spec_layout(plan.kernel_mapping, plan.user_image_mapping, plan.user_context_mapping, plan.user_stack_mapping)
}

impl BootstrapEl0TranslationTableLayout {
    /// The layout of a plan's four mappings, where they fit the six tables.
    pub fn from_plan(plan: BootstrapEl0PageTablePlan) -> (r: Option<Self>)
        ensures
            r == spec_plan_layout(plan),
    {
        let kernel = match MappingSpan::from_mapping(plan.kernel_mapping) {
            Some(s) => s,
            None => return None,
        };
        let user_image = match MappingSpan::from_mapping(plan.user_image_mapping) {
            Some(s) => s,
            None => return None,
        };
        let user_context = match MappingSpan::from_mapping(plan.user_context_mapping) {
            Some(s) => s,
            None => return None,
        };
        let user_stack = match MappingSpan::from_mapping(plan.user_stack_mapping) {
            Some(s) => s,
            None => return None,
        };
        if kernel.l0_index != user_image.l0_index || user_image.l0_index != user_context.l0_index
            || user_context.l0_index != user_stack.l0_index {
            return None;
        }
        if user_image.l1_index != user_context.l1_index || user_context.l1_index != user_stack.l1_index
            || user_image.l2_index != user_context.l2_index || user_context.l2_index != user_stack.l2_index {
            return None;
        }
        if kernel.l1_index == user_image.l1_index {
            return None;
        }
        Some(BootstrapEl0TranslationTableLayout {
            l0_index: kernel.l0_index,
            kernel_l1_index: kernel.l1_index,
            kernel_l2_index: kernel.l2_index,
            kernel_l3_start: kernel.l3_start,
            user_l1_index: user_image.l1_index,
            user_l2_index: user_image.l2_index,
            user_image_l3_start: user_image.l3_start,
            user_context_l3_start: user_context.l3_start,
            user_stack_l3_start: user_stack.l3_start,
        })
    }
}

/// Whether both ends of a mapping stay inside `u64`.
pub open spec fn mapping_fits(m: Arm64PageMapping) -> bool {
    m.phys_base + m.size <= u64::MAX && m.virt_base + m.size <= u64::MAX
}

fn mapping_end(mapping: Arm64PageMapping) -> (r: Option<u64>)
    ensures
        r is Some <==> mapping_fits(mapping),
        r is Some ==> r->0 == mapping.virt_base + mapping.size,
{
    if mapping.phys_base.checked_add(mapping.size).is_none() {
        return None;
    }
    mapping.virt_base.checked_add(mapping.size)
}

/// Physical base of table number `table_index` in the table arena.
pub open spec fn spec_table_phys_base(page_table_phys_base: u64, table_index: int) -> u64 {
    (page_table_phys_base + table_index * 4096) as u64
}

fn table_phys_base(page_table_phys_base: u64, table_index: usize) -> (r: u64)
    requires
        table_index <= 5,
        page_table_phys_base + 0x6000 <= u64::MAX,
    ensures
        r == spec_table_phys_base(page_table_phys_base, table_index as int),
{
    page_table_phys_base + (table_index as u64) * PAGE_SIZE
}

/// The plan before any check: the sources copied in, the rest empty.
pub open spec fn page_table_plan_seed(m: BootstrapEl0MappingPlan, req: BootstrapEl0PageTableRequest) -> BootstrapEl0PageTablePlan {
    BootstrapEl0PageTablePlan {
        readiness: BootstrapEl0PageTableReadiness::Ready,
        source_readiness: m.readiness,
        payload_copy_source_base: m.payload_source_base,
        payload_copy_source_size: m.payload_source_size,
        context_copy_source_base: m.context_source_base,
        context_copy_source_size: m.context_source_size,
        kernel_mapping: empty_mapping(),
        user_image_mapping: empty_mapping(),
        user_context_mapping: empty_mapping(),
        user_stack_mapping: empty_mapping(),
        page_table_phys_base: req.page_table_phys_base,
        page_table_size: req.page_table_size,
        page_table_bytes: 0,
        root_table_phys_base: 0,
        l1_table_phys_base: 0,
        kernel_l2_table_phys_base: 0,
        kernel_l3_table_phys_base: 0,
        user_l2_table_phys_base: 0,
        user_l3_table_phys_base: 0,
    }
}

/// The plan with its four mappings: the kernel identity-mapped read-write and
/// executable, the image user read-execute, the context user read-only and the
/// stack user read-write, the last two never executable.
pub open spec fn page_table_plan_mapped(m: BootstrapEl0MappingPlan, req: BootstrapEl0PageTableRequest) -> BootstrapEl0PageTablePlan {
    BootstrapEl0PageTablePlan {
        kernel_mapping: Arm64PageMapping {
            virt_base: req.kernel_base,
            phys_base: req.kernel_base,
            size: align_up_int(req.kernel_size as int) as u64,
            attr: Arm64MemoryAttr::NormalCached,
            access: Arm64AccessPerm::KernelReadWrite,
            execute_never: false,
        },
        user_image_mapping: Arm64PageMapping {
            virt_base: m.user_image_base,
            phys_base: req.user_image_phys_base,
            size: m.user_image_size,
            attr: Arm64MemoryAttr::NormalCached,
            access: Arm64AccessPerm::UserReadExecute,
            execute_never: false,
        },
        user_context_mapping: Arm64PageMapping {
            virt_base: m.user_context_base,
            phys_base: req.user_context_phys_base,
            size: m.user_context_size,
            attr: Arm64MemoryAttr::NormalCached,
            access: Arm64AccessPerm::UserReadOnly,
            execute_never: true,
        },
        user_stack_mapping: Arm64PageMapping {
            virt_base: m.user_stack_base,
            phys_base: req.user_stack_phys_base,
            size: m.user_stack_size,
            attr: Arm64MemoryAttr::NormalCached,
            access: Arm64AccessPerm::UserReadWrite,
            execute_never: true,
        },
        ..page_table_plan_seed(m, req)
    }
}

/// The translation-table plan: each check in turn, the first that fails
/// naming the readiness.
pub open spec fn spec_page_table_plan(m: BootstrapEl0MappingPlan, req: BootstrapEl0PageTableRequest) -> BootstrapEl0PageTablePlan {
    let p0 = page_table_plan_seed(m, req);
    let p1 = page_table_plan_mapped(m, req);
    let base = req.page_table_phys_base;
    if m.readiness != BootstrapEl0MappingReadiness::Ready {
        BootstrapEl0PageTablePlan { readiness: BootstrapEl0PageTableReadiness::MappingPlanNotReady, ..p0 }
    } else if req.kernel_base == 0 || req.kernel_size == 0 {
        BootstrapEl0PageTablePlan { readiness: BootstrapEl0PageTableReadiness::MissingKernelMapping, ..p0 }
    } else if align_up_int(req.kernel_size as int) > u64::MAX {
        BootstrapEl0PageTablePlan { readiness: BootstrapEl0PageTableReadiness::MappingAddressOverflow, ..p0 }
    } else if !p1.kernel_mapping.spec_is_page_aligned() || !p1.user_image_mapping.spec_is_page_aligned()
        || !p1.user_context_mapping.spec_is_page_aligned() || !p1.user_stack_mapping.spec_is_page_aligned() {
        BootstrapEl0PageTablePlan { readiness: BootstrapEl0PageTableReadiness::UnalignedMapping, ..p1 }
    } else if !mapping_fits(p1.kernel_mapping) || !mapping_fits(p1.user_image_mapping)
        || !mapping_fits(p1.user_context_mapping) || !mapping_fits(p1.user_stack_mapping) {
        BootstrapEl0PageTablePlan { readiness: BootstrapEl0PageTableReadiness::MappingAddressOverflow, ..p1 }
    } else if base == 0 || req.page_table_size == 0 {
        BootstrapEl0PageTablePlan { readiness: BootstrapEl0PageTableReadiness::MissingPageTableArena, ..p1 }
    } else if !page_aligned(base as int) || !page_aligned(req.page_table_size as int) {
        BootstrapEl0PageTablePlan { readiness: BootstrapEl0PageTableReadiness::UnalignedPageTableArena, ..p1 }
    } else if base + req.page_table_size > u64::MAX || base + 0x6000 > u64::MAX {
        BootstrapEl0PageTablePlan { readiness: BootstrapEl0PageTableReadiness::MappingAddressOverflow, ..p1 }
    } else if req.page_table_size < 0x6000 {
        BootstrapEl0PageTablePlan { readiness: BootstrapEl0PageTableReadiness::PageTableArenaTooSmall, ..p1 }
    } else if spec_plan_layout(p1) is None {
        BootstrapEl0PageTablePlan { readiness: BootstrapEl0PageTableReadiness::UnsupportedVirtualAddressLayout, ..p1 }
    } else {
        BootstrapEl0PageTablePlan {
            page_table_bytes: 0x6000,
            root_table_phys_base: base,
            l1_table_phys_base: spec_table_phys_base(base, 1),
            kernel_l2_table_phys_base: spec_table_phys_base(base, 2),
            kernel_l3_table_phys_base: spec_table_phys_base(base, 3),
            user_l2_table_phys_base: spec_table_phys_base(base, 4),
            user_l3_table_phys_base: spec_table_phys_base(base, 5),
            ..p1
        }
    }
}

/// A ready translation-table plan comes from a ready mapping plan and a
/// kernel window, maps the kernel window and the image, context and stack
/// onto the requested frames with page-aligned mappings that do not wrap,
/// fits the four mappings into one shared set of tables, and places its six
/// tables one page apart at the start of a page-aligned arena large enough
/// for them.
pub proof fn lemma_ready_page_table_plan(m: BootstrapEl0MappingPlan, req: BootstrapEl0PageTableRequest)
    requires
        spec_page_table_plan(m, req).readiness == BootstrapEl0PageTableReadiness::Ready,
    ensures
        ({
            let p = spec_page_table_plan(m, req);
            let base = req.page_table_phys_base;
            &&& m.readiness == BootstrapEl0MappingReadiness::Ready
            &&& req.kernel_base != 0 && req.kernel_size != 0
            &&& p.kernel_mapping.virt_base == req.kernel_base && p.kernel_mapping.phys_base == req.kernel_base
            &&& p.kernel_mapping.size as int == align_up_int(req.kernel_size as int)
            &&& p.user_image_mapping.virt_base == m.user_image_base && p.user_image_mapping.phys_base == req.user_image_phys_base
            &&& p.user_image_mapping.size == m.user_image_size
            &&& p.user_context_mapping.virt_base == m.user_context_base
            &&& p.user_context_mapping.phys_base == req.user_context_phys_base
            &&& p.user_context_mapping.size == m.user_context_size
            &&& p.user_stack_mapping.virt_base == m.user_stack_base && p.user_stack_mapping.phys_base == req.user_stack_phys_base
            &&& p.user_stack_mapping.size == m.user_stack_size
            &&& p.kernel_mapping.spec_is_page_aligned() && mapping_fits(p.kernel_mapping)
            &&& p.user_image_mapping.spec_is_page_aligned() && mapping_fits(p.user_image_mapping)
            &&& p.user_context_mapping.spec_is_page_aligned() && mapping_fits(p.user_context_mapping)
            &&& p.user_stack_mapping.spec_is_page_aligned() && mapping_fits(p.user_stack_mapping)
            &&& spec_plan_layout(p) is Some
            &&& base != 0 && page_aligned(base as int) && page_aligned(req.page_table_size as int)
            &&& 0x6000 <= req.page_table_size && base + req.page_table_size <= u64::MAX
            &&& p.page_table_bytes == 0x6000
            &&& p.root_table_phys_base == base
            &&& p.l1_table_phys_base == base + 0x1000
            &&& p.kernel_l2_table_phys_base == base + 0x2000
            &&& p.kernel_l3_table_phys_base == base + 0x3000
            &&& p.user_l2_table_phys_base == base + 0x4000
            &&& p.user_l3_table_phys_base == base + 0x5000
        }),
{
}

impl BootstrapEl0MappingPlan {
    /// Plans the translation tables that realise this mapping plan.
    pub fn page_table_plan(self, request: BootstrapEl0PageTableRequest) -> (r: BootstrapEl0PageTablePlan)
        ensures
            r == spec_page_table_plan(self, request),
    {
        BootstrapEl0PageTablePlan::from_mapping_plan(self, request)
    }
}

impl BootstrapEl0PageTablePlan {
    fn from_mapping_plan(mapping: BootstrapEl0MappingPlan, request: BootstrapEl0PageTableRequest) -> (r: Self)
        ensures
            r == spec_page_table_plan(mapping, request),
    {
        let mut plan = BootstrapEl0PageTablePlan {
            readiness: BootstrapEl0PageTableReadiness::Ready,
            source_readiness: mapping.readiness,
            payload_copy_source_base: mapping.payload_source_base,
            payload_copy_source_size: mapping.payload_source_size,
            context_copy_source_base: mapping.context_source_base,
            context_copy_source_size: mapping.context_source_size,
            kernel_mapping: Arm64PageMapping::empty(),
            user_image_mapping: Arm64PageMapping::empty(),
            user_context_mapping: Arm64PageMapping::empty(),
            user_stack_mapping: Arm64PageMapping::empty(),
            page_table_phys_base: request.page_table_phys_base,
            page_table_size: request.page_table_size,
            page_table_bytes: 0,
            root_table_phys_base: 0,
            l1_table_phys_base: 0,
            kernel_l2_table_phys_base: 0,
            kernel_l3_table_phys_base: 0,
            user_l2_table_phys_base: 0,
            user_l3_table_phys_base: 0,
        };
        if !mapping.ready() {
            plan.readiness = BootstrapEl0PageTableReadiness::MappingPlanNotReady;
            return plan;
        }
        if request.kernel_base == 0 || request.kernel_size == 0 {
            plan.readiness = BootstrapEl0PageTableReadiness::MissingKernelMapping;
            return plan;
        }
        let kernel_size = match align_up(request.kernel_size) {
            Some(v) => v,
            None => {
                plan.readiness = BootstrapEl0PageTableReadiness::MappingAddressOverflow;
                return plan;
            },
        };
        plan.kernel_mapping = Arm64PageMapping::new(
            request.kernel_base,
            request.kernel_base,
            kernel_size,
            Arm64MemoryAttr::NormalCached,
            Arm64AccessPerm::KernelReadWrite,
            false,
        );
        plan.user_image_mapping = Arm64PageMapping::new(
            mapping.user_image_base,
            request.user_image_phys_base,
            mapping.user_image_size,
            Arm64MemoryAttr::NormalCached,
            Arm64AccessPerm::UserReadExecute,
            false,
        );
        plan.user_context_mapping = Arm64PageMapping::new(
            mapping.user_context_base,
            request.user_context_phys_base,
            mapping.user_context_size,
            Arm64MemoryAttr::NormalCached,
            Arm64AccessPerm::UserReadOnly,
            true,
        );
        plan.user_stack_mapping = Arm64PageMapping::new(
            mapping.user_stack_base,
            request.user_stack_phys_base,
            mapping.user_stack_size,
            Arm64MemoryAttr::NormalCached,
            Arm64AccessPerm::UserReadWrite,
            true,
        );
        assert(plan == page_table_plan_mapped(mapping, request));
        if !plan.kernel_mapping.is_page_aligned() || !plan.user_image_mapping.is_page_aligned()
            || !plan.user_context_mapping.is_page_aligned() || !plan.user_stack_mapping.is_page_aligned() {
            plan.readiness = BootstrapEl0PageTableReadiness::UnalignedMapping;
            return plan;
        }
        if mapping_end(plan.kernel_mapping).is_none() || mapping_end(plan.user_image_mapping).is_none()
            || mapping_end(plan.user_context_mapping).is_none() || mapping_end(plan.user_stack_mapping).is_none() {
            plan.readiness = BootstrapEl0PageTableReadiness::MappingAddressOverflow;
            return plan;
        }
        if request.page_table_phys_base == 0 || request.page_table_size == 0 {
            plan.readiness = BootstrapEl0PageTableReadiness::MissingPageTableArena;
            return plan;
        }
        if !is_page_aligned(request.page_table_phys_base) || !is_page_aligned(request.page_table_size) {
            plan.readiness = BootstrapEl0PageTableReadiness::UnalignedPageTableArena;
            return plan;
        }
        let arena_end = match request.page_table_phys_base.checked_add(request.page_table_size) {
            Some(v) => v,
            None => {
                plan.readiness = BootstrapEl0PageTableReadiness::MappingAddressOverflow;
                return plan;
            },
        };
        let table_end = match request.page_table_phys_base.checked_add(BOOTSTRAP_EL0_TRANSLATION_TABLE_BYTES) {
            Some(v) => v,
            None => {
                plan.readiness = BootstrapEl0PageTableReadiness::MappingAddressOverflow;
                return plan;
            },
        };
        if table_end > arena_end {
            plan.readiness = BootstrapEl0PageTableReadiness::PageTableArenaTooSmall;
            return plan;
        }
        if BootstrapEl0TranslationTableLayout::from_plan(plan).is_none() {
            plan.readiness = BootstrapEl0PageTableReadiness::UnsupportedVirtualAddressLayout;
            return plan;
        }
        let base = request.page_table_phys_base;
        plan.page_table_bytes = BOOTSTRAP_EL0_TRANSLATION_TABLE_BYTES;
        plan.root_table_phys_base = base;
        plan.l1_table_phys_base = table_phys_base(base, L1_TABLE_INDEX);
        plan.kernel_l2_table_phys_base = table_phys_base(base, KERNEL_L2_TABLE_INDEX);
        plan.kernel_l3_table_phys_base = table_phys_base(base, KERNEL_L3_TABLE_INDEX);
        plan.user_l2_table_phys_base = table_phys_base(base, USER_L2_TABLE_INDEX);
        plan.user_l3_table_phys_base = table_phys_base(base, USER_L3_TABLE_INDEX);
        plan
    }

    /// Whether every check passed.
    pub fn ready(self) -> (r: bool)
        ensures
            r == (self.readiness == BootstrapEl0PageTableReadiness::Ready),
    {
        match self.readiness {
            BootstrapEl0PageTableReadiness::Ready => true,
            _ => false,
        }
    }
}


// ---------------------------------------------------------------------------
// Descriptors and table construction
// ---------------------------------------------------------------------------

pub open spec fn spec_memory_attr_index(attr: Arm64MemoryAttr) -> u64 {
    match attr {
        Arm64MemoryAttr::NormalCached => 0,
        Arm64MemoryAttr::DeviceNgNre => 1,
    }
}

pub open spec fn spec_access_perm_bits(access: Arm64AccessPerm) -> u64 {
    match access {
        Arm64AccessPerm::KernelReadWrite => 0,
        Arm64AccessPerm::UserReadWrite => 1,
        Arm64AccessPerm::UserReadOnly => 3,
        Arm64AccessPerm::UserReadExecute => 3,
    }
}

pub open spec fn spec_shareability_bits(attr: Arm64MemoryAttr) -> u64 {
    match attr {
        Arm64MemoryAttr::NormalCached => 0x300,
        Arm64MemoryAttr::DeviceNgNre => 0x200,
    }
}

pub open spec fn spec_non_global_bit(access: Arm64AccessPerm) -> u64 {
    match access {
        Arm64AccessPerm::KernelReadWrite => 0,
        _ => DESCRIPTOR_NG,
    }
}

pub open spec fn spec_privileged_execute_never_bit(m: Arm64PageMapping) -> u64 {
    if m.access == Arm64AccessPerm::UserReadExecute || m.execute_never { DESCRIPTOR_PXN } else { 0 }
}

pub open spec fn spec_user_execute_never_bit(m: Arm64PageMapping) -> u64 {
    if m.execute_never { DESCRIPTOR_UXN } else { 0 }
}

/// A table descriptor pointing at the table at `table_phys_base`.
pub open spec fn spec_table_descriptor(table_phys_base: u64) -> u64 {
    (table_phys_base & DESCRIPTOR_OUTPUT_ADDRESS_MASK) | DESCRIPTOR_VALID | DESCRIPTOR_TABLE
}

/// A level-3 page descriptor for the frame at `phys_base` with the mapping's
/// memory type, permissions and execute-never bits.
pub open spec fn spec_page_descriptor(m: Arm64PageMapping, phys_base: u64) -> u64 {
    (phys_base & DESCRIPTOR_OUTPUT_ADDRESS_MASK) | DESCRIPTOR_VALID | DESCRIPTOR_TABLE
        | (spec_memory_attr_index(m.attr) << 2u64) | (spec_access_perm_bits(m.access) << 6u64)
        | spec_shareability_bits(m.attr) | DESCRIPTOR_AF | spec_non_global_bit(m.access)
        | spec_privileged_execute_never_bit(m) | spec_user_execute_never_bit(m)
}

fn memory_attr_index(attr: Arm64MemoryAttr) -> (r: u64)
    ensures
        r == spec_memory_attr_index(attr),
{
    match attr {
        Arm64MemoryAttr::NormalCached => 0,
        Arm64MemoryAttr::DeviceNgNre => 1,
    }
}

fn access_perm_bits(access: Arm64AccessPerm) -> (r: u64)
    ensures
        r == spec_access_perm_bits(access),
{
    match access {
        Arm64AccessPerm::KernelReadWrite => 0,
        Arm64AccessPerm::UserReadWrite => 1,
        Arm64AccessPerm::UserReadOnly => 3,
        Arm64AccessPerm::UserReadExecute => 3,
    }
}

fn shareability_bits(attr: Arm64MemoryAttr) -> (r: u64)
    ensures
        r == spec_shareability_bits(attr),
{
    match attr {
        Arm64MemoryAttr::NormalCached => 0x300,
        Arm64MemoryAttr::DeviceNgNre => 0x200,
    }
}

fn non_global_bit(access: Arm64AccessPerm) -> (r: u64)
    ensures
        r == spec_non_global_bit(access),
{
    match access {
        Arm64AccessPerm::KernelReadWrite => 0,
        _ => DESCRIPTOR_NG,
    }
}

fn privileged_execute_never_bit(mapping: Arm64PageMapping) -> (r: u64)
    ensures
        r == spec_privileged_execute_never_bit(mapping),
{
    match mapping.access {
        Arm64AccessPerm::UserReadExecute => DESCRIPTOR_PXN,
        _ => if mapping.execute_never { DESCRIPTOR_PXN } else { 0 },
    }
}

fn user_execute_never_bit(mapping: Arm64PageMapping) -> (r: u64)
    ensures
        r == spec_user_execute_never_bit(mapping),
{
    if mapping.execute_never { DESCRIPTOR_UXN } else { 0 }
}

/// A table descriptor pointing at the table at `table_phys_base`.
pub fn table_descriptor(table_phys_base: u64) -> (r: u64)
    ensures
        r == spec_table_descriptor(table_phys_base),
{
    (table_phys_base & DESCRIPTOR_OUTPUT_ADDRESS_MASK) | DESCRIPTOR_VALID | DESCRIPTOR_TABLE
}

/// A level-3 page descriptor for the frame at `phys_base` under `mapping`.
pub fn page_descriptor(mapping: Arm64PageMapping, phys_base: u64) -> (r: u64)
    ensures
        r == spec_page_descriptor(mapping, phys_base),
{
    (phys_base & DESCRIPTOR_OUTPUT_ADDRESS_MASK) | DESCRIPTOR_VALID | DESCRIPTOR_TABLE
        | (memory_attr_index(mapping.attr) << 2u64) | (access_perm_bits(mapping.access) << 6u64)
        | shareability_bits(mapping.attr) | DESCRIPTOR_AF | non_global_bit(mapping.access)
        | privileged_execute_never_bit(mapping) | user_execute_never_bit(mapping)
}

/// What a page descriptor says, field by field: a valid level-3 page
/// (bits 1:0 are 0b11) with the access flag set, memory attribute index 0
/// for normal cached memory and 1 for device memory, access permissions
/// 0b00 for kernel read-write, 0b01 for user read-write and 0b11 for user
/// read-only and user read-execute, inner shareable (0b11) for normal memory
/// and outer shareable (0b10) for device memory, not global exactly for user
/// pages, privileged execute-never exactly for user-executable or
/// execute-never pages, user execute-never exactly for execute-never pages,
/// and the frame's address in the output-address bits.
pub proof fn lemma_page_descriptor_permissions(m: Arm64PageMapping, phys_base: u64)
    ensures
        ({
            let d = spec_page_descriptor(m, phys_base);
            &&& d & 3 == 3
            &&& (d >> 10u64) & 1 == 1
            &&& m.attr == Arm64MemoryAttr::NormalCached ==> (d >> 2u64) & 7 == 0 && (d >> 8u64) & 3 == 3
            &&& m.attr == Arm64MemoryAttr::DeviceNgNre ==> (d >> 2u64) & 7 == 1 && (d >> 8u64) & 3 == 2
            &&& m.access == Arm64AccessPerm::KernelReadWrite ==> (d >> 6u64) & 3 == 0 && (d >> 11u64) & 1 == 0
            &&& m.access == Arm64AccessPerm::UserReadWrite ==> (d >> 6u64) & 3 == 1 && (d >> 11u64) & 1 == 1
            &&& m.access == Arm64AccessPerm::UserReadOnly ==> (d >> 6u64) & 3 == 3 && (d >> 11u64) & 1 == 1
            &&& m.access == Arm64AccessPerm::UserReadExecute ==> (d >> 6u64) & 3 == 3 && (d >> 11u64) & 1 == 1
            &&& ((d >> 53u64) & 1 == 1) == (m.access == Arm64AccessPerm::UserReadExecute || m.execute_never)
            &&& ((d >> 54u64) & 1 == 1) == m.execute_never
            &&& d & 0x0000_FFFF_FFFF_F000 == phys_base & 0x0000_FFFF_FFFF_F000
        }),
{
    let a = phys_base & DESCRIPTOR_OUTPUT_ADDRESS_MASK;
    let ai = spec_memory_attr_index(m.attr);
    let ap = spec_access_perm_bits(m.access);
    let sh = spec_shareability_bits(m.attr);
    let ng = spec_non_global_bit(m.access);
    let pxn = spec_privileged_execute_never_bit(m);
    let uxn = spec_user_execute_never_bit(m);
    let d = spec_page_descriptor(m, phys_base);
    assert(d == a | 1u64 | 2u64 | (ai << 2u64) | (ap << 6u64) | sh | 0x400u64 | ng | pxn | uxn);
    assert(ai <= 1 && ap <= 3 && (sh == 0x300 || sh == 0x200) && (ng == 0 || ng == 0x800)
        && (pxn == 0 || pxn == 0x20_0000_0000_0000) && (uxn == 0 || uxn == 0x40_0000_0000_0000));
    assert(a == phys_base & 0x0000_FFFF_FFFF_F000u64);
    assert(ai <= 1 && ap <= 3 && (sh == 0x300 || sh == 0x200) && (ng == 0 || ng == 0x800) && (pxn == 0 || pxn
        == 0x20_0000_0000_0000) && (uxn == 0 || uxn == 0x40_0000_0000_0000) && a == phys_base & 0x0000_FFFF_FFFF_F000u64
        && d == a | 1u64 | 2u64 | (ai << 2u64) | (ap << 6u64) | sh | 0x400u64 | ng | pxn | uxn ==> {
        &&& d & 3 == 3
        &&& (d >> 10u64) & 1 == 1
        &&& (d >> 2u64) & 7 == ai
        &&& (d >> 6u64) & 3 == ap
        &&& (d >> 8u64) & 3 == sh >> 8u64
        &&& ((d >> 11u64) & 1 == 1) == (ng == 0x800)
        &&& (d >> 11u64) & 1 <= 1
        &&& ((d >> 53u64) & 1 == 1) == (pxn == 0x20_0000_0000_0000)
        &&& ((d >> 54u64) & 1 == 1) == (uxn == 0x40_0000_0000_0000)
        &&& d & 0x0000_FFFF_FFFF_F000 == phys_base & 0x0000_FFFF_FFFF_F000
    }) by (bit_vector);
    assert(0x300u64 >> 8u64 == 3 && 0x200u64 >> 8u64 == 2) by (bit_vector);
}

/// Position of entry `entry_index` of table `table_index` in the flat array
/// of the six tables.
pub fn table_entry_offset(table_index: usize, entry_index: usize) -> (r: usize)
    requires
        table_index < 6,
        entry_index < 512,
    ensures
        r == table_index * 512 + entry_index,
{
    table_index * ARM64_TABLE_ENTRY_COUNT + entry_index
}

fn write_table_entry(entries: &mut [u64], table_index: usize, entry_index: usize, value: u64)
    requires
        table_index < 6,
        entry_index < 512,
        old(entries)@.len() >= 3072,
    ensures
        final(entries)@ == old(entries)@.update(table_index * 512 + entry_index, value),
{
    let offset = table_entry_offset(table_index, entry_index);
    entries[offset] = value;
}

/// How many pages of `m` starting at the first have a frame address inside `u64`.
pub open spec fn writable_pages(m: Arm64PageMapping, count: int) -> int {
    if m.phys_base + (count - 1) * 4096 <= u64::MAX { count } else { (u64::MAX - m.phys_base) / 4096 + 1 }
}

/// `s` with the first `n` pages of `m` written from level-3 entry `start` of
/// table `table`.
pub open spec fn with_pages(s: Seq<u64>, table: int, m: Arm64PageMapping, start: int, n: int) -> Seq<u64> {
    Seq::new(s.len(), |i: int| {
        let k = i - (table * 512 + start);
        if 0 <= k < n { spec_page_descriptor(m, (m.phys_base + k * 4096) as u64) } else { s[i] }
    })
}

/// `s` with its first six tables cleared.
pub open spec fn cleared_tables(s: Seq<u64>) -> Seq<u64> {
    Seq::new(s.len(), |i: int| if i < 3072 { 0u64 } else { s[i] })
}

fn write_page_mapping(entries: &mut [u64], table_index: usize, mapping: Arm64PageMapping, l3_start: usize) -> (r: Option<u64>)
    requires
        table_index < 6,
        old(entries)@.len() >= 3072,
        spec_mapping_span(mapping) is Some,
        l3_start == spec_mapping_span(mapping)->0.l3_start,
    ensures
        ({
            let count = spec_mapping_span(mapping)->0.page_count as int;
            let n = writable_pages(mapping, count);
            &&& final(entries)@ == with_pages(old(entries)@, table_index as int, mapping, l3_start as int, n)
            &&& (r is Some <==> n == count)
            &&& r is Some ==> r->0 == count
        }),
{
    let span = match MappingSpan::from_mapping(mapping) {
        Some(s) => s,
        None => return None,
    };
    let ghost start = entries@;
    let ghost count = span.page_count as int;
    proof { lemma_indices_in_table(mapping.virt_base); }
    let mut mapped_pages: u64 = 0;
    assert(entries@ =~= with_pages(start, table_index as int, mapping, l3_start as int, 0));
    while mapped_pages < span.page_count
        invariant
            span == spec_mapping_span(mapping)->0,
            count == span.page_count,
            l3_start == span.l3_start,
            l3_start + count <= 512,
            table_index < 6,
            start.len() >= 3072,
            start == old(entries)@,
            0 <= mapped_pages <= count,
            mapping.phys_base + (mapped_pages - 1) * 4096 <= u64::MAX || mapped_pages == 0,
            entries@ == with_pages(start, table_index as int, mapping, l3_start as int, mapped_pages as int),
        decreases count - mapped_pages,
    {
        let offset = match mapped_pages.checked_mul(PAGE_SIZE) {
            Some(v) => v,
            None => return None,
        };
        let phys_base = match mapping.phys_base.checked_add(offset) {
            Some(v) => v,
            None => {
                assert(writable_pages(mapping, count) == mapped_pages) by {
                    assert(mapping.phys_base + (count - 1) * 4096 > u64::MAX) by (nonlinear_arith)
                        requires
                            mapping.phys_base + mapped_pages * 4096 > u64::MAX,
                            mapped_pages < count,
                    ;
                    assert((u64::MAX - mapping.phys_base) / 4096 + 1 == mapped_pages) by (nonlinear_arith)
                        requires
                            mapping.phys_base + mapped_pages * 4096 > u64::MAX,
                            mapping.phys_base + (mapped_pages - 1) * 4096 <= u64::MAX || mapped_pages == 0,
                            mapping.phys_base <= u64::MAX,
                    ;
                }
                return None;
            },
        };
        let descriptor = page_descriptor(mapping, phys_base);
        write_table_entry(entries, table_index, l3_start + mapped_pages as usize, descriptor);
        mapped_pages = mapped_pages + 1;
        assert(entries@ =~= with_pages(start, table_index as int, mapping, l3_start as int, mapped_pages as int));
    }
    assert(writable_pages(mapping, count) == count);
    Some(mapped_pages)
}

/// Outcome of building the translation tables.
#[derive(Clone, Copy, Debug, PartialEq, Eq, Structural)]
pub enum BootstrapEl0PageTableConstructionReadiness {
    Ready,
    PageTablePlanNotReady,
    OutputBufferTooSmall,
    UnsupportedVirtualAddressLayout,
    MappingAddressOverflow,
}

impl BootstrapEl0PageTableConstructionReadiness {
    pub open spec fn spec_label(self) -> Seq<char> {
        match self {
            BootstrapEl0PageTableConstructionReadiness::Ready => "ready"@,
            BootstrapEl0PageTableConstructionReadiness::PageTablePlanNotReady => "page-table-plan-not-ready"@,
            BootstrapEl0PageTableConstructionReadiness::OutputBufferTooSmall => "output-buffer-too-small"@,
            BootstrapEl0PageTableConstructionReadiness::UnsupportedVirtualAddressLayout => "unsupported-virtual-address-layout"@,
            BootstrapEl0PageTableConstructionReadiness::MappingAddressOverflow => "mapping-address-overflow"@,
        }
    }

    /// A stable kebab-case name.
    pub fn label(self) -> (r: &'static str)
        ensures
            r@ == self.spec_label(),
    {
        match self {
            BootstrapEl0PageTableConstructionReadiness::Ready => "ready",
            BootstrapEl0PageTableConstructionReadiness::PageTablePlanNotReady => "page-table-plan-not-ready",
            BootstrapEl0PageTableConstructionReadiness::OutputBufferTooSmall => "output-buffer-too-small",
            BootstrapEl0PageTableConstructionReadiness::UnsupportedVirtualAddressLayout => "unsupported-virtual-address-layout",
            BootstrapEl0PageTableConstructionReadiness::MappingAddressOverflow => "mapping-address-overflow",
        }
    }
}

/// What building the translation tables produced.
#[derive(Clone, Copy, Debug, PartialEq, Eq, Structural)]
pub struct BootstrapEl0PageTableConstruction {
    pub readiness: BootstrapEl0PageTableConstructionReadiness,
    pub source_readiness: BootstrapEl0PageTableReadiness,
    pub root_table_phys_base: u64,
    pub page_table_bytes: u64,
    pub mapped_pages: u64,
}

/// The outcome record for a plan, with no page mapped.
pub open spec fn construction_of(plan: BootstrapEl0PageTablePlan, readiness: BootstrapEl0PageTableConstructionReadiness) -> BootstrapEl0PageTableConstruction {
    BootstrapEl0PageTableConstruction {
        readiness,
        source_readiness: plan.readiness,
        root_table_phys_base: plan.root_table_phys_base,
        page_table_bytes: plan.page_table_bytes,
        mapped_pages: 0,
    }
}

impl BootstrapEl0PageTableConstruction {
    fn from_plan(plan: BootstrapEl0PageTablePlan, readiness: BootstrapEl0PageTableConstructionReadiness) -> (r: Self)
        ensures
            r == construction_of(plan, readiness),
    {
        BootstrapEl0PageTableConstruction {
            readiness,
            source_readiness: plan.readiness,
            root_table_phys_base: plan.root_table_phys_base,
            page_table_bytes: plan.page_table_bytes,
            mapped_pages: 0,
        }
    }

    /// Whether the tables were fully built.
    pub fn ready(self) -> (r: bool)
        ensures
            r == (self.readiness == BootstrapEl0PageTableConstructionReadiness::Ready),
    {
        match self.readiness {
            BootstrapEl0PageTableConstructionReadiness::Ready => true,
            _ => false,
        }
    }
}

/// The six tables cleared, then the root, level-1 and level-2 entries that
/// chain to the next tables written.
pub open spec fn with_table_links(s: Seq<u64>, plan: BootstrapEl0PageTablePlan, l: BootstrapEl0TranslationTableLayout) -> Seq<u64> {
    cleared_tables(s)
        .update(0 * 512 + l.l0_index, spec_table_descriptor(plan.l1_table_phys_base))
        .update(1 * 512 + l.kernel_l1_index, spec_table_descriptor(plan.kernel_l2_table_phys_base))
        .update(1 * 512 + l.user_l1_index, spec_table_descriptor(plan.user_l2_table_phys_base))
        .update(2 * 512 + l.kernel_l2_index, spec_table_descriptor(plan.kernel_l3_table_phys_base))
        .update(4 * 512 + l.user_l2_index, spec_table_descriptor(plan.user_l3_table_phys_base))
}

/// Number of pages a mapping of the plan covers.
pub open spec fn span_pages(m: Arm64PageMapping) -> int {
    spec_mapping_span(m)->0.page_count as int
}

/// Building the tables: the outcome and the entries afterwards. A mapping
/// whose frames run past the end of the address space is written as far as
/// its frames reach, and stops the build.
pub open spec fn spec_construct(plan: BootstrapEl0PageTablePlan, s: Seq<u64>) -> (BootstrapEl0PageTableConstruction, Seq<u64>) {
    if plan.readiness != BootstrapEl0PageTableReadiness::Ready {
        (construction_of(plan, BootstrapEl0PageTableConstructionReadiness::PageTablePlanNotReady), s)
    } else if s.len() < 3072 {
        (construction_of(plan, BootstrapEl0PageTableConstructionReadiness::OutputBufferTooSmall), s)
    } else if spec_plan_layout(plan) is None {
        (construction_of(plan, BootstrapEl0PageTableConstructionReadiness::UnsupportedVirtualAddressLayout), s)
    } else {
        let l = spec_plan_layout(plan)->0;
        let km = plan.kernel_mapping;
        let im = plan.user_image_mapping;
        let cm = plan.user_context_mapping;
        let sm = plan.user_stack_mapping;
        let s1 = with_table_links(s, plan, l);
        let s2 = with_pages(s1, 3, km, l.kernel_l3_start as int, writable_pages(km, span_pages(km)));
        let s3 = with_pages(s2, 5, im, l.user_image_l3_start as int, writable_pages(im, span_pages(im)));
        let s4 = with_pages(s3, 5, cm, l.user_context_l3_start as int, writable_pages(cm, span_pages(cm)));
        let s5 = with_pages(s4, 5, sm, l.user_stack_l3_start as int, writable_pages(sm, span_pages(sm)));
        let overflow = construction_of(plan, BootstrapEl0PageTableConstructionReadiness::MappingAddressOverflow);
        if writable_pages(km, span_pages(km)) != span_pages(km) {
            (overflow, s2)
        } else if writable_pages(im, span_pages(im)) != span_pages(im) {
            (overflow, s3)
        } else if writable_pages(cm, span_pages(cm)) != span_pages(cm) {
            (overflow, s4)
        } else if writable_pages(sm, span_pages(sm)) != span_pages(sm) {
            (overflow, s5)
        } else {
            (BootstrapEl0PageTableConstruction {
                mapped_pages: (span_pages(km) + span_pages(im) + span_pages(cm) + span_pages(sm)) as u64,
                ..construction_of(plan, BootstrapEl0PageTableConstructionReadiness::Ready)
            }, s5)
        }
    }
}

/// Writes the six translation tables of a ready plan into `entries`.
pub fn construct_bootstrap_el0_page_tables(plan: BootstrapEl0PageTablePlan, entries: &mut [u64]) -> (r: BootstrapEl0PageTableConstruction)
    ensures
        r == spec_construct(plan, old(entries)@).0,
        final(entries)@ == spec_construct(plan, old(entries)@).1,
{
    let ghost s = entries@;
    if !plan.ready() {
        return BootstrapEl0PageTableConstruction::from_plan(plan, BootstrapEl0PageTableConstructionReadiness::PageTablePlanNotReady);
    }
    if entries.len() < BOOTSTRAP_EL0_TRANSLATION_TABLE_ENTRIES {
        return BootstrapEl0PageTableConstruction::from_plan(plan, BootstrapEl0PageTableConstructionReadiness::OutputBufferTooSmall);
    }
    let layout = match BootstrapEl0TranslationTableLayout::from_plan(plan) {
        Some(l) => l,
        None => {
            return BootstrapEl0PageTableConstruction::from_plan(
                plan,
                BootstrapEl0PageTableConstructionReadiness::UnsupportedVirtualAddressLayout,
            );
        },
    };
    proof {
        lemma_indices_in_table(plan.kernel_mapping.virt_base);
        lemma_indices_in_table(plan.user_image_mapping.virt_base);
    }
    let mut i: usize = 0;
    while i < BOOTSTRAP_EL0_TRANSLATION_TABLE_ENTRIES
        invariant
            0 <= i <= 3072,
            entries@.len() == s.len(),
            s.len() >= 3072,
            forall|j: int| 0 <= j < s.len() ==> entries@[j] == (if j < i { 0u64 } else { s[j] }),
        decreases 3072 - i,
    {
        entries[i] = 0;
        i = i + 1;
    }
    assert(entries@ =~= cleared_tables(s));
    write_table_entry(entries, ROOT_TABLE_INDEX, layout.l0_index, table_descriptor(plan.l1_table_phys_base));
    write_table_entry(entries, L1_TABLE_INDEX, layout.kernel_l1_index, table_descriptor(plan.kernel_l2_table_phys_base));
    write_table_entry(entries, L1_TABLE_INDEX, layout.user_l1_index, table_descriptor(plan.user_l2_table_phys_base));
    write_table_entry(entries, KERNEL_L2_TABLE_INDEX, layout.kernel_l2_index, table_descriptor(plan.kernel_l3_table_phys_base));
    write_table_entry(entries, USER_L2_TABLE_INDEX, layout.user_l2_index, table_descriptor(plan.user_l3_table_phys_base));
    assert(entries@ == with_table_links(s, plan, layout));
    let kernel_pages = match write_page_mapping(entries, KERNEL_L3_TABLE_INDEX, plan.kernel_mapping, layout.kernel_l3_start) {
        Some(n) => n,
        None => {
            return BootstrapEl0PageTableConstruction::from_plan(plan, BootstrapEl0PageTableConstructionReadiness::MappingAddressOverflow);
        },
    };
    let user_image_pages = match write_page_mapping(entries, USER_L3_TABLE_INDEX, plan.user_image_mapping, layout.user_image_l3_start) {
        Some(n) => n,
        None => {
            return BootstrapEl0PageTableConstruction::from_plan(plan, BootstrapEl0PageTableConstructionReadiness::MappingAddressOverflow);
        },
    };
    let user_context_pages = match write_page_mapping(entries, USER_L3_TABLE_INDEX, plan.user_context_mapping, layout.user_context_l3_start) {
        Some(n) => n,
        None => {
            return BootstrapEl0PageTableConstruction::from_plan(plan, BootstrapEl0PageTableConstructionReadiness::MappingAddressOverflow);
        },
    };
    let user_stack_pages = match write_page_mapping(entries, USER_L3_TABLE_INDEX, plan.user_stack_mapping, layout.user_stack_l3_start) {
        Some(n) => n,
        None => {
            return BootstrapEl0PageTableConstruction::from_plan(plan, BootstrapEl0PageTableConstructionReadiness::MappingAddressOverflow);
        },
    };
    let mut construction = BootstrapEl0PageTableConstruction::from_plan(plan, BootstrapEl0PageTableConstructionReadiness::Ready);
    construction.mapped_pages = kernel_pages + user_image_pages + user_context_pages + user_stack_pages;
    construction
}


/// A fully built set of tables chains root, level-1 and level-2 entries to
/// the planned tables, maps every kernel page and every stack page onto its
/// frame, maps every image page and every context page onto its frame unless
/// a mapping written after it in the shared user table (context after image,
/// stack after both) took the same entry, counts every page of the four
/// mappings, and leaves the entries past the six tables as they were.
pub proof fn lemma_ready_construction(plan: BootstrapEl0PageTablePlan, s: Seq<u64>)
    requires
        spec_construct(plan, s).0.readiness == BootstrapEl0PageTableConstructionReadiness::Ready,
    ensures
        ({
            let e = spec_construct(plan, s).1;
            let l = spec_plan_layout(plan)->0;
            let km = plan.kernel_mapping;
            let sm = plan.user_stack_mapping;
            &&& plan.readiness == BootstrapEl0PageTableReadiness::Ready
            &&& spec_plan_layout(plan) is Some
            &&& e.len() == s.len()
            &&& forall|i: int| 3072 <= i < s.len() ==> e[i] == s[i]
            &&& e[l.l0_index as int] == spec_table_descriptor(plan.l1_table_phys_base)
            &&& e[512 + l.kernel_l1_index] == spec_table_descriptor(plan.kernel_l2_table_phys_base)
            &&& e[512 + l.user_l1_index] == spec_table_descriptor(plan.user_l2_table_phys_base)
            &&& e[1024 + l.kernel_l2_index] == spec_table_descriptor(plan.kernel_l3_table_phys_base)
            &&& e[2048 + l.user_l2_index] == spec_table_descriptor(plan.user_l3_table_phys_base)
            &&& forall|k: int| 0 <= k < span_pages(km) ==>
                #[trigger] e[1536 + l.kernel_l3_start + k] == spec_page_descriptor(km, (km.phys_base + k * 4096) as u64)
            &&& forall|k: int| 0 <= k < span_pages(sm) ==>
                #[trigger] e[2560 + l.user_stack_l3_start + k] == spec_page_descriptor(sm, (sm.phys_base + k * 4096) as u64)
            &&& forall|k: int| 0 <= k < span_pages(plan.user_image_mapping)
                && !(l.user_context_l3_start <= l.user_image_l3_start + k < l.user_context_l3_start + span_pages(plan.user_context_mapping))
                && !(l.user_stack_l3_start <= l.user_image_l3_start + k < l.user_stack_l3_start + span_pages(sm)) ==>
                #[trigger] e[2560 + l.user_image_l3_start + k] == spec_page_descriptor(
                    plan.user_image_mapping,
                    (plan.user_image_mapping.phys_base + k * 4096) as u64,
                )
            &&& forall|k: int| 0 <= k < span_pages(plan.user_context_mapping)
                && !(l.user_stack_l3_start <= l.user_context_l3_start + k < l.user_stack_l3_start + span_pages(sm)) ==>
                #[trigger] e[2560 + l.user_context_l3_start + k] == spec_page_descriptor(
                    plan.user_context_mapping,
                    (plan.user_context_mapping.phys_base + k * 4096) as u64,
                )
            &&& spec_construct(plan, s).0.mapped_pages == span_pages(km) + span_pages(plan.user_image_mapping)
                + span_pages(plan.user_context_mapping) + span_pages(sm)
        }),
{
    let l = spec_plan_layout(plan)->0;
    let km = plan.kernel_mapping;
    let im = plan.user_image_mapping;
    let cm = plan.user_context_mapping;
    let sm = plan.user_stack_mapping;
    lemma_indices_in_table(km.virt_base);
    lemma_indices_in_table(im.virt_base);
    lemma_indices_in_table(cm.virt_base);
    lemma_indices_in_table(sm.virt_base);
    let s1 = with_table_links(s, plan, l);
    let s2 = with_pages(s1, 3, km, l.kernel_l3_start as int, span_pages(km));
    let s3 = with_pages(s2, 5, im, l.user_image_l3_start as int, span_pages(im));
    let s4 = with_pages(s3, 5, cm, l.user_context_l3_start as int, span_pages(cm));
    let s5 = with_pages(s4, 5, sm, l.user_stack_l3_start as int, span_pages(sm));
    assert(s5 == spec_construct(plan, s).1);
    assert(l.kernel_l3_start + span_pages(km) <= 512);
    assert(l.user_image_l3_start + span_pages(im) <= 512);
    assert(l.user_context_l3_start + span_pages(cm) <= 512);
    assert(l.user_stack_l3_start + span_pages(sm) <= 512);
    assert(l.kernel_l1_index != l.user_l1_index);
    assert forall|k: int| 0 <= k < span_pages(km) implies
        #[trigger] s5[1536 + l.kernel_l3_start + k] == spec_page_descriptor(km, (km.phys_base + k * 4096) as u64) by {
        assert(s2[1536 + l.kernel_l3_start + k] == spec_page_descriptor(km, (km.phys_base + k * 4096) as u64));
    }
    assert forall|k: int| 0 <= k < span_pages(im)
        && !(l.user_context_l3_start <= l.user_image_l3_start + k < l.user_context_l3_start + span_pages(cm))
        && !(l.user_stack_l3_start <= l.user_image_l3_start + k < l.user_stack_l3_start + span_pages(sm)) implies
        #[trigger] s5[2560 + l.user_image_l3_start + k] == spec_page_descriptor(im, (im.phys_base + k * 4096) as u64) by {
        let idx = 2560 + l.user_image_l3_start + k;
        assert(s3[idx] == spec_page_descriptor(im, (im.phys_base + k * 4096) as u64));
        assert(s4[idx] == s3[idx]);
    }
    assert forall|k: int| 0 <= k < span_pages(cm)
        && !(l.user_stack_l3_start <= l.user_context_l3_start + k < l.user_stack_l3_start + span_pages(sm)) implies
        #[trigger] s5[2560 + l.user_context_l3_start + k] == spec_page_descriptor(cm, (cm.phys_base + k * 4096) as u64) by {
        let idx = 2560 + l.user_context_l3_start + k;
        assert(s4[idx] == spec_page_descriptor(cm, (cm.phys_base + k * 4096) as u64));
    }
}


// ---------------------------------------------------------------------------
// Backing frames
// ---------------------------------------------------------------------------

/// Outcome of filling the bootstrap task's frames.
#[derive(Clone, Copy, Debug, PartialEq, Eq, Structural)]
pub enum BootstrapEl0BackingFramePopulationReadiness {
    Ready,
    PageTablePlanNotReady,
    LengthOverflow,
    PayloadSourceTooSmall,
    ContextSourceTooSmall,
    ImageFrameTooSmall,
    ContextFrameTooSmall,
    StackFrameTooSmall,
}

impl BootstrapEl0BackingFramePopulationReadiness {
    pub open spec fn spec_label(self) -> Seq<char> {
        match self {
            BootstrapEl0BackingFramePopulationReadiness::Ready => "ready"@,
            BootstrapEl0BackingFramePopulationReadiness::PageTablePlanNotReady => "page-table-plan-not-ready"@,
            BootstrapEl0BackingFramePopulationReadiness::LengthOverflow => "length-overflow"@,
            BootstrapEl0BackingFramePopulationReadiness::PayloadSourceTooSmall => "payload-source-too-small"@,
            BootstrapEl0BackingFramePopulationReadiness::ContextSourceTooSmall => "context-source-too-small"@,
            BootstrapEl0BackingFramePopulationReadiness::ImageFrameTooSmall => "image-frame-too-small"@,
            BootstrapEl0BackingFramePopulationReadiness::ContextFrameTooSmall => "context-frame-too-small"@,
            BootstrapEl0BackingFramePopulationReadiness::StackFrameTooSmall => "stack-frame-too-small"@,
        }
    }

    /// A stable kebab-case name.
    pub fn label(self) -> (r: &'static str)
        ensures
            r@ == self.spec_label(),
    {
        match self {
            BootstrapEl0BackingFramePopulationReadiness::Ready => "ready",
            BootstrapEl0BackingFramePopulationReadiness::PageTablePlanNotReady => "page-table-plan-not-ready",
            BootstrapEl0BackingFramePopulationReadiness::LengthOverflow => "length-overflow",
            BootstrapEl0BackingFramePopulationReadiness::PayloadSourceTooSmall => "payload-source-too-small",
            BootstrapEl0BackingFramePopulationReadiness::ContextSourceTooSmall => "context-source-too-small",
            BootstrapEl0BackingFramePopulationReadiness::ImageFrameTooSmall => "image-frame-too-small",
            BootstrapEl0BackingFramePopulationReadiness::ContextFrameTooSmall => "context-frame-too-small",
            BootstrapEl0BackingFramePopulationReadiness::StackFrameTooSmall => "stack-frame-too-small",
        }
    }
}

/// What filling the frames produced.
#[derive(Clone, Copy, Debug, PartialEq, Eq, Structural)]
pub struct BootstrapEl0BackingFramePopulation {
    pub readiness: BootstrapEl0BackingFramePopulationReadiness,
    pub source_readiness: BootstrapEl0PageTableReadiness,
    pub payload_bytes: u64,
    pub context_bytes: u64,
    pub zeroed_bytes: u64,
}

/// The outcome record for a plan, with nothing copied.
pub open spec fn population_of(plan: BootstrapEl0PageTablePlan, readiness: BootstrapEl0BackingFramePopulationReadiness) -> BootstrapEl0BackingFramePopulation {
    BootstrapEl0BackingFramePopulation {
        readiness,
        source_readiness: plan.readiness,
        payload_bytes: 0,
        context_bytes: 0,
        zeroed_bytes: 0,
    }
}

impl BootstrapEl0BackingFramePopulation {
    fn from_plan(plan: BootstrapEl0PageTablePlan, readiness: BootstrapEl0BackingFramePopulationReadiness) -> (r: Self)
        ensures
            r == population_of(plan, readiness),
    {
        BootstrapEl0BackingFramePopulation {
            readiness,
            source_readiness: plan.readiness,
            payload_bytes: 0,
            context_bytes: 0,
            zeroed_bytes: 0,
        }
    }

    /// Whether every frame was filled.
    pub fn ready(self) -> (r: bool)
        ensures
            r == (self.readiness == BootstrapEl0BackingFramePopulationReadiness::Ready),
    {
        match self.readiness {
            BootstrapEl0BackingFramePopulationReadiness::Ready => true,
            _ => false,
        }
    }
}

/// `frame` with its first `frame_len` bytes replaced by the first `src_len`
/// bytes of `src` followed by zeros.
pub open spec fn filled_frame(frame: Seq<u8>, src: Seq<u8>, src_len: int, frame_len: int) -> Seq<u8> {
    Seq::new(frame.len(), |i: int| if i < src_len { src[i] } else if i < frame_len { 0u8 } else { frame[i] })
}

/// `x + y`, or `u64::MAX` where that overflows.
pub open spec fn sat_add(x: int, y: int) -> int {
    if x + y > u64::MAX { u64::MAX as int } else { x + y }
}

/// Filling the frames: the outcome and the image, context and stack frames
/// afterwards.
pub open spec fn spec_populate(
    plan: BootstrapEl0PageTablePlan,
    payload: Seq<u8>,
    context: Seq<u8>,
    image_frame: Seq<u8>,
    context_frame: Seq<u8>,
    stack_frame: Seq<u8>,
) -> (BootstrapEl0BackingFramePopulation, Seq<u8>, Seq<u8>, Seq<u8>) {
    let plen = plan.payload_copy_source_size as int;
    let clen = plan.context_copy_source_size as int;
    let ilen = plan.user_image_mapping.size as int;
    let cflen = plan.user_context_mapping.size as int;
    let slen = plan.user_stack_mapping.size as int;
    let unchanged = |r: BootstrapEl0BackingFramePopulationReadiness| (population_of(plan, r), image_frame, context_frame, stack_frame);
    if plan.readiness != BootstrapEl0PageTableReadiness::Ready {
        unchanged(BootstrapEl0BackingFramePopulationReadiness::PageTablePlanNotReady)
    } else if plen > usize::MAX || clen > usize::MAX || ilen > usize::MAX || cflen > usize::MAX || slen > usize::MAX {
        unchanged(BootstrapEl0BackingFramePopulationReadiness::LengthOverflow)
    } else if payload.len() < plen {
        unchanged(BootstrapEl0BackingFramePopulationReadiness::PayloadSourceTooSmall)
    } else if context.len() < clen {
        unchanged(BootstrapEl0BackingFramePopulationReadiness::ContextSourceTooSmall)
    } else if image_frame.len() < ilen || plen > ilen {
        unchanged(BootstrapEl0BackingFramePopulationReadiness::ImageFrameTooSmall)
    } else if context_frame.len() < cflen || clen > cflen {
        unchanged(BootstrapEl0BackingFramePopulationReadiness::ContextFrameTooSmall)
    } else if stack_frame.len() < slen {
        unchanged(BootstrapEl0BackingFramePopulationReadiness::StackFrameTooSmall)
    } else {
        (BootstrapEl0BackingFramePopulation {
            payload_bytes: plen as u64,
            context_bytes: clen as u64,
            zeroed_bytes: sat_add(sat_add(ilen - plen, cflen - clen), slen) as u64,
            ..population_of(plan, BootstrapEl0BackingFramePopulationReadiness::Ready)
        },
        filled_frame(image_frame, payload, plen, ilen),
        filled_frame(context_frame, context, clen, cflen),
        filled_frame(stack_frame, Seq::empty(), 0, slen))
    }
}

fn fill_frame(frame: &mut [u8], src: &[u8], src_len: usize, frame_len: usize)
    requires
        src_len <= frame_len,
        src_len <= src@.len(),
        frame_len <= old(frame)@.len(),
    ensures
        final(frame)@ == filled_frame(old(frame)@, src@, src_len as int, frame_len as int),
{
    let ghost start = frame@;
    let mut i: usize = 0;
    while i < frame_len
        invariant
            0 <= i <= frame_len,
            src_len <= frame_len,
            src_len <= src@.len(),
            frame_len <= start.len(),
            frame@.len() == start.len(),
            forall|j: int| 0 <= j < start.len() ==> frame@[j] == (if j < i {
                if j < src_len { src@[j] } else { 0u8 }
            } else {
                start[j]
            }),
        decreases frame_len - i,
    {
        let b: u8 = if i < src_len { src[i] } else { 0 };
        frame[i] = b;
        i = i + 1;
    }
    assert(frame@ =~= filled_frame(start, src@, src_len as int, frame_len as int));
}

/// Copies the payload and context into their frames, zeroes the rest of
/// those frames and the whole stack frame.
pub fn populate_bootstrap_el0_backing_frames(
    plan: BootstrapEl0PageTablePlan,
    payload_source: &[u8],
    context_source: &[u8],
    image_frame: &mut [u8],
    context_frame: &mut [u8],
    stack_frame: &mut [u8],
) -> (r: BootstrapEl0BackingFramePopulation)
    ensures
        ({
            let o = spec_populate(plan, payload_source@, context_source@, old(image_frame)@, old(context_frame)@, old(stack_frame)@);
            &&& r == o.0
            &&& final(image_frame)@ == o.1
            &&& final(context_frame)@ == o.2
            &&& final(stack_frame)@ == o.3
        }),
{
    if !plan.ready() {
        return BootstrapEl0BackingFramePopulation::from_plan(plan, BootstrapEl0BackingFramePopulationReadiness::PageTablePlanNotReady);
    }
    let payload_len = match u64_to_usize(plan.payload_copy_source_size) {
        Some(v) => v,
        None => return BootstrapEl0BackingFramePopulation::from_plan(plan, BootstrapEl0BackingFramePopulationReadiness::LengthOverflow),
    };
    let context_len = match u64_to_usize(plan.context_copy_source_size) {
        Some(v) => v,
        None => return BootstrapEl0BackingFramePopulation::from_plan(plan, BootstrapEl0BackingFramePopulationReadiness::LengthOverflow),
    };
    let image_len = match u64_to_usize(plan.user_image_mapping.size) {
        Some(v) => v,
        None => return BootstrapEl0BackingFramePopulation::from_plan(plan, BootstrapEl0BackingFramePopulationReadiness::LengthOverflow),
    };
    let context_frame_len = match u64_to_usize(plan.user_context_mapping.size) {
        Some(v) => v,
        None => return BootstrapEl0BackingFramePopulation::from_plan(plan, BootstrapEl0BackingFramePopulationReadiness::LengthOverflow),
    };
    let stack_len = match u64_to_usize(plan.user_stack_mapping.size) {
        Some(v) => v,
        None => return BootstrapEl0BackingFramePopulation::from_plan(plan, BootstrapEl0BackingFramePopulationReadiness::LengthOverflow),
    };
    if payload_source.len() < payload_len {
        return BootstrapEl0BackingFramePopulation::from_plan(plan, BootstrapEl0BackingFramePopulationReadiness::PayloadSourceTooSmall);
    }
    if context_source.len() < context_len {
        return BootstrapEl0BackingFramePopulation::from_plan(plan, BootstrapEl0BackingFramePopulationReadiness::ContextSourceTooSmall);
    }
    if image_frame.len() < image_len || payload_len > image_len {
        return BootstrapEl0BackingFramePopulation::from_plan(plan, BootstrapEl0BackingFramePopulationReadiness::ImageFrameTooSmall);
    }
    if context_frame.len() < context_frame_len || context_len > context_frame_len {
        return BootstrapEl0BackingFramePopulation::from_plan(plan, BootstrapEl0BackingFramePopulationReadiness::ContextFrameTooSmall);
    }
    if stack_frame.len() < stack_len {
        return BootstrapEl0BackingFramePopulation::from_plan(plan, BootstrapEl0BackingFramePopulationReadiness::StackFrameTooSmall);
    }
    fill_frame(image_frame, payload_source, payload_len, image_len);
    fill_frame(context_frame, context_source, context_len, context_frame_len);
    let empty: [u8; 0] = [];
    fill_frame(stack_frame, &empty, 0, stack_len);
    proof {
        assert(empty@ =~= Seq::<u8>::empty());
    }
    let mut population = BootstrapEl0BackingFramePopulation::from_plan(plan, BootstrapEl0BackingFramePopulationReadiness::Ready);
    population.payload_bytes = plan.payload_copy_source_size;
    population.context_bytes = plan.context_copy_source_size;
    population.zeroed_bytes = plan.user_image_mapping.size.saturating_sub(plan.payload_copy_source_size).saturating_add(
        plan.user_context_mapping.size.saturating_sub(plan.context_copy_source_size),
    ).saturating_add(plan.user_stack_mapping.size);
    population
}

/// After a ready fill, the image frame starts with the payload and the context
/// frame with the context, each followed by zeros up to the mapping's size,
/// the stack frame is zero up to the stack's size, and bytes past those sizes
/// are untouched.
pub proof fn lemma_ready_population(
    plan: BootstrapEl0PageTablePlan,
    payload: Seq<u8>,
    context: Seq<u8>,
    image_frame: Seq<u8>,
    context_frame: Seq<u8>,
    stack_frame: Seq<u8>,
)
    requires
        spec_populate(plan, payload, context, image_frame, context_frame, stack_frame).0.readiness
            == BootstrapEl0BackingFramePopulationReadiness::Ready,
    ensures
        ({
            let o = spec_populate(plan, payload, context, image_frame, context_frame, stack_frame);
            let plen = plan.payload_copy_source_size as int;
            let clen = plan.context_copy_source_size as int;
            let ilen = plan.user_image_mapping.size as int;
            let cflen = plan.user_context_mapping.size as int;
            let slen = plan.user_stack_mapping.size as int;
            &&& o.1.subrange(0, plen) == payload.subrange(0, plen)
            &&& forall|i: int| plen <= i < ilen ==> o.1[i] == 0
            &&& o.1.subrange(ilen, o.1.len() as int) == image_frame.subrange(ilen, image_frame.len() as int)
            &&& o.2.subrange(0, clen) == context.subrange(0, clen)
            &&& forall|i: int| clen <= i < cflen ==> o.2[i] == 0
            &&& o.2.subrange(cflen, o.2.len() as int) == context_frame.subrange(cflen, context_frame.len() as int)
            &&& forall|i: int| 0 <= i < slen ==> o.3[i] == 0
            &&& o.3.subrange(slen, o.3.len() as int) == stack_frame.subrange(slen, stack_frame.len() as int)
            &&& o.0.payload_bytes == plen && o.0.context_bytes == clen
        }),
{
    let o = spec_populate(plan, payload, context, image_frame, context_frame, stack_frame);
    let plen = plan.payload_copy_source_size as int;
    let clen = plan.context_copy_source_size as int;
    let ilen = plan.user_image_mapping.size as int;
    let cflen = plan.user_context_mapping.size as int;
    let slen = plan.user_stack_mapping.size as int;
    assert(o.1.subrange(0, plen) =~= payload.subrange(0, plen));
    assert(o.1.subrange(ilen, o.1.len() as int) =~= image_frame.subrange(ilen, image_frame.len() as int));
    assert(o.2.subrange(0, clen) =~= context.subrange(0, clen));
    assert(o.2.subrange(cflen, o.2.len() as int) =~= context_frame.subrange(cflen, context_frame.len() as int));
    assert(o.3.subrange(slen, o.3.len() as int) =~= stack_frame.subrange(slen, stack_frame.len() as int));
}

} // verus!
