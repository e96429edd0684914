//! How the kernel hands the CPU to the bootstrap task: the exception-level
//! transfer and the syscall boundary the task runs behind.
use vstd::prelude::*;
use crate::console::ConsoleSink;
use crate::diag::{hex_u64_text, write_hex_u64};

verus! {

/// The size of the stack the bootstrap task is entered on.
pub const BOOTSTRAP_TASK_STACK_SIZE: u64 = 0x10000;

/// How control passes to the bootstrap task.
#[derive(Clone, Copy, Debug, PartialEq, Eq, Structural)]
pub enum BootstrapTaskTransferMode {
    SameEl,
    DropToEl1,
    DropToEl0,
}

impl BootstrapTaskTransferMode {
    pub open spec fn spec_label(self) -> Seq<char> {
        match self {
            BootstrapTaskTransferMode::SameEl => "same-el"@,
            BootstrapTaskTransferMode::DropToEl1 => "drop-to-el1"@,
            BootstrapTaskTransferMode::DropToEl0 => "drop-to-el0"@,
        }
    }

    pub fn label(self) -> (r: &'static str)
        ensures
            r@ == self.spec_label(),
    {
        match self {
            BootstrapTaskTransferMode::SameEl => "same-el",
            BootstrapTaskTransferMode::DropToEl1 => "drop-to-el1",
            BootstrapTaskTransferMode::DropToEl0 => "drop-to-el0",
        }
    }
}

/// Where the task's supervisor calls trap.
#[derive(Clone, Copy, Debug, PartialEq, Eq, Structural)]
pub enum BootstrapTaskSyscallBoundary {
    CurrentElSvc,
    El0Svc,
}

impl BootstrapTaskSyscallBoundary {
    pub open spec fn spec_label(self) -> Seq<char> {
        match self {
            BootstrapTaskSyscallBoundary::CurrentElSvc => "current-el-svc"@,
            BootstrapTaskSyscallBoundary::El0Svc => "el0-svc"@,
        }
    }

    pub fn label(self) -> (r: &'static str)
        ensures
            r@ == self.spec_label(),
    {
        match self {
            BootstrapTaskSyscallBoundary::CurrentElSvc => "current-el-svc",
            BootstrapTaskSyscallBoundary::El0Svc => "el0-svc",
        }
    }
}

/// The exception levels on both sides of the transfer, how it happens, and
/// whether the task ends up isolated behind an EL0 syscall boundary.
#[derive(Clone, Copy, Debug, PartialEq, Eq, Structural)]
pub struct BootstrapTaskBoundaryPlan {
    pub current_el: u8,
    pub target_el: u8,
    pub transfer_mode: BootstrapTaskTransferMode,
    pub task_isolated: bool,
    pub syscall_boundary: BootstrapTaskSyscallBoundary,
}

/// The exception level held in bits 2 and 3 of a `CurrentEL` register value.
pub fn current_el_from_register(current_el: u64) -> (r: u8)
    ensures
        r as u64 == (current_el >> 2u64) & 3u64,
        r <= 3,
{
    let level = (current_el >> 2u64) & 3u64;
    assert(level <= 3) by (bit_vector)
        requires
            level == (current_el >> 2u64) & 3u64,
    ;
    level as u8
}

/// The transfer used today: from EL2 the kernel drops to EL1; from any other
/// level the task runs at the kernel's own level.
pub fn bootstrap_task_transfer_mode(current_el: u8) -> (r: BootstrapTaskTransferMode)
    ensures
        r == (if current_el == 2 { BootstrapTaskTransferMode::DropToEl1 } else { BootstrapTaskTransferMode::SameEl }),
{
    if current_el == 2 {
        BootstrapTaskTransferMode::DropToEl1
    } else {
        BootstrapTaskTransferMode::SameEl
    }
}

/// The boundary used today: the transfer above, with the task unisolated and
/// trapping through supervisor calls at its own level.
pub fn bootstrap_task_boundary_plan(current_el: u8) -> (r: BootstrapTaskBoundaryPlan)
    ensures
        r == (BootstrapTaskBoundaryPlan {
            current_el,
            target_el: if current_el == 2 { 1u8 } else { current_el },
            transfer_mode: if current_el == 2 { BootstrapTaskTransferMode::DropToEl1 } else { BootstrapTaskTransferMode::SameEl },
            task_isolated: false,
            syscall_boundary: BootstrapTaskSyscallBoundary::CurrentElSvc,
        }),
{
    let transfer_mode = bootstrap_task_transfer_mode(current_el);
    let target_el = match transfer_mode {
        BootstrapTaskTransferMode::DropToEl1 => 1,
        BootstrapTaskTransferMode::DropToEl0 => 0,
        BootstrapTaskTransferMode::SameEl => current_el,
    };
    BootstrapTaskBoundaryPlan {
        current_el,
        target_el,
        transfer_mode,
        task_isolated: false,
        syscall_boundary: BootstrapTaskSyscallBoundary::CurrentElSvc,
    }
}

/// The boundary aimed for: an isolated task at EL0 behind EL0 supervisor
/// calls.
pub fn bootstrap_task_target_boundary_plan(current_el: u8) -> (r: BootstrapTaskBoundaryPlan)
    ensures
        r == (BootstrapTaskBoundaryPlan {
            current_el,
            target_el: 0,
            transfer_mode: BootstrapTaskTransferMode::DropToEl0,
            task_isolated: true,
            syscall_boundary: BootstrapTaskSyscallBoundary::El0Svc,
        }),
{
    BootstrapTaskBoundaryPlan {
        current_el,
        target_el: 0,
        transfer_mode: BootstrapTaskTransferMode::DropToEl0,
        task_isolated: true,
        syscall_boundary: BootstrapTaskSyscallBoundary::El0Svc,
    }
}

/// The two lines a boundary plan is logged as, under `prefix`: the transfer
/// mode, then the levels, the isolation and the syscall boundary.
pub open spec fn boundary_log(prefix: Seq<char>, plan: BootstrapTaskBoundaryPlan) -> Seq<char> {
    "[info] "@ + prefix + " "@ + plan.transfer_mode.spec_label() + "\n"@ + "[info] "@ + prefix + " current_el "@
        + hex_u64_text(plan.current_el as u64) + " target_el "@ + hex_u64_text(plan.target_el as u64) + " isolated "@
        + (if plan.task_isolated {
        "true"@
    } else {
        "false"@
    }) + " syscall "@ + plan.syscall_boundary.spec_label() + "\n"@
}

fn log_boundary<C: ConsoleSink>(console: &mut C, prefix: &str, plan: BootstrapTaskBoundaryPlan)
    ensures
        final(console).written() == old(console).written() + boundary_log(prefix@, plan),
{
    proof {
        reveal_strlit("\n");
    }
    console.write_str("[info] ");
    console.write_str(prefix);
    console.write_str(" ");
    console.write_line(plan.transfer_mode.label());
    console.write_str("[info] ");
    console.write_str(prefix);
    console.write_str(" current_el ");
    write_hex_u64(console, plan.current_el as u64);
    console.write_str(" target_el ");
    write_hex_u64(console, plan.target_el as u64);
    console.write_str(" isolated ");
    if plan.task_isolated {
        console.write_str("true");
    } else {
        console.write_str("false");
    }
    console.write_str(" syscall ");
    console.write_line(plan.syscall_boundary.label());
    assert(final(console).written() =~= old(console).written() + boundary_log(prefix@, plan));
}

/// Logs the boundary the task is entered across today.
pub fn log_bootstrap_task_boundary<C: ConsoleSink>(console: &mut C, plan: BootstrapTaskBoundaryPlan)
    ensures
        final(console).written() == old(console).written() + boundary_log("bootstrap task boundary"@, plan),
{
    log_boundary(console, "bootstrap task boundary", plan);
}

/// Logs the boundary the task is meant to be entered across.
pub fn log_bootstrap_task_target_boundary<C: ConsoleSink>(console: &mut C, plan: BootstrapTaskBoundaryPlan)
    ensures
        final(console).written() == old(console).written() + boundary_log("bootstrap task target boundary"@, plan),
{
    log_boundary(console, "bootstrap task target boundary", plan);
}

} // verus!
