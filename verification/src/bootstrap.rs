//! Kernel calls made by the bootstrap task through the call gate in its
//! context.
use vstd::prelude::*;
use crate::bootstrap_task::{resolve_bootstrap_task_context, spec_resolve_context, ResolvedBootstrapTaskContext};
use crate::console::ConsoleSink;
use crate::init_capsule::service_name_text;
use crate::kernel_syscall::{dispatch_log, dispatch_syscall, spec_dispatch, SyscallDispatchState};
use crate::syscall::{status_result, NovaSyscallRequestV1, NovaSyscallResultV1, NovaSyscallStatusV1};

verus! {

/// Whether two 16-byte service-name fields are the same.
fn service_name_fields_equal(a: &[u8; 16], b: &[u8; 16]) -> (r: bool)
    ensures
        r == (a@ == b@),
{
    let mut i: usize = 0;
    while i < 16
        invariant
            0 <= i <= 16,
            a@.len() == 16,
            b@.len() == 16,
            forall|j: int| 0 <= j < i ==> a@[j] == b@[j],
        decreases 16 - i,
    {
        if a[i] != b[i] {
            return false;
        }
        i = i + 1;
    }
    assert(a@ =~= b@);
    true
}

/// The text a bootstrap kernel call writes before it is dispatched.
pub open spec fn kernel_call_log(state: SyscallDispatchState, request: NovaSyscallRequestV1) -> Seq<char> {
    "[info] bootstrap kernel call from "@ + service_name_text(state.current_task->0.service_name@) + seq!['\n']
        + dispatch_log(state, request)
}

/// The context names the task the kernel is running.
pub open spec fn context_names_current_task(state: SyscallDispatchState, context: ResolvedBootstrapTaskContext) -> bool {
    state.current_task matches Some(t) && t.service_name@ == context.spec_service_name_field()
}

/// A kernel call from the bootstrap task: the context at `context` must
/// resolve (else invalid arguments), a task must be running (else
/// unsupported) and the context must name it (else denied); then the call is
/// logged and dispatched.
pub fn dispatch_bootstrap_kernel_call<C: ConsoleSink>(
    context: &[u8],
    request: NovaSyscallRequestV1,
    state: &SyscallDispatchState,
    console: &mut C,
) -> (r: NovaSyscallResultV1)
    requires
        state.wf(),
    ensures
        spec_resolve_context(context@) is None ==> r == status_result(NovaSyscallStatusV1::InvalidArgs)
            && final(console).written() == old(console).written(),
        spec_resolve_context(context@) is Some && state.current_task is None ==> r == status_result(
            NovaSyscallStatusV1::Unsupported,
        ) && final(console).written() == old(console).written(),
        spec_resolve_context(context@) matches Some(c) && state.current_task is Some && !context_names_current_task(*state, c)
            ==> r == status_result(NovaSyscallStatusV1::Denied) && final(console).written() == old(console).written(),
        spec_resolve_context(context@) matches Some(c) && context_names_current_task(*state, c) ==> r == spec_dispatch(
            *state,
            request,
        ) && final(console).written() == old(console).written() + kernel_call_log(*state, request),
{
    let resolved = match resolve_bootstrap_task_context(context) {
        Some(c) => c,
        None => return NovaSyscallResultV1::invalid_args(),
    };
    assert(spec_resolve_context(context@)->0.spec_service_name_field() == resolved.spec_service_name_field()) by {
        match resolved {
            ResolvedBootstrapTaskContext::V1(c) => {
                assert(c.service_name@ == context@.subrange(16, 32));
            },
            ResolvedBootstrapTaskContext::V2(c) => {
                assert(c.service_name@ == context@.subrange(16, 32));
            },
        }
    }
    let task = match &state.current_task {
        Some(t) => t,
        None => return NovaSyscallResultV1::unsupported(),
    };
    let field = match &resolved {
        ResolvedBootstrapTaskContext::V1(c) => &c.service_name,
        ResolvedBootstrapTaskContext::V2(c) => &c.service_name,
    };
    if !service_name_fields_equal(&task.service_name, field) {
        return NovaSyscallResultV1::denied();
    }
    let name = task.service_name();
    console.write_str("[info] bootstrap kernel call from ");
    console.write_line(name);
    let r = dispatch_syscall(state, request, console);
    assert(final(console).written() =~= old(console).written() + kernel_call_log(*state, request));
    r
}

} // verus!
