//! The syscall ABI shared by the kernel and user tasks.
use vstd::prelude::*;

verus! {

pub const NOVA_SYSCALL_ARG_COUNT: usize = 6;
pub const NOVA_BOOTSTRAP_TRAP_IMM16: u16 = 0x4E4F;
/// Encoded size of [`NovaSyscallRequestV1`].
pub const NOVA_SYSCALL_REQUEST_V1_SIZE: usize = 56;
/// Encoded size of [`NovaSyscallResultV1`].
pub const NOVA_SYSCALL_RESULT_V1_SIZE: usize = 24;
/// Offset of `args` in the encoded request.
pub const NOVA_SYSCALL_REQUEST_V1_ARGS_OFFSET: usize = 8;
/// Offset of `value0` in the encoded result.
pub const NOVA_SYSCALL_RESULT_V1_VALUE0_OFFSET: usize = 8;

/// Syscall numbers.
#[derive(Clone, Copy, Debug, PartialEq, Eq, Structural)]
pub enum NovaSyscallNumberV1 {
    Nop,
    Trace,
    Yield,
    EndpointCall,
    SharedMemoryMap,
}

impl NovaSyscallNumberV1 {
    pub open spec fn spec_raw(self) -> u32 {
        match self {
            NovaSyscallNumberV1::Nop => 0,
            NovaSyscallNumberV1::Trace => 1,
            NovaSyscallNumberV1::Yield => 2,
            NovaSyscallNumberV1::EndpointCall => 3,
            NovaSyscallNumberV1::SharedMemoryMap => 4,
        }
    }

    pub open spec fn spec_from_raw(raw: u32) -> Option<NovaSyscallNumberV1> {
        if raw == 0 {
            Some(NovaSyscallNumberV1::Nop)
        } else if raw == 1 {
            Some(NovaSyscallNumberV1::Trace)
        } else if raw == 2 {
            Some(NovaSyscallNumberV1::Yield)
        } else if raw == 3 {
            Some(NovaSyscallNumberV1::EndpointCall)
        } else if raw == 4 {
            Some(NovaSyscallNumberV1::SharedMemoryMap)
        } else {
            None
        }
    }

    /// The ABI value.
    pub fn as_raw(self) -> (r: u32)
        ensures
            r == self.spec_raw(),
    {
        match self {
            NovaSyscallNumberV1::Nop => 0,
            NovaSyscallNumberV1::Trace => 1,
            NovaSyscallNumberV1::Yield => 2,
            NovaSyscallNumberV1::EndpointCall => 3,
            NovaSyscallNumberV1::SharedMemoryMap => 4,
        }
    }

    /// The number with ABI value `raw`, if any.
    pub fn from_raw(raw: u32) -> (r: Option<Self>)
        ensures
            r == Self::spec_from_raw(raw),
            r matches Some(n) ==> n.spec_raw() == raw,
    {
        match raw {
            0 => Some(NovaSyscallNumberV1::Nop),
            1 => Some(NovaSyscallNumberV1::Trace),
            2 => Some(NovaSyscallNumberV1::Yield),
            3 => Some(NovaSyscallNumberV1::EndpointCall),
            4 => Some(NovaSyscallNumberV1::SharedMemoryMap),
            _ => None,
        }
    }
}

/// Syscall statuses.
#[derive(Clone, Copy, Debug, PartialEq, Eq, Structural)]
pub enum NovaSyscallStatusV1 {
    Success,
    Unknown,
    Unsupported,
    Denied,
    InvalidArgs,
}

impl NovaSyscallStatusV1 {
    pub open spec fn spec_raw(self) -> u32 {
        match self {
            NovaSyscallStatusV1::Success => 0,
            NovaSyscallStatusV1::Unknown => 1,
            NovaSyscallStatusV1::Unsupported => 2,
            NovaSyscallStatusV1::Denied => 3,
            NovaSyscallStatusV1::InvalidArgs => 4,
        }
    }

    pub open spec fn spec_from_raw(raw: u32) -> Option<NovaSyscallStatusV1> {
        if raw == 0 {
            Some(NovaSyscallStatusV1::Success)
        } else if raw == 1 {
            Some(NovaSyscallStatusV1::Unknown)
        } else if raw == 2 {
            Some(NovaSyscallStatusV1::Unsupported)
        } else if raw == 3 {
            Some(NovaSyscallStatusV1::Denied)
        } else if raw == 4 {
            Some(NovaSyscallStatusV1::InvalidArgs)
        } else {
            None
        }
    }

    /// The ABI value.
    pub fn as_raw(self) -> (r: u32)
        ensures
            r == self.spec_raw(),
    {
        match self {
            NovaSyscallStatusV1::Success => 0,
            NovaSyscallStatusV1::Unknown => 1,
            NovaSyscallStatusV1::Unsupported => 2,
            NovaSyscallStatusV1::Denied => 3,
            NovaSyscallStatusV1::InvalidArgs => 4,
        }
    }

    /// The status with ABI value `raw`, if any.
    pub fn from_raw(raw: u32) -> (r: Option<Self>)
        ensures
            r == Self::spec_from_raw(raw),
            r matches Some(s) ==> s.spec_raw() == raw,
    {
        match raw {
            0 => Some(NovaSyscallStatusV1::Success),
            1 => Some(NovaSyscallStatusV1::Unknown),
            2 => Some(NovaSyscallStatusV1::Unsupported),
            3 => Some(NovaSyscallStatusV1::Denied),
            4 => Some(NovaSyscallStatusV1::InvalidArgs),
            _ => None,
        }
    }
}

/// A syscall request: number, flags and six argument words.
#[derive(Clone, Copy, Debug, PartialEq, Eq)]
pub struct NovaSyscallRequestV1 {
    pub number: u32,
    pub flags: u32,
    pub args: [u64; 6],
}

impl NovaSyscallRequestV1 {
    /// A request from its parts.
    pub fn new(number: NovaSyscallNumberV1, flags: u32, args: [u64; 6]) -> (r: Self)
        ensures
            r.number == number.spec_raw(),
            r.flags == flags,
            r.args == args,
    {
        NovaSyscallRequestV1 { number: number.as_raw(), flags, args }
    }
}

/// A trace request carrying two values.
pub fn trace_request(value0: u64, value1: u64) -> (r: NovaSyscallRequestV1)
    ensures
        r.number == NovaSyscallNumberV1::Trace.spec_raw(),
        r.flags == 0,
        r.args@ == seq![value0, value1, 0u64, 0u64, 0u64, 0u64],
{
    let r = NovaSyscallRequestV1::new(NovaSyscallNumberV1::Trace, 0, [value0, value1, 0, 0, 0, 0]);
    assert(r.args@ =~= seq![value0, value1, 0u64, 0u64, 0u64, 0u64]);
    r
}

/// A syscall result: status, flags and two value words.
#[derive(Clone, Copy, Debug, PartialEq, Eq, Structural)]
pub struct NovaSyscallResultV1 {
    pub status: u32,
    pub flags: u32,
    pub value0: u64,
    pub value1: u64,
}

/// A result with `status` and no values.
pub open spec fn status_result(status: NovaSyscallStatusV1) -> NovaSyscallResultV1 {
    NovaSyscallResultV1 { status: status.spec_raw(), flags: 0, value0: 0, value1: 0 }
}

impl NovaSyscallResultV1 {
    /// Success with two values.
    pub fn ok(value0: u64, value1: u64) -> (r: Self)
        ensures
            r == (NovaSyscallResultV1 { status: 0, flags: 0, value0, value1 }),
    {
        NovaSyscallResultV1 { status: 0, flags: 0, value0, value1 }
    }

    /// The unknown-syscall result.
    pub fn unknown() -> (r: Self)
        ensures
            r == status_result(NovaSyscallStatusV1::Unknown),
    {
        NovaSyscallResultV1 { status: 1, flags: 0, value0: 0, value1: 0 }
    }

    /// The unsupported result.
    pub fn unsupported() -> (r: Self)
        ensures
            r == status_result(NovaSyscallStatusV1::Unsupported),
    {
        NovaSyscallResultV1 { status: 2, flags: 0, value0: 0, value1: 0 }
    }

    /// The denied result.
    pub fn denied() -> (r: Self)
        ensures
            r == status_result(NovaSyscallStatusV1::Denied),
    {
        NovaSyscallResultV1 { status: 3, flags: 0, value0: 0, value1: 0 }
    }

    /// The invalid-arguments result.
    pub fn invalid_args() -> (r: Self)
        ensures
            r == status_result(NovaSyscallStatusV1::InvalidArgs),
    {
        NovaSyscallResultV1 { status: 4, flags: 0, value0: 0, value1: 0 }
    }

    /// Whether the status is success.
    pub fn is_success(&self) -> (r: bool)
        ensures
            r == (self.status == 0),
    {
        self.status == 0
    }
}

/// Decodes the three words the kernel hands back: an unknown status word
/// reads as `Unknown`.
pub fn decode_raw_syscall_result(raw: [u64; 3]) -> (r: NovaSyscallResultV1)
    ensures
        r.status == (match NovaSyscallStatusV1::spec_from_raw(raw[0] as u32) {
            Some(s) => s.spec_raw(),
            None => 1u32,
        }),
        r.flags == 0,
        r.value0 == raw[1],
        r.value1 == raw[2],
{
    let status = match NovaSyscallStatusV1::from_raw(raw[0] as u32) {
        Some(s) => s.as_raw(),
        None => 1,
    };
    NovaSyscallResultV1 { status, flags: 0, value0: raw[1], value1: raw[2] }
}

/// Issues a syscall. Off the target there is no kernel to trap into, and
/// every syscall is unsupported.
pub fn syscall(request: NovaSyscallRequestV1) -> (r: NovaSyscallResultV1)
    ensures
        r == status_result(NovaSyscallStatusV1::Unsupported),
{
    NovaSyscallResultV1::unsupported()
}

/// Issues a request through the bootstrap trap. Off the target it is
/// unsupported.
pub fn bootstrap_trap(request: NovaSyscallRequestV1) -> (r: NovaSyscallResultV1)
    ensures
        r == status_result(NovaSyscallStatusV1::Unsupported),
{
    NovaSyscallResultV1::unsupported()
}

/// Traces two values through the syscall path.
pub fn trace(value0: u64, value1: u64) -> (r: NovaSyscallResultV1)
    ensures
        r == status_result(NovaSyscallStatusV1::Unsupported),
{
    syscall(trace_request(value0, value1))
}

/// Traces two values through the bootstrap trap.
pub fn bootstrap_trap_trace(value0: u64, value1: u64) -> (r: NovaSyscallResultV1)
    ensures
        r == status_result(NovaSyscallStatusV1::Unsupported),
{
    bootstrap_trap(trace_request(value0, value1))
}

} // verus!
