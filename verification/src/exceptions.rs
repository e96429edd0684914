//! ARM64 exception syndromes and the exception-vector record.
use vstd::prelude::*;

verus! {

/// The exception classes the kernel tells apart.
#[derive(Clone, Copy, Debug, PartialEq, Eq, Structural)]
pub enum ExceptionClass {
    Unknown,
    Svc64,
    Brk64,
    InstructionAbortLowerEl,
    DataAbortLowerEl,
}

impl ExceptionClass {
    pub open spec fn spec_raw(self) -> u8 {
        match self {
            ExceptionClass::Unknown => 0x00,
            ExceptionClass::Svc64 => 0x15,
            ExceptionClass::Brk64 => 0x3C,
            ExceptionClass::InstructionAbortLowerEl => 0x20,
            ExceptionClass::DataAbortLowerEl => 0x24,
        }
    }

    pub open spec fn spec_from_raw(raw: u8) -> ExceptionClass {
        if raw == 0x15 {
            ExceptionClass::Svc64
        } else if raw == 0x3C {
            ExceptionClass::Brk64
        } else if raw == 0x20 {
            ExceptionClass::InstructionAbortLowerEl
        } else if raw == 0x24 {
            ExceptionClass::DataAbortLowerEl
        } else {
            ExceptionClass::Unknown
        }
    }

    /// The ESR exception-class value.
    pub fn as_raw(self) -> (r: u8)
        ensures
            r == self.spec_raw(),
    {
        match self {
            ExceptionClass::Unknown => 0x00,
            ExceptionClass::Svc64 => 0x15,
            ExceptionClass::Brk64 => 0x3C,
            ExceptionClass::InstructionAbortLowerEl => 0x20,
            ExceptionClass::DataAbortLowerEl => 0x24,
        }
    }

    /// The class of an ESR exception-class value; any other value is `Unknown`.
    pub fn from_raw(raw: u8) -> (r: Self)
        ensures
            r == Self::spec_from_raw(raw),
    {
        match raw {
            0x15 => ExceptionClass::Svc64,
            0x3C => ExceptionClass::Brk64,
            0x20 => ExceptionClass::InstructionAbortLowerEl,
            0x24 => ExceptionClass::DataAbortLowerEl,
            _ => ExceptionClass::Unknown,
        }
    }
}

/// A decoded exception syndrome register.
#[derive(Clone, Copy, Debug, PartialEq, Eq, Structural)]
pub struct ExceptionSyndrome {
    pub raw: u32,
    pub class: ExceptionClass,
    pub iss: u32,
}

/// The syndrome an ESR value decodes to: bits 31..26 give the class and bits
/// 24..0 the instruction-specific syndrome.
pub open spec fn spec_syndrome(raw: u32) -> ExceptionSyndrome {
    ExceptionSyndrome {
        raw,
        class: ExceptionClass::spec_from_raw(((raw >> 26u32) & 0x3Fu32) as u8),
        iss: raw & 0x1FF_FFFFu32,
    }
}

/// Class values and classes correspond one to one: each class's value
/// decodes to that class, and a value that decodes to a known class is that
/// class's value.
pub proof fn lemma_exception_class_round_trip(c: ExceptionClass, raw: u8)
    ensures
        ExceptionClass::spec_from_raw(c.spec_raw()) == c,
        ExceptionClass::spec_from_raw(raw) != ExceptionClass::Unknown ==> ExceptionClass::spec_from_raw(raw).spec_raw() == raw,
{
}

/// A decoded syndrome keeps the raw value, its class is read from bits
/// 31..26 (a known class's value is exactly those bits), and its
/// instruction-specific syndrome is bits 24..0, so the raw value is rebuilt
/// from the class bits, the IL bit 25 and the syndrome.
pub proof fn lemma_syndrome_fields(raw: u32)
    ensures
        spec_syndrome(raw).raw == raw,
        spec_syndrome(raw).iss < 0x200_0000,
        spec_syndrome(raw).class != ExceptionClass::Unknown ==> (raw >> 26u32) as int == spec_syndrome(raw).class.spec_raw(),
        raw as int == ((raw >> 26u32) as int) * 0x400_0000 + (raw & 0x200_0000u32) as int + spec_syndrome(raw).iss as int,
{
    let top = raw >> 26u32;
    let il = raw & 0x200_0000u32;
    let iss = raw & 0x1FF_FFFFu32;
    assert(top < 64 && top & 0x3Fu32 == top && iss < 0x200_0000 && (il == 0 || il == 0x200_0000) && raw == top * 0x400_0000
        + il + iss) by (bit_vector)
        requires
            top == raw >> 26u32,
            il == raw & 0x200_0000u32,
            iss == raw & 0x1FF_FFFFu32,
    ;
}

impl ExceptionSyndrome {
    pub const ISS_MASK: u32 = 0x1FF_FFFF;

    /// Decodes an ESR value.
    pub fn from_esr(raw: u32) -> (r: Self)
        ensures
            r == spec_syndrome(raw),
    {
        let class = ExceptionClass::from_raw(((raw >> 26u32) & 0x3Fu32) as u8);
        ExceptionSyndrome { raw, class, iss: raw & Self::ISS_MASK }
    }

    /// The SVC immediate, for an SVC syndrome.
    pub fn svc_imm16(self) -> (r: Option<u16>)
        ensures
            r == (if self.class == ExceptionClass::Svc64 { Some((self.iss & 0xFFFFu32) as u16) } else { None::<u16> }),
    {
        match self.class {
            ExceptionClass::Svc64 => Some((self.iss & 0xFFFFu32) as u16),
            _ => None,
        }
    }

    /// The BRK immediate, for a BRK syndrome.
    pub fn brk_imm16(self) -> (r: Option<u16>)
        ensures
            r == (if self.class == ExceptionClass::Brk64 { Some((self.iss & 0xFFFFu32) as u16) } else { None::<u16> }),
    {
        match self.class {
            ExceptionClass::Brk64 => Some((self.iss & 0xFFFFu32) as u16),
            _ => None,
        }
    }
}

/// An ESR value of class `class` with the 16-bit immediate `imm` reads back
/// as that class and immediate.
pub proof fn lemma_syndrome_round_trip(class: ExceptionClass, imm: u16)
    ensures
        ({
            let raw = ((class.spec_raw() as u32) << 26u32) | (imm as u32);
            &&& spec_syndrome(raw).class == class
            &&& (spec_syndrome(raw).iss & 0xFFFFu32) as u16 == imm
        }),
{
    let c = class.spec_raw();
    let raw = ((c as u32) << 26u32) | (imm as u32);
    assert(c <= 0x3F);
    assert(c <= 0x3F ==> ((((c as u32) << 26u32) | (imm as u32)) >> 26u32) & 0x3Fu32 == c as u32) by (bit_vector);
    assert((((((c as u32) << 26u32) | (imm as u32)) & 0x1FF_FFFFu32) & 0xFFFFu32) as u16 == imm) by (bit_vector);
}

/// Where the exception vectors are and whether they were installed.
#[derive(Clone, Copy, Debug, PartialEq, Eq, Structural)]
pub struct ExceptionVectors {
    pub base: u64,
    pub installed: bool,
}

impl ExceptionVectors {
    /// No vectors installed.
    pub fn placeholder() -> (r: Self)
        ensures
            r == (ExceptionVectors { base: 0, installed: false }),
    {
        ExceptionVectors { base: 0, installed: false }
    }

    /// Vectors installed at `base`.
    pub fn from_base(base: u64) -> (r: Self)
        ensures
            r == (ExceptionVectors { base, installed: true }),
    {
        ExceptionVectors { base, installed: true }
    }

    /// The vectors this build runs with; off the target there are none.
    pub fn runtime() -> (r: Self)
        ensures
            r == (ExceptionVectors { base: 0, installed: false }),
    {
        Self::placeholder()
    }

    /// The installed vectors, or else those this build runs with; off the
    /// target there are none.
    pub fn installed_or_runtime() -> (r: Self)
        ensures
            r == (ExceptionVectors { base: 0, installed: false }),
    {
        Self::runtime()
    }
}

/// The registers a bootstrap exception return saw and restored.
#[derive(Clone, Copy, Debug, PartialEq, Eq, Structural)]
pub struct BootstrapExceptionReturnCapture {
    pub frame_x0: u64,
    pub frame_x1: u64,
    pub frame_x2: u64,
    pub restored_x0: u64,
    pub restored_x1: u64,
    pub restored_x2: u64,
}

impl BootstrapExceptionReturnCapture {
    /// The marker of a field nothing has recorded.
    pub const UNSET: u64 = 0xFFFF_FFFF_FFFF_FFFF;

    /// A capture with nothing recorded.
    pub fn unset() -> (r: Self)
        ensures
            r == (BootstrapExceptionReturnCapture {
                frame_x0: u64::MAX,
                frame_x1: u64::MAX,
                frame_x2: u64::MAX,
                restored_x0: u64::MAX,
                restored_x1: u64::MAX,
                restored_x2: u64::MAX,
            }),
    {
        BootstrapExceptionReturnCapture {
            frame_x0: Self::UNSET,
            frame_x1: Self::UNSET,
            frame_x2: Self::UNSET,
            restored_x0: Self::UNSET,
            restored_x1: Self::UNSET,
            restored_x2: Self::UNSET,
        }
    }

    /// Whether a return has been recorded.
    pub fn is_recorded(self) -> (r: bool)
        ensures
            r == (self.frame_x0 != u64::MAX),
    {
        self.frame_x0 != Self::UNSET
    }
}

} // verus!
