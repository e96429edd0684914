//! Stage 1: checks the staged kernel against the loader's records and plans
//! the jump into it.
use vstd::prelude::*;
use crate::boot_contract::{resolve_kernel_image_digest, resolve_verification_info, spec_verification};
use crate::bootinfo::{BootSummary, NovaBootInfoV1, NOVA_BOOT_INFO_V1_SIZE};
use crate::bootinfo_v2::{NovaBootInfoV2, NOVA_BOOT_INFO_V2_SIZE};
use crate::bytes::le_u32_at;
use crate::digest::{sha256_spec, NovaImageDigestV1};
use crate::init_capsule::{capsule_accepts, InitCapsuleImage};
use crate::payload::{payload_accepts, NovaPayloadEntryAbi, NovaPayloadKind, PayloadImage};
use crate::verification::NovaVerificationInfoV1;

verus! {

/// The stage's own name.
pub fn stage1_identity() -> (r: &'static str)
    ensures
        r@ == "NovaOS stage1"@,
{
    "NovaOS stage1"
}

/// What stage 1 works from: the boot records and where they sit, the staged
/// kernel image and init capsule and where they sit, and the records the boot
/// record points at, read out of memory by the caller.
#[derive(Clone, Copy)]
pub struct Stage1Input<'a> {
    pub boot_info: &'a NovaBootInfoV1,
    pub boot_info_addr: u64,
    pub boot_info_v2: Option<&'a NovaBootInfoV2>,
    pub boot_info_v2_addr: u64,
    pub kernel_image: &'a [u8],
    pub kernel_image_addr: u64,
    pub init_capsule: Option<&'a [u8]>,
    pub init_capsule_addr: u64,
    /// The record at the boot record's kernel image digest pointer.
    pub kernel_image_digest: Option<NovaImageDigestV1>,
    /// The record at the boot record's verification pointer.
    pub verification_info: Option<NovaVerificationInfoV1>,
    pub secure_boot: bool,
}

/// How stage 1 hands over.
#[derive(Clone, Copy, Debug, PartialEq, Eq, Structural)]
pub struct Stage1Config {
    pub allow_relocation: bool,
    pub exit_boot_services: bool,
}

impl Stage1Config {
    /// No relocation; boot services exited.
    pub fn strict() -> (r: Self)
        ensures
            r == (Stage1Config { allow_relocation: false, exit_boot_services: true }),
    {
        Stage1Config { allow_relocation: false, exit_boot_services: true }
    }
}

/// Where the kernel starts and what it loads.
#[derive(Clone, Copy, Debug, PartialEq, Eq, Structural)]
pub struct KernelImage {
    pub entry_point: u64,
    pub load_base: u64,
    pub load_size: u64,
}

/// The hand-over stage 1 prepared.
#[derive(Clone, Copy, Debug, PartialEq, Eq, Structural)]
pub struct Stage1Plan {
    pub config: Stage1Config,
    pub boot_info_addr: u64,
    pub boot_info_v2_addr: u64,
    pub kernel: KernelImage,
    pub boot_info_summary: BootSummary,
    pub boot_info_size: usize,
    pub boot_info_v2_size: usize,
    pub init_capsule_addr: u64,
    pub init_capsule_len: usize,
}

impl Stage1Plan {
    /// A plan that points nowhere.
    pub fn empty() -> (r: Self)
        ensures
            r == (Stage1Plan {
                config: Stage1Config { allow_relocation: false, exit_boot_services: true },
                boot_info_addr: 0,
                boot_info_v2_addr: 0,
                kernel: KernelImage { entry_point: 0, load_base: 0, load_size: 0 },
                boot_info_summary: BootSummary { secure_boot: false, framebuffer_present: false, memory_map_entries: 0 },
                boot_info_size: 0,
                boot_info_v2_size: 0,
                init_capsule_addr: 0,
                init_capsule_len: 0,
            }),
    {
        Stage1Plan {
            config: Stage1Config::strict(),
            boot_info_addr: 0,
            boot_info_v2_addr: 0,
            kernel: KernelImage { entry_point: 0, load_base: 0, load_size: 0 },
            boot_info_summary: BootSummary::empty(),
            boot_info_size: 0,
            boot_info_v2_size: 0,
            init_capsule_addr: 0,
            init_capsule_len: 0,
        }
    }
}

/// Why a plan was refused.
#[derive(Clone, Copy, Debug, PartialEq, Eq, Structural)]
pub enum Stage1Status {
    Ready,
    InvalidKernelImage,
    InvalidKernelDigest,
    InvalidVerificationInfo,
    InvalidInitCapsule,
    InvalidBootInfo,
    InvalidBootInfoV2,
}

/// Where control goes and what it carries.
#[derive(Clone, Copy, Debug, PartialEq, Eq, Structural)]
pub struct Stage1Transfer {
    pub boot_info_addr: u64,
    pub boot_info_v2_addr: u64,
    pub kernel_entry: u64,
    pub init_capsule_addr: u64,
    pub init_capsule_len: usize,
}

/// Why a transfer was refused.
#[derive(Clone, Copy, Debug, PartialEq, Eq, Structural)]
pub enum Stage1TransferStatus {
    InvalidPlan,
    InvalidBootInfo,
    InvalidBootInfoV2,
    MissingKernelEntry,
}

/// The staged kernel is a kernel image entered with a BootInfo v2 sidecar.
pub open spec fn kernel_image_accepts(k: Seq<u8>) -> bool {
    &&& payload_accepts(k)
    &&& le_u32_at(k, 12) == NovaPayloadKind::Kernel.spec_raw()
    &&& le_u32_at(k, 36) == NovaPayloadEntryAbi::BootInfoV2Sidecar.spec_raw()
}

/// The loader's verification record vouches for the staged kernel: stage 1
/// and the kernel were verified, the kernel's digest was checked, and the
/// recorded kernel size is the staged size.
pub open spec fn verification_vouches(v: Option<NovaVerificationInfoV1>, kernel_len: nat) -> bool {
    v matches Some(v) && {
        &&& v.spec_has_flag(NovaVerificationInfoV1::FLAG_STAGE1_PAYLOAD_VERIFIED)
        &&& v.spec_has_flag(NovaVerificationInfoV1::FLAG_KERNEL_PAYLOAD_VERIFIED)
        &&& v.spec_has_flag(NovaVerificationInfoV1::FLAG_KERNEL_DIGEST_VERIFIED)
        &&& v.kernel_image_size == kernel_len
    }
}

/// The kernel digest record is present, valid and the SHA-256 of the staged
/// kernel.
pub open spec fn digest_vouches(b: NovaBootInfoV1, record: Option<NovaImageDigestV1>, kernel: Seq<u8>) -> bool {
    &&& b.spec_has_flag(NovaBootInfoV1::FLAG_HAS_KERNEL_IMAGE_DIGEST)
    &&& record matches Some(d)
    &&& d.spec_is_valid()
    &&& sha256_spec(kernel) == d.bytes@
}

/// The plan stage 1 builds from accepted parts: the boot record and its
/// address, the sidecar and its address, the kernel image and its address,
/// and the init capsule and its address.
pub open spec fn spec_plan_parts(
    boot_info: NovaBootInfoV1,
    boot_info_addr: u64,
    boot_info_v2: Option<NovaBootInfoV2>,
    boot_info_v2_addr: u64,
    k: Seq<u8>,
    kernel_image_addr: u64,
    init_capsule: Option<Seq<u8>>,
    init_capsule_addr: u64,
) -> Stage1Plan {
    Stage1Plan {
        config: Stage1Config { allow_relocation: false, exit_boot_services: true },
        boot_info_addr,
        boot_info_v2_addr: if boot_info_v2 is Some { boot_info_v2_addr } else { 0 },
        kernel: KernelImage {
            entry_point: (kernel_image_addr + le_u32_at(k, 32)) as u64,
            load_base: (kernel_image_addr + le_u32_at(k, 24)) as u64,
            load_size: le_u32_at(k, 28) as u64,
        },
        boot_info_summary: boot_info.spec_summary(),
        boot_info_size: NOVA_BOOT_INFO_V1_SIZE,
        boot_info_v2_size: if boot_info_v2 is Some { NOVA_BOOT_INFO_V2_SIZE } else { 0 },
        init_capsule_addr: if init_capsule is Some { init_capsule_addr } else { 0 },
        init_capsule_len: match init_capsule { Some(c) => c.len() as usize, None => 0 },
    }
}

/// What `build_plan` gives on its parts: the first refusal that applies, in
/// the order boot record, sidecar, kernel image, verification record, kernel
/// digest, init capsule; otherwise the plan.
pub open spec fn spec_build_plan_parts(
    boot_info: NovaBootInfoV1,
    boot_info_addr: u64,
    boot_info_v2: Option<NovaBootInfoV2>,
    boot_info_v2_addr: u64,
    k: Seq<u8>,
    kernel_image_addr: u64,
    init_capsule: Option<Seq<u8>>,
    init_capsule_addr: u64,
    kernel_image_digest: Option<NovaImageDigestV1>,
    verification_info: Option<NovaVerificationInfoV1>,
) -> Result<Stage1Plan, Stage1Status> {
    if !boot_info.spec_is_valid() {
        Err(Stage1Status::InvalidBootInfo)
    } else if (boot_info_v2 matches Some(v) && !v.spec_is_valid()) {
        Err(Stage1Status::InvalidBootInfoV2)
    } else if k.len() == 0 || !kernel_image_accepts(k) {
        Err(Stage1Status::InvalidKernelImage)
    } else if !verification_vouches(spec_verification(boot_info, verification_info), k.len()) {
        Err(Stage1Status::InvalidVerificationInfo)
    } else if !digest_vouches(boot_info, kernel_image_digest, k) {
        Err(Stage1Status::InvalidKernelDigest)
    } else if (init_capsule matches Some(c) && !capsule_accepts(c)) {
        Err(Stage1Status::InvalidInitCapsule)
    } else {
        Ok(
            spec_plan_parts(
                boot_info,
                boot_info_addr,
                boot_info_v2,
                boot_info_v2_addr,
                k,
                kernel_image_addr,
                init_capsule,
                init_capsule_addr,
            ),
        )
    }
}

/// The plan stage 1 builds from an accepted input.
pub open spec fn spec_plan(input: Stage1Input) -> Stage1Plan {
    spec_plan_parts(
        *input.boot_info,
        input.boot_info_addr,
        match input.boot_info_v2 { Some(v) => Some(*v), None => None },
        input.boot_info_v2_addr,
        input.kernel_image@,
        input.kernel_image_addr,
        match input.init_capsule { Some(c) => Some(c@), None => None },
        input.init_capsule_addr,
    )
}

/// What `build_plan` gives.
pub open spec fn spec_build_plan(input: Stage1Input) -> Result<Stage1Plan, Stage1Status> {
    spec_build_plan_parts(
        *input.boot_info,
        input.boot_info_addr,
        match input.boot_info_v2 { Some(v) => Some(*v), None => None },
        input.boot_info_v2_addr,
        input.kernel_image@,
        input.kernel_image_addr,
        match input.init_capsule { Some(c) => Some(c@), None => None },
        input.init_capsule_addr,
        input.kernel_image_digest,
        input.verification_info,
    )
}

/// `build_plan` accepts exactly the inputs whose boot record, sidecar (where
/// there is one), kernel image, verification record, kernel digest and init
/// capsule (where there is one) all pass their checks, and then plans the jump
/// into the kernel from the input's own addresses.
pub proof fn lemma_build_plan_accepts(input: Stage1Input)
    ensures
        spec_build_plan(input) is Ok <==> {
            &&& input.boot_info.spec_is_valid()
            &&& (input.boot_info_v2 matches Some(v) ==> v.spec_is_valid())
            &&& input.kernel_image@.len() != 0 && kernel_image_accepts(input.kernel_image@)
            &&& verification_vouches(spec_verification(*input.boot_info, input.verification_info), input.kernel_image@.len())
            &&& digest_vouches(*input.boot_info, input.kernel_image_digest, input.kernel_image@)
            &&& (input.init_capsule matches Some(c) ==> capsule_accepts(c@))
        },
        spec_build_plan(input) is Ok ==> spec_build_plan(input) == Ok::<Stage1Plan, Stage1Status>(spec_plan(input)),
{
}

/// Stage 1 enters the kernel at its header's entry point: in an accepted
/// plan the entry point is the kernel image's address plus the header's entry
/// offset (the little-endian `u32` at byte 32 of the image), the loaded body
/// starts at the image's address plus the header's load offset (byte 24) and
/// runs for the header's load size (byte 28) to the end of the image, and the
/// entry point lies inside that body, past the 88-byte header. The plan keeps
/// the boot record's address, and the sidecar's and the capsule's where they
/// are handed in.
pub proof fn lemma_built_plan_enters_at_entry_offset(input: Stage1Input)
    requires
        input.kernel_image_addr + input.kernel_image@.len() <= u64::MAX,
        spec_build_plan(input) is Ok,
    ensures
        ({
            let plan = spec_build_plan(input)->Ok_0;
            let k = input.kernel_image@;
            &&& plan.kernel.entry_point == input.kernel_image_addr + le_u32_at(k, 32)
            &&& plan.kernel.load_base == input.kernel_image_addr + le_u32_at(k, 24)
            &&& plan.kernel.load_size == le_u32_at(k, 28)
            &&& plan.kernel.load_base + plan.kernel.load_size == input.kernel_image_addr + k.len()
            &&& input.kernel_image_addr + 88 <= plan.kernel.load_base <= plan.kernel.entry_point
            &&& plan.kernel.entry_point < plan.kernel.load_base + plan.kernel.load_size
            &&& plan.boot_info_addr == input.boot_info_addr
            &&& plan.boot_info_v2_addr == if input.boot_info_v2 is Some { input.boot_info_v2_addr } else { 0 }
            &&& plan.init_capsule_addr == if input.init_capsule is Some { input.init_capsule_addr } else { 0 }
            &&& plan.init_capsule_len == match input.init_capsule { Some(c) => c@.len(), None => 0 }
        }),
{
}

/// Checks the staged kernel against the loader's records and plans the jump.
pub fn build_plan(input: &Stage1Input) -> (r: Result<Stage1Plan, Stage1Status>)
    requires
        input.kernel_image_addr + input.kernel_image@.len() <= u64::MAX,
    ensures
        r == spec_build_plan(*input),
        r matches Ok(p) ==> p.kernel.entry_point == input.kernel_image_addr + le_u32_at(input.kernel_image@, 32)
            && p.kernel.load_base == input.kernel_image_addr + le_u32_at(input.kernel_image@, 24)
            && p.kernel.load_size == le_u32_at(input.kernel_image@, 28),
{
    if !input.boot_info.is_valid() {
        return Err(Stage1Status::InvalidBootInfo);
    }
    if let Some(v2) = input.boot_info_v2 {
        if !v2.is_valid() {
            return Err(Stage1Status::InvalidBootInfoV2);
        }
    }
    if input.kernel_image.len() == 0 {
        return Err(Stage1Status::InvalidKernelImage);
    }
    let kernel_image = match PayloadImage::parse_kind_abi(
        input.kernel_image,
        NovaPayloadKind::Kernel,
        NovaPayloadEntryAbi::BootInfoV2Sidecar,
    ) {
        Some(image) => image,
        None => return Err(Stage1Status::InvalidKernelImage),
    };
    let verification = match resolve_verification_info(input.boot_info, input.verification_info) {
        Some(v) => v,
        None => return Err(Stage1Status::InvalidVerificationInfo),
    };
    if !verification.stage1_payload_verified() || !verification.kernel_payload_verified()
        || !verification.kernel_digest_verified()
        || verification.kernel_image_size != input.kernel_image.len() as u64 {
        return Err(Stage1Status::InvalidVerificationInfo);
    }
    let kernel_digest = match resolve_kernel_image_digest(input.boot_info, input.kernel_image_digest) {
        Some(d) => d,
        None => return Err(Stage1Status::InvalidKernelDigest),
    };
    if !kernel_image.image_digest_matches(&kernel_digest) {
        return Err(Stage1Status::InvalidKernelDigest);
    }
    if let Some(capsule) = input.init_capsule {
        if InitCapsuleImage::parse(capsule).is_none() {
            return Err(Stage1Status::InvalidInitCapsule);
        }
    }
    let kernel_base = input.kernel_image_addr;
    let boot_info_v2_addr = match input.boot_info_v2 {
        Some(_) => input.boot_info_v2_addr,
        None => 0,
    };
    let boot_info_v2_size = match input.boot_info_v2 {
        Some(_) => NOVA_BOOT_INFO_V2_SIZE,
        None => 0,
    };
    let (init_capsule_addr, init_capsule_len) = match input.init_capsule {
        Some(capsule) => (input.init_capsule_addr, capsule.len()),
        None => (0, 0),
    };
    Ok(Stage1Plan {
        config: Stage1Config::strict(),
        boot_info_addr: input.boot_info_addr,
        boot_info_v2_addr,
        kernel: KernelImage {
            entry_point: kernel_image.entry_addr(kernel_base),
            load_base: kernel_image.load_base(kernel_base),
            load_size: kernel_image.load_size(),
        },
        boot_info_summary: input.boot_info.summary(),
        boot_info_size: NOVA_BOOT_INFO_V1_SIZE,
        boot_info_v2_size,
        init_capsule_addr,
        init_capsule_len,
    })
}

/// What `prepare_transfer` gives.
pub open spec fn spec_prepare_transfer(
    plan: Stage1Plan,
    boot_info: Option<NovaBootInfoV1>,
    boot_info_v2: Option<NovaBootInfoV2>,
) -> Result<Stage1Transfer, Stage1TransferStatus> {
    if plan.boot_info_addr == 0 {
        Err(Stage1TransferStatus::InvalidPlan)
    } else if !(boot_info matches Some(b) && b.spec_is_valid()) {
        Err(Stage1TransferStatus::InvalidBootInfo)
    } else if plan.boot_info_v2_addr == 0 && plan.boot_info_v2_size != 0 {
        Err(Stage1TransferStatus::InvalidPlan)
    } else if plan.boot_info_v2_addr != 0 && !(boot_info_v2 matches Some(v) && plan.boot_info_v2_size
        == NOVA_BOOT_INFO_V2_SIZE && v.spec_is_valid()) {
        Err(Stage1TransferStatus::InvalidBootInfoV2)
    } else if plan.kernel.entry_point == 0 {
        Err(Stage1TransferStatus::MissingKernelEntry)
    } else {
        Ok(Stage1Transfer {
            boot_info_addr: plan.boot_info_addr,
            boot_info_v2_addr: plan.boot_info_v2_addr,
            kernel_entry: plan.kernel.entry_point,
            init_capsule_addr: plan.init_capsule_addr,
            init_capsule_len: plan.init_capsule_len,
        })
    }
}

/// Checks a plan against the records it points at (`boot_info` at its boot
/// record address, `boot_info_v2` at its sidecar address, `None` where the
/// address is null) and gives the transfer.
pub fn prepare_transfer(
    plan: &Stage1Plan,
    boot_info: Option<&NovaBootInfoV1>,
    boot_info_v2: Option<&NovaBootInfoV2>,
) -> (r: Result<Stage1Transfer, Stage1TransferStatus>)
    ensures
        r == spec_prepare_transfer(
            *plan,
            match boot_info { Some(b) => Some(*b), None => None },
            match boot_info_v2 { Some(v) => Some(*v), None => None },
        ),
{
    if plan.boot_info_addr == 0 {
        return Err(Stage1TransferStatus::InvalidPlan);
    }
    match boot_info {
        Some(b) => if !b.is_valid() {
            return Err(Stage1TransferStatus::InvalidBootInfo);
        },
        None => return Err(Stage1TransferStatus::InvalidBootInfo),
    }
    if plan.boot_info_v2_addr == 0 {
        if plan.boot_info_v2_size != 0 {
            return Err(Stage1TransferStatus::InvalidPlan);
        }
    } else {
        match boot_info_v2 {
            Some(v) => if plan.boot_info_v2_size != NOVA_BOOT_INFO_V2_SIZE || !v.is_valid() {
                return Err(Stage1TransferStatus::InvalidBootInfoV2);
            },
            None => return Err(Stage1TransferStatus::InvalidBootInfoV2),
        }
    }
    if plan.kernel.entry_point == 0 {
        return Err(Stage1TransferStatus::MissingKernelEntry);
    }
    Ok(Stage1Transfer {
        boot_info_addr: plan.boot_info_addr,
        boot_info_v2_addr: plan.boot_info_v2_addr,
        kernel_entry: plan.kernel.entry_point,
        init_capsule_addr: plan.init_capsule_addr,
        init_capsule_len: plan.init_capsule_len,
    })
}

/// A plan that `build_plan` accepted goes through `prepare_transfer` against
/// the records it was built from, wherever those records sit at real
/// (nonzero) addresses: the transfer carries the plan's boot record and
/// sidecar addresses, enters the kernel at the plan's entry point, and hands
/// over the plan's init capsule.
pub proof fn lemma_built_plan_transfers(input: Stage1Input)
    requires
        input.boot_info_addr != 0,
        input.boot_info_v2 is Some ==> input.boot_info_v2_addr != 0,
        input.kernel_image_addr + input.kernel_image@.len() <= u64::MAX,
        spec_build_plan(input) is Ok,
    ensures
        ({
            let plan = spec_build_plan(input)->Ok_0;
            spec_prepare_transfer(
                plan,
                Some(*input.boot_info),
                match input.boot_info_v2 { Some(v) => Some(*v), None => None },
            ) == Ok::<Stage1Transfer, Stage1TransferStatus>(Stage1Transfer {
                boot_info_addr: plan.boot_info_addr,
                boot_info_v2_addr: plan.boot_info_v2_addr,
                kernel_entry: plan.kernel.entry_point,
                init_capsule_addr: plan.init_capsule_addr,
                init_capsule_len: plan.init_capsule_len,
            })
        }),
{
    let k = input.kernel_image@;
    assert(le_u32_at(k, 32) >= 88);
}

} // verus!
