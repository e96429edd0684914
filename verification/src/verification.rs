//! The persistent boot-verification record the loader hands to the kernel.
use vstd::prelude::*;

verus! {

/// Encoded size of [`NovaVerificationInfoV1`].
pub const NOVA_VERIFICATION_INFO_V1_SIZE: usize = 32;

/// Which staged payload checks the loader performed.
#[derive(Clone, Copy, Debug, PartialEq, Eq, Structural)]
pub struct NovaVerificationInfoV1 {
    pub magic: u64,
    pub version: u32,
    pub flags: u32,
    pub stage1_image_size: u64,
    pub kernel_image_size: u64,
}

pub const NOVA_VERIFICATION_MAGIC: u64 = 0x3146_4952_4556_4F4E;

impl NovaVerificationInfoV1 {
    pub const MAGIC: u64 = 0x3146_4952_4556_4F4E;
    pub const VERSION: u32 = 1;
    pub const FLAG_STAGE1_PAYLOAD_PRESENT: u32 = 0x1;
    pub const FLAG_STAGE1_PAYLOAD_VERIFIED: u32 = 0x2;
    pub const FLAG_KERNEL_PAYLOAD_PRESENT: u32 = 0x4;
    pub const FLAG_KERNEL_PAYLOAD_VERIFIED: u32 = 0x8;
    pub const FLAG_KERNEL_DIGEST_PRESENT: u32 = 0x10;
    pub const FLAG_KERNEL_DIGEST_VERIFIED: u32 = 0x20;
    pub const FLAG_INIT_CAPSULE_PRESENT: u32 = 0x40;

    /// The all-zero record.
    pub fn zero() -> (r: Self)
        ensures
            r == (NovaVerificationInfoV1 { magic: 0, version: 0, flags: 0, stage1_image_size: 0, kernel_image_size: 0 }),
    {
        NovaVerificationInfoV1 { magic: 0, version: 0, flags: 0, stage1_image_size: 0, kernel_image_size: 0 }
    }

    /// A fresh record: magic and version set, no flags, no sizes.
    pub fn new() -> (r: Self)
        ensures
            r == (NovaVerificationInfoV1 { magic: NOVA_VERIFICATION_MAGIC, version: 1, flags: 0, stage1_image_size: 0, kernel_image_size: 0 }),
    {
        NovaVerificationInfoV1 { magic: NOVA_VERIFICATION_MAGIC, version: 1, flags: 0, stage1_image_size: 0, kernel_image_size: 0 }
    }

    pub open spec fn spec_has_flag(&self, flag: u32) -> bool {
        self.flags & flag != 0
    }

    /// Whether any bit of `flag` is set.
    pub fn has_flag(&self, flag: u32) -> (r: bool)
        ensures
            r == self.spec_has_flag(flag),
    {
        (self.flags & flag) != 0
    }

    /// Sets the bits of `flag`; a set flag reads back as set and no flag is
    /// cleared.
    pub fn set_flag(&mut self, flag: u32)
        ensures
            *final(self) == (NovaVerificationInfoV1 { flags: old(self).flags | flag, ..*old(self) }),
            flag != 0 ==> final(self).spec_has_flag(flag),
            forall|g: u32| old(self).spec_has_flag(g) ==> #[trigger] final(self).spec_has_flag(g),
    {
        let old_flags = self.flags;
        self.flags = self.flags | flag;
        proof {
            let f = old_flags;
            assert(flag != 0 ==> (f | flag) & flag != 0) by (bit_vector);
            assert forall|g: u32| f & g != 0 implies #[trigger] ((f | flag) & g) != 0 by {
                assert(f & g != 0 ==> (f | flag) & g != 0) by (bit_vector);
            }
        }
    }

    /// A record is valid when magic and version match, present payloads have
    /// a size, and nothing is verified that is not present.
    pub open spec fn spec_is_valid(&self) -> bool {
        &&& self.magic == NOVA_VERIFICATION_MAGIC
        &&& self.version == 1
        &&& (!self.spec_has_flag(0x1) || self.stage1_image_size != 0)
        &&& (!self.spec_has_flag(0x4) || self.kernel_image_size != 0)
        &&& (!self.spec_has_flag(0x2) || self.spec_has_flag(0x1))
        &&& (!self.spec_has_flag(0x8) || self.spec_has_flag(0x4))
        &&& (!self.spec_has_flag(0x20) || self.spec_has_flag(0x10))
    }

    pub fn is_valid(&self) -> (r: bool)
        ensures
            r == self.spec_is_valid(),
    {
        self.magic == NOVA_VERIFICATION_MAGIC && self.version == 1 && (!self.has_flag(0x1)
            || self.stage1_image_size != 0) && (!self.has_flag(0x4) || self.kernel_image_size
            != 0) && (!self.has_flag(0x2) || self.has_flag(0x1)) && (!self.has_flag(0x8)
            || self.has_flag(0x4)) && (!self.has_flag(0x20) || self.has_flag(0x10))
    }

    pub fn stage1_payload_verified(&self) -> (r: bool)
        ensures
            r == self.spec_has_flag(0x2),
    {
        self.has_flag(0x2)
    }

    pub fn kernel_payload_verified(&self) -> (r: bool)
        ensures
            r == self.spec_has_flag(0x8),
    {
        self.has_flag(0x8)
    }

    pub fn kernel_digest_verified(&self) -> (r: bool)
        ensures
            r == self.spec_has_flag(0x20),
    {
        self.has_flag(0x20)
    }
}

} // verus!
