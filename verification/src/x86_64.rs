//! The x86-64 architecture's boot primitives, which are still a placeholder.
use vstd::prelude::*;

verus! {

/// What the x86-64 placeholder supports.
#[derive(Clone, Copy, Debug, PartialEq, Eq, Structural)]
pub struct X86_64ArchPlaceholder {
    pub supports_uefi: bool,
    pub supports_pci: bool,
}

impl X86_64ArchPlaceholder {
    /// UEFI and PCI, both supported.
    pub fn new() -> (r: Self)
        ensures
            r.supports_uefi && r.supports_pci,
    {
        X86_64ArchPlaceholder { supports_uefi: true, supports_pci: true }
    }
}

/// The architecture's name.
pub fn arch_name() -> (r: &'static str)
    ensures
        r@ == "x86_64-placeholder"@,
{
    "x86_64-placeholder"
}

} // verus!
