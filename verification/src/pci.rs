//! The PCI root seed: where bus discovery starts.
use vstd::prelude::*;

verus! {

/// A PCI segment group and the bus range under its root.
#[derive(Clone, Copy, Debug, PartialEq, Eq, Structural)]
pub struct PciRootSeed {
    pub segment_group: u16,
    pub bus_start: u8,
    pub bus_end: u8,
}

impl PciRootSeed {
    /// The root of `segment_group` covering buses `bus_start..=bus_end`.
    pub fn new(segment_group: u16, bus_start: u8, bus_end: u8) -> (r: Self)
        ensures
            r == (PciRootSeed { segment_group, bus_start, bus_end }),
    {
        PciRootSeed { segment_group, bus_start, bus_end }
    }
}

/// The discovery model this bus driver implements.
pub fn discovery_model() -> (r: &'static str)
    ensures
        r@ == "pci-root-seed-placeholder"@,
{
    "pci-root-seed-placeholder"
}

} // verus!
