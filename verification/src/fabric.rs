//! The portable accelerator-fabric contract shared by the loader and kernel.
use vstd::prelude::*;

verus! {

/// Encoded size of [`AccelSeedV1`].
pub const ACCEL_SEED_V1_SIZE: usize = 136;

/// CPU architecture of the running system.
#[derive(Clone, Copy, Debug, PartialEq, Eq, Structural)]
pub enum CpuArchitecture {
    Unknown,
    Arm64,
    X86_64,
}

impl CpuArchitecture {
    pub open spec fn spec_raw(self) -> u16 {
        match self {
            CpuArchitecture::Unknown => 0,
            CpuArchitecture::Arm64 => 1,
            CpuArchitecture::X86_64 => 2,
        }
    }

    /// The ABI value.
    pub fn as_raw(self) -> (r: u16)
        ensures
            r == self.spec_raw(),
    {
        match self {
            CpuArchitecture::Unknown => 0,
            CpuArchitecture::Arm64 => 1,
            CpuArchitecture::X86_64 => 2,
        }
    }
}

/// Platform class of the machine.
#[derive(Clone, Copy, Debug, PartialEq, Eq, Structural)]
pub enum PlatformClass {
    Unknown,
    SparkUma,
    PcieSingle,
    PcieMulti,
    FabricPartitioned,
}

impl PlatformClass {
    pub open spec fn spec_raw(self) -> u16 {
        match self {
            PlatformClass::Unknown => 0,
            PlatformClass::SparkUma => 1,
            PlatformClass::PcieSingle => 2,
            PlatformClass::PcieMulti => 3,
            PlatformClass::FabricPartitioned => 4,
        }
    }

    /// The ABI value.
    pub fn as_raw(self) -> (r: u16)
        ensures
            r == self.spec_raw(),
    {
        match self {
            PlatformClass::Unknown => 0,
            PlatformClass::SparkUma => 1,
            PlatformClass::PcieSingle => 2,
            PlatformClass::PcieMulti => 3,
            PlatformClass::FabricPartitioned => 4,
        }
    }
}

/// Memory topology class of the machine.
#[derive(Clone, Copy, Debug, PartialEq, Eq, Structural)]
pub enum MemoryTopologyClass {
    Unknown,
    Uma,
    Discrete,
    Nvlink,
    Mig,
}

impl MemoryTopologyClass {
    pub open spec fn spec_raw(self) -> u16 {
        match self {
            MemoryTopologyClass::Unknown => 0,
            MemoryTopologyClass::Uma => 1,
            MemoryTopologyClass::Discrete => 2,
            MemoryTopologyClass::Nvlink => 3,
            MemoryTopologyClass::Mig => 4,
        }
    }

    /// The ABI value.
    pub fn as_raw(self) -> (r: u16)
        ensures
            r == self.spec_raw(),
    {
        match self {
            MemoryTopologyClass::Unknown => 0,
            MemoryTopologyClass::Uma => 1,
            MemoryTopologyClass::Discrete => 2,
            MemoryTopologyClass::Nvlink => 3,
            MemoryTopologyClass::Mig => 4,
        }
    }
}

/// How an accelerator is attached.
#[derive(Clone, Copy, Debug, PartialEq, Eq, Structural)]
pub enum AccelTransport {
    Unknown,
    Integrated,
    Platform,
    Pci,
    Fabric,
}

impl AccelTransport {
    pub open spec fn spec_raw(self) -> u16 {
        match self {
            AccelTransport::Unknown => 0,
            AccelTransport::Integrated => 1,
            AccelTransport::Platform => 2,
            AccelTransport::Pci => 3,
            AccelTransport::Fabric => 4,
        }
    }

    /// The ABI value.
    pub fn as_raw(self) -> (r: u16)
        ensures
            r == self.spec_raw(),
    {
        match self {
            AccelTransport::Unknown => 0,
            AccelTransport::Integrated => 1,
            AccelTransport::Platform => 2,
            AccelTransport::Pci => 3,
            AccelTransport::Fabric => 4,
        }
    }
}

/// Topology hint of an accelerator.
#[derive(Clone, Copy, Debug, PartialEq, Eq, Structural)]
pub enum AccelTopologyHint {
    Unknown,
    Uma,
    Discrete,
    Partitionable,
    Linked,
}

impl AccelTopologyHint {
    pub open spec fn spec_raw(self) -> u16 {
        match self {
            AccelTopologyHint::Unknown => 0,
            AccelTopologyHint::Uma => 1,
            AccelTopologyHint::Discrete => 2,
            AccelTopologyHint::Partitionable => 3,
            AccelTopologyHint::Linked => 4,
        }
    }

    /// The ABI value.
    pub fn as_raw(self) -> (r: u16)
        ensures
            r == self.spec_raw(),
    {
        match self {
            AccelTopologyHint::Unknown => 0,
            AccelTopologyHint::Uma => 1,
            AccelTopologyHint::Discrete => 2,
            AccelTopologyHint::Partitionable => 3,
            AccelTopologyHint::Linked => 4,
        }
    }
}

/// Kinds of memory pool the fabric exposes.
#[derive(Clone, Copy, Debug, PartialEq, Eq, Structural)]
pub enum MemoryPoolKind {
    SysCoherent,
    UmaAccelVisible,
    HostPinned,
    GpuLocal,
    PeerFabric,
    PartitionLocal,
    StagingIo,
}

impl MemoryPoolKind {
    pub open spec fn spec_raw(self) -> u16 {
        match self {
            MemoryPoolKind::SysCoherent => 1,
            MemoryPoolKind::UmaAccelVisible => 2,
            MemoryPoolKind::HostPinned => 3,
            MemoryPoolKind::GpuLocal => 4,
            MemoryPoolKind::PeerFabric => 5,
            MemoryPoolKind::PartitionLocal => 6,
            MemoryPoolKind::StagingIo => 7,
        }
    }

    /// The ABI value.
    pub fn as_raw(self) -> (r: u16)
        ensures
            r == self.spec_raw(),
    {
        match self {
            MemoryPoolKind::SysCoherent => 1,
            MemoryPoolKind::UmaAccelVisible => 2,
            MemoryPoolKind::HostPinned => 3,
            MemoryPoolKind::GpuLocal => 4,
            MemoryPoolKind::PeerFabric => 5,
            MemoryPoolKind::PartitionLocal => 6,
            MemoryPoolKind::StagingIo => 7,
        }
    }
}

/// Scheduling classes of accelerator queues.
#[derive(Clone, Copy, Debug, PartialEq, Eq, Structural)]
pub enum QueueClass {
    Latency,
    Batch,
    Copy,
    Maintenance,
    LowPriBackground,
}

impl QueueClass {
    pub open spec fn spec_raw(self) -> u16 {
        match self {
            QueueClass::Latency => 1,
            QueueClass::Batch => 2,
            QueueClass::Copy => 3,
            QueueClass::Maintenance => 4,
            QueueClass::LowPriBackground => 5,
        }
    }

    /// The ABI value.
    pub fn as_raw(self) -> (r: u16)
        ensures
            r == self.spec_raw(),
    {
        match self {
            QueueClass::Latency => 1,
            QueueClass::Batch => 2,
            QueueClass::Copy => 3,
            QueueClass::Maintenance => 4,
            QueueClass::LowPriBackground => 5,
        }
    }
}

/// A set of fabric capability bits.
#[derive(Clone, Copy, Debug, PartialEq, Eq, Structural)]
pub struct FabricCapabilityFlags {
    pub bits: u64,
}

impl FabricCapabilityFlags {
    pub fn integrated_accel() -> (r: FabricCapabilityFlags)
        ensures
            r.bits == 0x1u64,
    {
        FabricCapabilityFlags { bits: 0x1u64 }
    }
    pub fn discrete_accel() -> (r: FabricCapabilityFlags)
        ensures
            r.bits == 0x2u64,
    {
        FabricCapabilityFlags { bits: 0x2u64 }
    }
    pub fn uma_coherent() -> (r: FabricCapabilityFlags)
        ensures
            r.bits == 0x4u64,
    {
        FabricCapabilityFlags { bits: 0x4u64 }
    }
    pub fn local_device_memory() -> (r: FabricCapabilityFlags)
        ensures
            r.bits == 0x8u64,
    {
        FabricCapabilityFlags { bits: 0x8u64 }
    }
    pub fn pinned_host_memory() -> (r: FabricCapabilityFlags)
        ensures
            r.bits == 0x10u64,
    {
        FabricCapabilityFlags { bits: 0x10u64 }
    }
    pub fn peer_to_peer_link() -> (r: FabricCapabilityFlags)
        ensures
            r.bits == 0x20u64,
    {
        FabricCapabilityFlags { bits: 0x20u64 }
    }
    pub fn partitioning() -> (r: FabricCapabilityFlags)
        ensures
            r.bits == 0x40u64,
    {
        FabricCapabilityFlags { bits: 0x40u64 }
    }
    pub fn mig_style_partitions() -> (r: FabricCapabilityFlags)
        ensures
            r.bits == 0x80u64,
    {
        FabricCapabilityFlags { bits: 0x80u64 }
    }
    pub fn copy_engines() -> (r: FabricCapabilityFlags)
        ensures
            r.bits == 0x100u64,
    {
        FabricCapabilityFlags { bits: 0x100u64 }
    }
    pub fn preemption_levels() -> (r: FabricCapabilityFlags)
        ensures
            r.bits == 0x200u64,
    {
        FabricCapabilityFlags { bits: 0x200u64 }
    }
    pub fn shared_va() -> (r: FabricCapabilityFlags)
        ensures
            r.bits == 0x400u64,
    {
        FabricCapabilityFlags { bits: 0x400u64 }
    }
    pub fn bar_access() -> (r: FabricCapabilityFlags)
        ensures
            r.bits == 0x800u64,
    {
        FabricCapabilityFlags { bits: 0x800u64 }
    }
    pub fn dma_to_accel() -> (r: FabricCapabilityFlags)
        ensures
            r.bits == 0x1000u64,
    {
        FabricCapabilityFlags { bits: 0x1000u64 }
    }
    pub fn accel_to_dma() -> (r: FabricCapabilityFlags)
        ensures
            r.bits == 0x2000u64,
    {
        FabricCapabilityFlags { bits: 0x2000u64 }
    }
    pub fn display_capable() -> (r: FabricCapabilityFlags)
        ensures
            r.bits == 0x4000u64,
    {
        FabricCapabilityFlags { bits: 0x4000u64 }
    }
    pub fn headless_only() -> (r: FabricCapabilityFlags)
        ensures
            r.bits == 0x8000u64,
    {
        FabricCapabilityFlags { bits: 0x8000u64 }
    }

    /// The flags present in either set.
    pub fn union(self, other: FabricCapabilityFlags) -> (r: FabricCapabilityFlags)
        ensures
            r.bits == self.bits | other.bits,
    {
        FabricCapabilityFlags { bits: self.bits | other.bits }
    }

    /// Whether every flag of `other` is set.
    pub fn contains(self, other: FabricCapabilityFlags) -> (r: bool)
        ensures
            r == (self.bits & other.bits == other.bits),
    {
        self.bits & other.bits == other.bits
    }

    pub fn bits(self) -> (r: u64)
        ensures
            r == self.bits,
    {
        self.bits
    }
}

/// One MMIO window of an accelerator seed.
#[derive(Clone, Copy, Debug, PartialEq, Eq, Structural)]
pub struct AccelMmioWindowV1 {
    pub base: u64,
    pub len: u64,
    pub flags: u32,
    pub reserved0: u32,
}

impl AccelMmioWindowV1 {
    pub fn empty() -> (r: Self)
        ensures
            r.base == 0 && r.len == 0 && r.flags == 0 && r.reserved0 == 0,
    {
        AccelMmioWindowV1 { base: 0, len: 0, flags: 0, reserved0: 0 }
    }
}

/// A loader-discovered accelerator seed.
#[derive(Clone, Copy, Debug, PartialEq, Eq)]
pub struct AccelSeedV1 {
    pub vendor_id: u16,
    pub device_id: u16,
    pub class_code: u32,
    pub transport: AccelTransport,
    pub topology_hint: AccelTopologyHint,
    pub memory_topology: MemoryTopologyClass,
    pub mmio_window_count: u8,
    pub interrupt_hint: u8,
    pub reserved0: u16,
    pub raw_table_ptr: u64,
    pub raw_table_len: u32,
    pub reserved1: u32,
    pub mmio_windows: [AccelMmioWindowV1; 4],
}

impl AccelSeedV1 {
    pub open spec fn spec_is_empty_seed(&self) -> bool {
        &&& self.vendor_id == 0
        &&& self.device_id == 0
        &&& self.class_code == 0
        &&& self.transport == AccelTransport::Unknown
        &&& self.topology_hint == AccelTopologyHint::Unknown
        &&& self.memory_topology == MemoryTopologyClass::Unknown
        &&& self.mmio_window_count == 0
        &&& self.interrupt_hint == 0
        &&& self.reserved0 == 0
        &&& self.raw_table_ptr == 0
        &&& self.raw_table_len == 0
        &&& self.reserved1 == 0
        &&& forall|i: int| 0 <= i < 4 ==> #[trigger] self.mmio_windows@[i] == AccelMmioWindowV1 { base: 0, len: 0, flags: 0, reserved0: 0 }
    }

    /// A seed with every field zero or unknown.
    pub fn empty() -> (r: Self)
        ensures
            r.spec_is_empty_seed(),
    {
        let w = AccelMmioWindowV1::empty();
        AccelSeedV1 {
            vendor_id: 0,
            device_id: 0,
            class_code: 0,
            transport: AccelTransport::Unknown,
            topology_hint: AccelTopologyHint::Unknown,
            memory_topology: MemoryTopologyClass::Unknown,
            mmio_window_count: 0,
            interrupt_hint: 0,
            reserved0: 0,
            raw_table_ptr: 0,
            raw_table_len: 0,
            reserved1: 0,
            mmio_windows: [w, w, w, w],
        }
    }

    pub open spec fn spec_platform_ready(&self) -> bool {
        self.transport != AccelTransport::Unknown && self.topology_hint != AccelTopologyHint::Unknown
    }

    /// A seed is platform-ready once its transport and topology are known.
    pub fn platform_ready(&self) -> (r: bool)
        ensures
            r == self.spec_platform_ready(),
    {
        self.transport != AccelTransport::Unknown && self.topology_hint != AccelTopologyHint::Unknown
    }
}

} // verus!
