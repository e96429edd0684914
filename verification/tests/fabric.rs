use novaos::fabric::{
    AccelSeedV1, AccelTopologyHint, AccelTransport, CpuArchitecture, FabricCapabilityFlags, MemoryPoolKind,
    MemoryTopologyClass, PlatformClass, QueueClass, ACCEL_SEED_V1_SIZE,
};

#[test]
fn accel_seed_layout_is_stable() {
    assert_eq!(ACCEL_SEED_V1_SIZE, 136);
}

#[test]
fn fabric_enums_match_portability_plan() {
    assert_eq!(CpuArchitecture::Arm64.as_raw(), 1);
    assert_eq!(CpuArchitecture::X86_64.as_raw(), 2);
    assert_eq!(PlatformClass::SparkUma.as_raw(), 1);
    assert_eq!(PlatformClass::FabricPartitioned.as_raw(), 4);
    assert_eq!(AccelTransport::Pci.as_raw(), 3);
    assert_eq!(AccelTopologyHint::Partitionable.as_raw(), 3);
    assert_eq!(MemoryTopologyClass::Mig.as_raw(), 4);
    assert_eq!(MemoryPoolKind::GpuLocal.as_raw(), 4);
    assert_eq!(QueueClass::Copy.as_raw(), 3);
}

#[test]
fn accel_seed_requires_non_unknown_transport_and_topology() {
    let seed = AccelSeedV1::empty();
    assert!(!seed.platform_ready());

    let mut seed = AccelSeedV1::empty();
    seed.transport = AccelTransport::Integrated;
    seed.topology_hint = AccelTopologyHint::Uma;
    assert!(seed.platform_ready());

    let mut half = AccelSeedV1::empty();
    half.transport = AccelTransport::Pci;
    assert!(!half.platform_ready());
}

#[test]
fn capability_flags_cover_fabric_contract_baseline() {
    let caps = FabricCapabilityFlags::integrated_accel()
        .union(FabricCapabilityFlags::uma_coherent())
        .union(FabricCapabilityFlags::shared_va());

    assert!(caps.contains(FabricCapabilityFlags::integrated_accel()));
    assert!(caps.contains(FabricCapabilityFlags::uma_coherent()));
    assert!(!caps.contains(FabricCapabilityFlags::discrete_accel()));
    assert_eq!(caps.bits(), 0b100_0000_0101);
    assert_eq!(FabricCapabilityFlags::headless_only().bits(), 1 << 15);
}
