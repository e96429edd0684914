use novaos::pci::{discovery_model, PciRootSeed};

#[test]
fn pci_root_seed_placeholder_is_stable() {
    let seed = PciRootSeed::new(0, 0, 255);
    assert_eq!(discovery_model(), "pci-root-seed-placeholder");
    assert_eq!(seed.segment_group, 0);
    assert_eq!(seed.bus_end, 255);
}
