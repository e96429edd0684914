use novaos::x86_64::{arch_name, X86_64ArchPlaceholder};

#[test]
fn placeholder_arch_reports_expected_boot_primitives() {
    let placeholder = X86_64ArchPlaceholder::new();
    assert_eq!(arch_name(), "x86_64-placeholder");
    assert!(placeholder.supports_uefi);
    assert!(placeholder.supports_pci);
}
