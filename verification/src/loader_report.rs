//! The loader's text reports: the structured hand-over report it leaves on
//! the boot volume and the summary it prints.
use vstd::prelude::*;
use crate::loader::{LoaderPlan, PayloadRegion};
use crate::text::{
    bool_text, decimal_text, line, prefixed_hex_text, push_bool_line, push_decimal, push_decimal_line, push_hex,
    push_hex_line, push_text_line,
};

verus! {

/// The report lines of one staged region: whether it is present and, if it
/// is, its path, base and length.
pub open spec fn region_report_lines(label: Seq<char>, region: Option<PayloadRegion>) -> Seq<char> {
    label + line(".present"@, bool_text(region is Some)) + match region {
        Some(r) => label + line(".path"@, r.path@) + label + line(".base"@, prefixed_hex_text(r.base as nat)) + label
            + line(".len"@, decimal_text(r.len as nat)),
        None => Seq::empty(),
    }
}

/// The summary line of one staged region.
pub open spec fn region_summary_line(label: Seq<char>, region: Option<PayloadRegion>) -> Seq<char> {
    match region {
        Some(r) => label + "=true path="@ + r.path@ + " base="@ + prefixed_hex_text(r.base as nat) + " len="@
            + decimal_text(r.len as nat) + "\n"@,
        None => label + "=false\n"@,
    }
}

fn emit_report_region(report: &mut String, label: &str, region: Option<PayloadRegion>)
    ensures
        final(report)@ == old(report)@ + region_report_lines(label@, region),
{
    report.append(label);
    push_bool_line(report, ".present", region.is_some());
    if let Some(r) = region {
        report.append(label);
        push_text_line(report, ".path", r.path);
        report.append(label);
        push_hex_line(report, ".base", r.base);
        report.append(label);
        push_decimal_line(report, ".len", r.len as u64);
    }
    assert(final(report)@ =~= old(report)@ + region_report_lines(label@, region));
}

fn describe_region(report: &mut String, label: &str, region: Option<PayloadRegion>)
    ensures
        final(report)@ == old(report)@ + region_summary_line(label@, region),
{
    report.append(label);
    match region {
        Some(r) => {
            report.append("=true path=");
            report.append(r.path);
            report.append(" base=");
            push_hex(report, r.base);
            report.append(" len=");
            push_decimal(report, r.len as u64);
            report.append("\n");
        },
        None => {
            report.append("=false\n");
        },
    }
    assert(final(report)@ =~= old(report)@ + region_summary_line(label@, region));
}

/// The region lines of every staged region, in the report's order.
pub open spec fn plan_region_report_lines(p: LoaderPlan) -> Seq<char> {
    region_report_lines("boot_info_v2"@, p.boot_info_v2) + region_report_lines("display_path_v2"@, p.display_path_v2)
        + region_report_lines("storage_seeds_v2"@, p.storage_seeds_v2) + region_report_lines(
        "network_seeds_v2"@,
        p.network_seeds_v2,
    ) + region_report_lines("accel_seed_v2"@, p.accel_seed_v2) + region_report_lines(
        "kernel_image_digest"@,
        p.kernel_image_digest,
    ) + region_report_lines("verification_info"@, p.verification_info) + region_report_lines(
        "memory_map"@,
        p.memory_map,
    ) + region_report_lines("stage1_plan"@, p.stage1_plan) + region_report_lines("stage1_image"@, p.stage1_image)
        + region_report_lines("kernel_image"@, p.kernel_image) + region_report_lines("init_capsule"@, p.init_capsule)
        + region_report_lines("loader_log"@, p.loader_log)
}

/// The summary lines of every staged region, in the summary's order.
pub open spec fn plan_region_summary_lines(p: LoaderPlan) -> Seq<char> {
    region_summary_line("boot_info_v2"@, p.boot_info_v2) + region_summary_line("display_path_v2"@, p.display_path_v2)
        + region_summary_line("storage_seeds_v2"@, p.storage_seeds_v2) + region_summary_line(
        "network_seeds_v2"@,
        p.network_seeds_v2,
    ) + region_summary_line("accel_seed_v2"@, p.accel_seed_v2) + region_summary_line(
        "kernel_image_digest"@,
        p.kernel_image_digest,
    ) + region_summary_line("verification_info"@, p.verification_info) + region_summary_line(
        "memory_map"@,
        p.memory_map,
    ) + region_summary_line("stage1_plan"@, p.stage1_plan) + region_summary_line("stage1_image"@, p.stage1_image)
        + region_summary_line("kernel_image"@, p.kernel_image) + region_summary_line("init_capsule"@, p.init_capsule)
        + region_summary_line("loader_log"@, p.loader_log)
}

/// The boot-record lines of the hand-over report.
pub open spec fn plan_record_report_lines(p: LoaderPlan, stage1_plan_ready: bool) -> Seq<char> {
    let v1 = p.boot_info;
    let v2 = p.boot_info_v2_draft;
    line("report_kind"@, "novaaa64_loader_handoff_report"@) + line("report_version"@, "1"@) + line(
        "stage1_plan_ready"@,
        bool_text(stage1_plan_ready),
    ) + line("boot_info_valid"@, bool_text(v1.spec_is_valid())) + line(
        "boot_info_magic"@,
        prefixed_hex_text(v1.magic as nat),
    ) + line("boot_info_version"@, decimal_text(v1.version as nat)) + line(
        "flags"@,
        prefixed_hex_text(v1.flags as nat),
    ) + line("boot_info_v2_valid"@, bool_text(v2.spec_is_valid())) + line(
        "boot_info_v2_cpu_arch"@,
        decimal_text(v2.cpu_arch.spec_raw() as nat),
    ) + line("boot_info_v2_platform_class"@, decimal_text(v2.platform_class.spec_raw() as nat)) + line(
        "boot_info_v2_memory_topology"@,
        decimal_text(v2.memory_topology_class.spec_raw() as nat),
    ) + line("boot_info_v2_display_path_len"@, decimal_text(v2.display_path.device_path_len as nat)) + line(
        "boot_info_v2_storage_seed_count"@,
        decimal_text(v2.storage_seed_count as nat),
    ) + line("boot_info_v2_network_seed_count"@, decimal_text(v2.network_seed_count as nat)) + line(
        "boot_info_v2_accel_seed_count"@,
        decimal_text(v2.accel_seed_count as nat),
    ) + line("boot_info_v2_bootstrap_payload_present"@, bool_text(!v2.bootstrap_payload.spec_is_empty())) + line(
        "boot_info_v2_bootstrap_payload_size"@,
        decimal_text(v2.bootstrap_payload.image_len as nat),
    ) + line(
        "boot_info_v2_bootstrap_user_window_present"@,
        bool_text(!v2.bootstrap_user_window.spec_is_empty()),
    ) + line("boot_info_v2_bootstrap_user_window_base"@, prefixed_hex_text(v2.bootstrap_user_window.base as nat))
        + line("boot_info_v2_bootstrap_user_window_size"@, decimal_text(v2.bootstrap_user_window.len as nat)) + line(
        "boot_info_v2_bootstrap_user_stack_size"@,
        decimal_text(v2.bootstrap_user_window.stack_size as nat),
    )
}

/// The firmware and framebuffer lines of the hand-over report.
pub open spec fn plan_firmware_report_lines(p: LoaderPlan) -> Seq<char> {
    let v1 = p.boot_info;
    line("firmware_revision"@, decimal_text(v1.firmware_revision as nat)) + line(
        "secure_boot_state"@,
        decimal_text(v1.secure_boot_state as nat),
    ) + line("boot_source"@, decimal_text(v1.boot_source.spec_raw() as nat)) + line(
        "current_el"@,
        decimal_text(v1.current_el as nat),
    ) + line("config_table_count"@, decimal_text(v1.config_table_count as nat)) + line(
        "memory_map_entries"@,
        decimal_text(v1.memory_map_entries as nat),
    ) + line("memory_map_desc_size"@, decimal_text(v1.memory_map_desc_size as nat)) + line(
        "acpi_rsdp_ptr"@,
        prefixed_hex_text(v1.acpi_rsdp_ptr as nat),
    ) + line("dtb_ptr"@, prefixed_hex_text(v1.dtb_ptr as nat)) + line(
        "smbios_ptr"@,
        prefixed_hex_text(v1.smbios_ptr as nat),
    ) + line("framebuffer_present"@, bool_text(v1.framebuffer_width != 0 && v1.framebuffer_height != 0)) + line(
        "framebuffer_base"@,
        prefixed_hex_text(v1.framebuffer_base as nat),
    ) + line("framebuffer_width"@, decimal_text(v1.framebuffer_width as nat)) + line(
        "framebuffer_height"@,
        decimal_text(v1.framebuffer_height as nat),
    ) + line("framebuffer_stride"@, decimal_text(v1.framebuffer_stride as nat)) + line(
        "framebuffer_format"@,
        decimal_text(v1.framebuffer_format.spec_raw() as nat),
    )
}

/// The whole hand-over report.
pub open spec fn spec_handoff_report(p: LoaderPlan, stage1_plan_ready: bool) -> Seq<char> {
    plan_record_report_lines(p, stage1_plan_ready) + plan_firmware_report_lines(p) + plan_region_report_lines(p)
}

/// The summary's boot-record lines.
pub open spec fn plan_summary_record_lines(p: LoaderPlan) -> Seq<char> {
    let v1 = p.boot_info;
    let v2 = p.boot_info_v2_draft;
    "NovaOS stage0 loader\n"@ + line("boot_info_magic"@, prefixed_hex_text(v1.magic as nat)) + line(
        "boot_info_version"@,
        decimal_text(v1.version as nat),
    ) + line("flags"@, prefixed_hex_text(v1.flags as nat)) + line(
        "boot_info_v2_magic"@,
        prefixed_hex_text(v2.magic as nat),
    ) + line("boot_info_v2_version"@, decimal_text(v2.version as nat)) + line(
        "boot_info_v2_valid"@,
        bool_text(v2.spec_is_valid()),
    ) + line("boot_info_v2_cpu_arch"@, decimal_text(v2.cpu_arch.spec_raw() as nat)) + line(
        "boot_info_v2_platform_class"@,
        decimal_text(v2.platform_class.spec_raw() as nat),
    ) + line("boot_info_v2_memory_topology"@, decimal_text(v2.memory_topology_class.spec_raw() as nat)) + line(
        "boot_info_v2_display_path_len"@,
        decimal_text(v2.display_path.device_path_len as nat),
    ) + line("boot_info_v2_storage_seed_count"@, decimal_text(v2.storage_seed_count as nat)) + line(
        "boot_info_v2_network_seed_count"@,
        decimal_text(v2.network_seed_count as nat),
    ) + line("boot_info_v2_accel_seed_count"@, decimal_text(v2.accel_seed_count as nat))
}

/// The summary's firmware and framebuffer lines.
pub open spec fn plan_summary_firmware_lines(p: LoaderPlan) -> Seq<char> {
    let v1 = p.boot_info;
    line("firmware_revision"@, decimal_text(v1.firmware_revision as nat)) + line(
        "secure_boot_state"@,
        decimal_text(v1.secure_boot_state as nat),
    ) + line("boot_source"@, decimal_text(v1.boot_source.spec_raw() as nat)) + line(
        "current_el"@,
        decimal_text(v1.current_el as nat),
    ) + line("config_table_count"@, decimal_text(v1.config_table_count as nat)) + line(
        "memory_map_entries"@,
        decimal_text(v1.memory_map_entries as nat),
    ) + line("memory_map_desc_size"@, decimal_text(v1.memory_map_desc_size as nat)) + line(
        "acpi_rsdp_ptr"@,
        prefixed_hex_text(v1.acpi_rsdp_ptr as nat),
    ) + line("dtb_ptr"@, prefixed_hex_text(v1.dtb_ptr as nat)) + line(
        "smbios_ptr"@,
        prefixed_hex_text(v1.smbios_ptr as nat),
    ) + line("framebuffer_base"@, prefixed_hex_text(v1.framebuffer_base as nat)) + "framebuffer="@ + decimal_text(
        v1.framebuffer_width as nat,
    ) + "x"@ + decimal_text(v1.framebuffer_height as nat) + " stride="@ + decimal_text(
        v1.framebuffer_stride as nat,
    ) + " format="@ + decimal_text(v1.framebuffer_format.spec_raw() as nat) + "\n"@
}

/// The whole summary.
pub open spec fn spec_plan_summary(p: LoaderPlan) -> Seq<char> {
    plan_summary_record_lines(p) + plan_summary_firmware_lines(p) + plan_region_summary_lines(p)
}

fn push_record_report_lines(report: &mut String, p: &LoaderPlan, stage1_plan_ready: bool)
    ensures
        final(report)@ == old(report)@ + plan_record_report_lines(*p, stage1_plan_ready),
{
    let v1 = &p.boot_info;
    let v2 = &p.boot_info_v2_draft;
    let mut s = String::new();
    push_text_line(&mut s, "report_kind", "novaaa64_loader_handoff_report");
    assert(s@ =~= line("report_kind"@, "novaaa64_loader_handoff_report"@));
    push_text_line(&mut s, "report_version", "1");
    push_bool_line(&mut s, "stage1_plan_ready", stage1_plan_ready);
    push_bool_line(&mut s, "boot_info_valid", v1.is_valid());
    push_hex_line(&mut s, "boot_info_magic", v1.magic);
    push_decimal_line(&mut s, "boot_info_version", v1.version as u64);
    push_hex_line(&mut s, "flags", v1.flags as u64);
    push_bool_line(&mut s, "boot_info_v2_valid", v2.is_valid());
    push_decimal_line(&mut s, "boot_info_v2_cpu_arch", v2.cpu_arch.as_raw() as u64);
    push_decimal_line(&mut s, "boot_info_v2_platform_class", v2.platform_class.as_raw() as u64);
    push_decimal_line(&mut s, "boot_info_v2_memory_topology", v2.memory_topology_class.as_raw() as u64);
    push_decimal_line(&mut s, "boot_info_v2_display_path_len", v2.display_path.device_path_len as u64);
    push_decimal_line(&mut s, "boot_info_v2_storage_seed_count", v2.storage_seed_count as u64);
    push_decimal_line(&mut s, "boot_info_v2_network_seed_count", v2.network_seed_count as u64);
    push_decimal_line(&mut s, "boot_info_v2_accel_seed_count", v2.accel_seed_count as u64);
    push_bool_line(&mut s, "boot_info_v2_bootstrap_payload_present", !v2.bootstrap_payload.is_empty());
    push_decimal_line(&mut s, "boot_info_v2_bootstrap_payload_size", v2.bootstrap_payload.image_len);
    push_bool_line(&mut s, "boot_info_v2_bootstrap_user_window_present", !v2.bootstrap_user_window.is_empty());
    push_hex_line(&mut s, "boot_info_v2_bootstrap_user_window_base", v2.bootstrap_user_window.base);
    push_decimal_line(&mut s, "boot_info_v2_bootstrap_user_window_size", v2.bootstrap_user_window.len);
    push_decimal_line(&mut s, "boot_info_v2_bootstrap_user_stack_size", v2.bootstrap_user_window.stack_size);
    report.append(s.as_str());
}

fn push_firmware_report_lines(report: &mut String, p: &LoaderPlan)
    ensures
        final(report)@ == old(report)@ + plan_firmware_report_lines(*p),
{
    let v1 = &p.boot_info;
    let mut s = String::new();
    push_decimal_line(&mut s, "firmware_revision", v1.firmware_revision as u64);
    assert(s@ =~= line("firmware_revision"@, decimal_text(v1.firmware_revision as nat)));
    push_decimal_line(&mut s, "secure_boot_state", v1.secure_boot_state as u64);
    push_decimal_line(&mut s, "boot_source", v1.boot_source.as_raw() as u64);
    push_decimal_line(&mut s, "current_el", v1.current_el as u64);
    push_decimal_line(&mut s, "config_table_count", v1.config_table_count as u64);
    push_decimal_line(&mut s, "memory_map_entries", v1.memory_map_entries as u64);
    push_decimal_line(&mut s, "memory_map_desc_size", v1.memory_map_desc_size as u64);
    push_hex_line(&mut s, "acpi_rsdp_ptr", v1.acpi_rsdp_ptr);
    push_hex_line(&mut s, "dtb_ptr", v1.dtb_ptr);
    push_hex_line(&mut s, "smbios_ptr", v1.smbios_ptr);
    push_bool_line(&mut s, "framebuffer_present", v1.framebuffer_width != 0 && v1.framebuffer_height != 0);
    push_hex_line(&mut s, "framebuffer_base", v1.framebuffer_base);
    push_decimal_line(&mut s, "framebuffer_width", v1.framebuffer_width as u64);
    push_decimal_line(&mut s, "framebuffer_height", v1.framebuffer_height as u64);
    push_decimal_line(&mut s, "framebuffer_stride", v1.framebuffer_stride as u64);
    push_decimal_line(&mut s, "framebuffer_format", v1.framebuffer_format.as_raw() as u64);
    report.append(s.as_str());
}

fn push_region_report(report: &mut String, p: &LoaderPlan)
    ensures
        final(report)@ == old(report)@ + plan_region_report_lines(*p),
{
    let mut s = String::new();
    emit_report_region(&mut s, "boot_info_v2", p.boot_info_v2);
    assert(s@ =~= region_report_lines("boot_info_v2"@, p.boot_info_v2));
    emit_report_region(&mut s, "display_path_v2", p.display_path_v2);
    emit_report_region(&mut s, "storage_seeds_v2", p.storage_seeds_v2);
    emit_report_region(&mut s, "network_seeds_v2", p.network_seeds_v2);
    emit_report_region(&mut s, "accel_seed_v2", p.accel_seed_v2);
    emit_report_region(&mut s, "kernel_image_digest", p.kernel_image_digest);
    emit_report_region(&mut s, "verification_info", p.verification_info);
    emit_report_region(&mut s, "memory_map", p.memory_map);
    emit_report_region(&mut s, "stage1_plan", p.stage1_plan);
    emit_report_region(&mut s, "stage1_image", p.stage1_image);
    emit_report_region(&mut s, "kernel_image", p.kernel_image);
    emit_report_region(&mut s, "init_capsule", p.init_capsule);
    emit_report_region(&mut s, "loader_log", p.loader_log);
    report.append(s.as_str());
}

fn push_summary_record_lines(report: &mut String, p: &LoaderPlan)
    ensures
        final(report)@ == old(report)@ + plan_summary_record_lines(*p),
{
    let v1 = &p.boot_info;
    let v2 = &p.boot_info_v2_draft;
    let mut s = String::from_str("NovaOS stage0 loader\n");
    push_hex_line(&mut s, "boot_info_magic", v1.magic);
    push_decimal_line(&mut s, "boot_info_version", v1.version as u64);
    push_hex_line(&mut s, "flags", v1.flags as u64);
    push_hex_line(&mut s, "boot_info_v2_magic", v2.magic);
    push_decimal_line(&mut s, "boot_info_v2_version", v2.version as u64);
    push_bool_line(&mut s, "boot_info_v2_valid", v2.is_valid());
    push_decimal_line(&mut s, "boot_info_v2_cpu_arch", v2.cpu_arch.as_raw() as u64);
    push_decimal_line(&mut s, "boot_info_v2_platform_class", v2.platform_class.as_raw() as u64);
    push_decimal_line(&mut s, "boot_info_v2_memory_topology", v2.memory_topology_class.as_raw() as u64);
    push_decimal_line(&mut s, "boot_info_v2_display_path_len", v2.display_path.device_path_len as u64);
    push_decimal_line(&mut s, "boot_info_v2_storage_seed_count", v2.storage_seed_count as u64);
    push_decimal_line(&mut s, "boot_info_v2_network_seed_count", v2.network_seed_count as u64);
    push_decimal_line(&mut s, "boot_info_v2_accel_seed_count", v2.accel_seed_count as u64);
    report.append(s.as_str());
}

fn push_summary_firmware_lines(report: &mut String, p: &LoaderPlan)
    ensures
        final(report)@ == old(report)@ + plan_summary_firmware_lines(*p),
{
    let v1 = &p.boot_info;
    let mut s = String::new();
    push_decimal_line(&mut s, "firmware_revision", v1.firmware_revision as u64);
    assert(s@ =~= line("firmware_revision"@, decimal_text(v1.firmware_revision as nat)));
    push_decimal_line(&mut s, "secure_boot_state", v1.secure_boot_state as u64);
    push_decimal_line(&mut s, "boot_source", v1.boot_source.as_raw() as u64);
    push_decimal_line(&mut s, "current_el", v1.current_el as u64);
    push_decimal_line(&mut s, "config_table_count", v1.config_table_count as u64);
    push_decimal_line(&mut s, "memory_map_entries", v1.memory_map_entries as u64);
    push_decimal_line(&mut s, "memory_map_desc_size", v1.memory_map_desc_size as u64);
    push_hex_line(&mut s, "acpi_rsdp_ptr", v1.acpi_rsdp_ptr);
    push_hex_line(&mut s, "dtb_ptr", v1.dtb_ptr);
    push_hex_line(&mut s, "smbios_ptr", v1.smbios_ptr);
    push_hex_line(&mut s, "framebuffer_base", v1.framebuffer_base);
    s.append("framebuffer=");
    push_decimal(&mut s, v1.framebuffer_width as u64);
    s.append("x");
    push_decimal(&mut s, v1.framebuffer_height as u64);
    s.append(" stride=");
    push_decimal(&mut s, v1.framebuffer_stride as u64);
    s.append(" format=");
    push_decimal(&mut s, v1.framebuffer_format.as_raw() as u64);
    s.append("\n");
    report.append(s.as_str());
}

fn push_region_summary(report: &mut String, p: &LoaderPlan)
    ensures
        final(report)@ == old(report)@ + plan_region_summary_lines(*p),
{
    let mut s = String::new();
    describe_region(&mut s, "boot_info_v2", p.boot_info_v2);
    assert(s@ =~= region_summary_line("boot_info_v2"@, p.boot_info_v2));
    describe_region(&mut s, "display_path_v2", p.display_path_v2);
    describe_region(&mut s, "storage_seeds_v2", p.storage_seeds_v2);
    describe_region(&mut s, "network_seeds_v2", p.network_seeds_v2);
    describe_region(&mut s, "accel_seed_v2", p.accel_seed_v2);
    describe_region(&mut s, "kernel_image_digest", p.kernel_image_digest);
    describe_region(&mut s, "verification_info", p.verification_info);
    describe_region(&mut s, "memory_map", p.memory_map);
    describe_region(&mut s, "stage1_plan", p.stage1_plan);
    describe_region(&mut s, "stage1_image", p.stage1_image);
    describe_region(&mut s, "kernel_image", p.kernel_image);
    describe_region(&mut s, "init_capsule", p.init_capsule);
    describe_region(&mut s, "loader_log", p.loader_log);
    report.append(s.as_str());
}

/// The loader log's boot-record lines.
pub open spec fn loader_log_record_lines(p: LoaderPlan) -> Seq<char> {
    let v2 = p.boot_info_v2_draft;
    "NovaOS stage0 log\n"@ + line("flags"@, prefixed_hex_text(p.boot_info.flags as nat)) + line(
        "config_tables"@,
        decimal_text(p.boot_info.config_table_count as nat),
    ) + line("memory_map_entries"@, decimal_text(p.boot_info.memory_map_entries as nat)) + line(
        "bootinfo_v2_valid"@,
        bool_text(v2.spec_is_valid()),
    ) + line("bootinfo_v2_platform_class"@, decimal_text(v2.platform_class.spec_raw() as nat)) + line(
        "bootinfo_v2_memory_topology"@,
        decimal_text(v2.memory_topology_class.spec_raw() as nat),
    ) + line("bootinfo_v2_display_path"@, bool_text(v2.display_path.device_path_len != 0)) + line(
        "bootinfo_v2_storage_seeds"@,
        decimal_text(v2.storage_seed_count as nat),
    ) + line("bootinfo_v2_network_seeds"@, decimal_text(v2.network_seed_count as nat)) + line(
        "bootinfo_v2_accel_seeds"@,
        decimal_text(v2.accel_seed_count as nat),
    ) + line("bootinfo_v2_bootstrap_payload"@, bool_text(!v2.bootstrap_payload.spec_is_empty())) + line(
        "bootinfo_v2_bootstrap_payload_size"@,
        decimal_text(v2.bootstrap_payload.image_len as nat),
    ) + line("bootinfo_v2_bootstrap_user_window"@, bool_text(!v2.bootstrap_user_window.spec_is_empty())) + line(
        "bootinfo_v2_bootstrap_user_window_base"@,
        prefixed_hex_text(v2.bootstrap_user_window.base as nat),
    ) + line("bootinfo_v2_bootstrap_user_window_size"@, decimal_text(v2.bootstrap_user_window.len as nat)) + line(
        "bootinfo_v2_bootstrap_user_stack_size"@,
        decimal_text(v2.bootstrap_user_window.stack_size as nat),
    )
}

/// The loader log's staging lines.
pub open spec fn loader_log_staging_lines(p: LoaderPlan) -> Seq<char> {
    line("kernel_image_digest"@, bool_text(p.kernel_image_digest is Some)) + line(
        "verification_info"@,
        bool_text(p.verification_info is Some),
    ) + line("memory_map_storage"@, bool_text(p.memory_map is Some)) + line(
        "stage1_plan_storage"@,
        bool_text(p.stage1_plan is Some),
    ) + line("stage1"@, bool_text(p.stage1_image is Some)) + line("kernel"@, bool_text(p.kernel_image is Some))
        + line("init_capsule"@, bool_text(p.init_capsule is Some))
}

/// The whole loader log.
pub open spec fn spec_loader_log(p: LoaderPlan) -> Seq<char> {
    loader_log_record_lines(p) + loader_log_staging_lines(p)
}

fn push_loader_log_record_lines(log: &mut String, p: &LoaderPlan)
    ensures
        final(log)@ == old(log)@ + loader_log_record_lines(*p),
{
    let v2 = &p.boot_info_v2_draft;
    let mut s = String::from_str("NovaOS stage0 log\n");
    push_hex_line(&mut s, "flags", p.boot_info.flags as u64);
    push_decimal_line(&mut s, "config_tables", p.boot_info.config_table_count as u64);
    push_decimal_line(&mut s, "memory_map_entries", p.boot_info.memory_map_entries as u64);
    push_bool_line(&mut s, "bootinfo_v2_valid", v2.is_valid());
    push_decimal_line(&mut s, "bootinfo_v2_platform_class", v2.platform_class.as_raw() as u64);
    push_decimal_line(&mut s, "bootinfo_v2_memory_topology", v2.memory_topology_class.as_raw() as u64);
    push_bool_line(&mut s, "bootinfo_v2_display_path", v2.display_path.device_path_len != 0);
    push_decimal_line(&mut s, "bootinfo_v2_storage_seeds", v2.storage_seed_count as u64);
    push_decimal_line(&mut s, "bootinfo_v2_network_seeds", v2.network_seed_count as u64);
    push_decimal_line(&mut s, "bootinfo_v2_accel_seeds", v2.accel_seed_count as u64);
    push_bool_line(&mut s, "bootinfo_v2_bootstrap_payload", !v2.bootstrap_payload.is_empty());
    push_decimal_line(&mut s, "bootinfo_v2_bootstrap_payload_size", v2.bootstrap_payload.image_len);
    push_bool_line(&mut s, "bootinfo_v2_bootstrap_user_window", !v2.bootstrap_user_window.is_empty());
    push_hex_line(&mut s, "bootinfo_v2_bootstrap_user_window_base", v2.bootstrap_user_window.base);
    push_decimal_line(&mut s, "bootinfo_v2_bootstrap_user_window_size", v2.bootstrap_user_window.len);
    push_decimal_line(&mut s, "bootinfo_v2_bootstrap_user_stack_size", v2.bootstrap_user_window.stack_size);
    log.append(s.as_str());
}

/// The text log the loader leaves for the kernel: the flags, the BootInfo
/// v2 draft's shape, and which regions it staged.
pub fn build_loader_log(plan: &LoaderPlan) -> (r: String)
    ensures
        r@ == spec_loader_log(*plan),
{
    let mut log = String::new();
    push_loader_log_record_lines(&mut log, plan);
    let mut s = String::new();
    push_bool_line(&mut s, "kernel_image_digest", plan.kernel_image_digest.is_some());
    assert(s@ =~= line("kernel_image_digest"@, bool_text(plan.kernel_image_digest is Some)));
    push_bool_line(&mut s, "verification_info", plan.verification_info.is_some());
    push_bool_line(&mut s, "memory_map_storage", plan.memory_map.is_some());
    push_bool_line(&mut s, "stage1_plan_storage", plan.stage1_plan.is_some());
    push_bool_line(&mut s, "stage1", plan.stage1_image.is_some());
    push_bool_line(&mut s, "kernel", plan.kernel_image.is_some());
    push_bool_line(&mut s, "init_capsule", plan.init_capsule.is_some());
    log.append(s.as_str());
    assert(log@ =~= spec_loader_log(*plan));
    log
}

impl LoaderPlan {
    /// The structured hand-over report: one `key=value` line per boot-record
    /// field, then each staged region's presence, path, base and length.
    pub fn structured_handoff_report(&self, stage1_plan_ready: bool) -> (r: String)
        ensures
            r@ == spec_handoff_report(*self, stage1_plan_ready),
    {
        let mut report = String::new();
        push_record_report_lines(&mut report, self, stage1_plan_ready);
        push_firmware_report_lines(&mut report, self);
        push_region_report(&mut report, self);
        assert(report@ =~= spec_handoff_report(*self, stage1_plan_ready));
        report
    }

    /// The loader's printed summary of its plan.
    pub fn summary(&self) -> (r: String)
        ensures
            r@ == spec_plan_summary(*self),
    {
        let mut report = String::new();
        push_summary_record_lines(&mut report, self);
        push_summary_firmware_lines(&mut report, self);
        push_region_summary(&mut report, self);
        assert(report@ =~= spec_plan_summary(*self));
        report
    }
}

} // verus!
