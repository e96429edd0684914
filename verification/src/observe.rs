//! The Spark observatory's model of what firmware showed at boot, the seed
//! bookkeeping it does while it looks, and the reports it writes.
use vstd::prelude::*;
use crate::bootinfo::NovaBootInfoV1;
use crate::firmware::ConfigTableScan;
use crate::fabric::{AccelSeedV1, AccelTopologyHint, AccelTransport, MemoryTopologyClass};
use crate::text::{
    bool_text, decimal_text, line, prefixed_hex_text, push_bool_line, push_decimal, push_decimal_line, push_hex,
    push_hex_line, push_text_line,
};

verus! {

/// Which firmware facts were seen at all.
#[derive(Clone, Copy, Debug, Default, PartialEq, Eq, Structural)]
pub struct BootObservationFlags {
    pub secure_boot_known: bool,
    pub acpi_rsdp_present: bool,
    pub dtb_present: bool,
    pub smbios_present: bool,
    pub framebuffer_present: bool,
}

/// Where the firmware's configuration tables were found.
#[derive(Clone, Copy, Debug, Default, PartialEq, Eq, Structural)]
pub struct BootTablePresence {
    pub acpi_rsdp: Option<u64>,
    pub dtb: Option<u64>,
    pub smbios: Option<u64>,
}

/// The graphics output mode firmware reported.
#[derive(Clone, Copy, Debug, Default, PartialEq, Eq)]
pub struct FramebufferObservation {
    pub base: u64,
    pub width: u32,
    pub height: u32,
    pub stride: u32,
    pub pixel_format: &'static str,
}

/// A device path seen on one or more handles, with the flags of the handle
/// kinds it was seen on.
#[derive(Clone, Debug, PartialEq, Eq)]
pub struct SeedPathObservation {
    pub device_path: String,
    pub flags: u32,
}

/// A draft accelerator seed and where it came from.
#[derive(Clone, Debug, PartialEq, Eq)]
pub struct AccelSeedObservation {
    pub seed: AccelSeedV1,
    pub source: &'static str,
    pub raw_device_path: Option<String>,
}

/// Everything the observatory saw.
#[derive(Clone, Debug, PartialEq, Eq)]
pub struct BootObservation {
    pub firmware_vendor: Option<String>,
    pub firmware_revision: u32,
    pub secure_boot_enabled: Option<bool>,
    pub setup_mode: Option<u8>,
    pub flags: BootObservationFlags,
    pub table_presence: BootTablePresence,
    pub framebuffer: Option<FramebufferObservation>,
    pub config_table_count: usize,
    pub memory_map_entries: usize,
    pub memory_map_desc_size: usize,
    pub conventional_pages: u64,
    pub loaded_image_path: Option<String>,
    pub loaded_image_path_known: bool,
    pub storage_filesystem_handles: usize,
    pub storage_block_handles: usize,
    pub network_handles: usize,
    pub display_paths: Vec<SeedPathObservation>,
    pub storage_seeds: Vec<SeedPathObservation>,
    pub network_seeds: Vec<SeedPathObservation>,
    pub accel_seed_drafts: Vec<AccelSeedObservation>,
}

/// An observation in which nothing was seen.
pub open spec fn spec_is_unobserved(o: BootObservation) -> bool {
    &&& o.firmware_vendor is None
    &&& o.firmware_revision == 0
    &&& o.secure_boot_enabled is None
    &&& o.setup_mode is None
    &&& o.flags == BootObservationFlags {
        secure_boot_known: false,
        acpi_rsdp_present: false,
        dtb_present: false,
        smbios_present: false,
        framebuffer_present: false,
    }
    &&& o.table_presence == BootTablePresence { acpi_rsdp: None, dtb: None, smbios: None }
    &&& o.framebuffer is None
    &&& o.config_table_count == 0
    &&& o.memory_map_entries == 0
    &&& o.memory_map_desc_size == 0
    &&& o.conventional_pages == 0
    &&& o.loaded_image_path is None
    &&& !o.loaded_image_path_known
    &&& o.storage_filesystem_handles == 0
    &&& o.storage_block_handles == 0
    &&& o.network_handles == 0
    &&& o.display_paths@.len() == 0
    &&& o.storage_seeds@.len() == 0
    &&& o.network_seeds@.len() == 0
    &&& o.accel_seed_drafts@.len() == 0
}

impl Default for BootObservation {
    fn default() -> (r: Self)
        ensures
            spec_is_unobserved(r),
    {
        BootObservation {
            firmware_vendor: None,
            firmware_revision: 0,
            secure_boot_enabled: None,
            setup_mode: None,
            flags: BootObservationFlags {
                secure_boot_known: false,
                acpi_rsdp_present: false,
                dtb_present: false,
                smbios_present: false,
                framebuffer_present: false,
            },
            table_presence: BootTablePresence { acpi_rsdp: None, dtb: None, smbios: None },
            framebuffer: None,
            config_table_count: 0,
            memory_map_entries: 0,
            memory_map_desc_size: 0,
            conventional_pages: 0,
            loaded_image_path: None,
            loaded_image_path_known: false,
            storage_filesystem_handles: 0,
            storage_block_handles: 0,
            network_handles: 0,
            display_paths: Vec::new(),
            storage_seeds: Vec::new(),
            network_seeds: Vec::new(),
            accel_seed_drafts: Vec::new(),
        }
    }
}

// ---------------------------------------------------------------------------
// Seed bookkeeping
// ---------------------------------------------------------------------------

/// The first entry of `list` with device path `path`, if any.
pub open spec fn spec_first_path_index(list: Seq<SeedPathObservation>, path: Seq<char>) -> Option<int> {
    if exists|i: int| 0 <= i < list.len() && (#[trigger] list[i]).device_path@ == path {
        Some(
            choose|i: int|
                0 <= i < list.len() && (#[trigger] list[i]).device_path@ == path && forall|j: int|
                    0 <= j < i ==> (#[trigger] list[j]).device_path@ != path,
        )
    } else {
        None
    }
}

/// No two entries share a device path.
pub open spec fn spec_paths_unique(list: Seq<SeedPathObservation>) -> bool {
    forall|i: int, j: int|
        0 <= i < list.len() && 0 <= j < list.len() && i != j ==> (#[trigger] list[i]).device_path@ != (
        #[trigger] list[j]).device_path@
}

/// Records that `device_path` was seen on a handle of kind `flags`: an entry
/// with that path gains the flags; otherwise a new entry is appended.
pub fn merge_seed_path(list: &mut Vec<SeedPathObservation>, device_path: String, flags: u32)
    ensures
        match spec_first_path_index(old(list)@, device_path@) {
            Some(i) => {
                &&& final(list)@.len() == old(list)@.len()
                &&& final(list)@[i].device_path == old(list)@[i].device_path
                &&& final(list)@[i].flags == old(list)@[i].flags | flags
                &&& forall|j: int|
                    0 <= j < old(list)@.len() && j != i ==> #[trigger] final(list)@[j] == old(list)@[j]
            },
            None => final(list)@ == old(list)@.push(SeedPathObservation { device_path, flags }),
        },
        spec_paths_unique(old(list)@) ==> spec_paths_unique(final(list)@),
{
    let n = list.len();
    let mut i: usize = 0;
    while i < n
        invariant
            0 <= i <= n,
            n == list@.len(),
            list@ == old(list)@,
            forall|j: int| 0 <= j < i ==> (#[trigger] list@[j]).device_path@ != device_path@,
        decreases n - i,
    {
        if list[i].device_path == device_path {
            proof {
                let idx = i as int;
                assert(0 <= idx < list@.len() && list@[idx].device_path@ == device_path@);
                let c = choose|k: int|
                    0 <= k < list@.len() && (#[trigger] list@[k]).device_path@ == device_path@ && forall|j: int|
                        0 <= j < k ==> (#[trigger] list@[j]).device_path@ != device_path@;
                assert(c == idx) by {
                    if c < idx {
                        assert(list@[c].device_path@ != device_path@);
                    } else if c > idx {
                        assert(list@[idx].device_path@ != device_path@);
                    }
                }
            }
            let merged = list[i].flags | flags;
            list[i].flags = merged;
            return;
        }
        i = i + 1;
    }
    proof {
        assert(!exists|k: int| 0 <= k < list@.len() && (#[trigger] list@[k]).device_path@ == device_path@);
    }
    list.push(SeedPathObservation { device_path, flags });
}

/// A draft seed of the Spark lane: an integrated accelerator on unified
/// memory, with nothing else known.
pub open spec fn spec_spark_draft_seed(s: AccelSeedV1) -> bool {
    &&& s.transport == AccelTransport::Integrated
    &&& s.topology_hint == AccelTopologyHint::Uma
    &&& s.memory_topology == MemoryTopologyClass::Uma
    &&& (AccelSeedV1 {
        transport: AccelTransport::Unknown,
        topology_hint: AccelTopologyHint::Unknown,
        memory_topology: MemoryTopologyClass::Unknown,
        ..s
    }).spec_is_empty_seed()
}

/// The observatory's accelerator drafts: one Spark-lane seed, anchored on
/// the display when one was seen, carrying the first display path.
pub fn build_accel_seed_drafts(observation: &BootObservation) -> (r: Vec<AccelSeedObservation>)
    ensures
        r@.len() == 1,
        spec_spark_draft_seed(r@[0].seed),
        r@[0].source@ == (if observation.framebuffer is Some || observation.display_paths@.len() > 0 {
            "spark_gop_anchor"@
        } else {
            "spark_lane_draft"@
        }),
        r@[0].raw_device_path == (if observation.display_paths@.len() > 0 {
            Some(observation.display_paths@[0].device_path)
        } else {
            None
        }),
{
    let mut seeds: Vec<AccelSeedObservation> = Vec::new();
    let mut seed = AccelSeedV1::empty();
    seed.transport = AccelTransport::Integrated;
    seed.topology_hint = AccelTopologyHint::Uma;
    seed.memory_topology = MemoryTopologyClass::Uma;
    let source = if observation.framebuffer.is_some() || observation.display_paths.len() > 0 {
        "spark_gop_anchor"
    } else {
        "spark_lane_draft"
    };
    let raw_device_path = if observation.display_paths.len() > 0 {
        Some(observation.display_paths[0].device_path.clone())
    } else {
        None
    };
    seeds.push(AccelSeedObservation { seed, source, raw_device_path });
    proof {
        let s = seeds@[0].seed;
        assert((AccelSeedV1 {
            transport: AccelTransport::Unknown,
            topology_hint: AccelTopologyHint::Unknown,
            memory_topology: MemoryTopologyClass::Unknown,
            ..s
        }).mmio_windows == s.mmio_windows);
    }
    seeds
}

// ---------------------------------------------------------------------------
// Names
// ---------------------------------------------------------------------------

pub open spec fn spec_accel_transport_name(t: AccelTransport) -> Seq<char> {
    match t {
        AccelTransport::Unknown => "unknown"@,
        AccelTransport::Integrated => "integrated"@,
        AccelTransport::Platform => "platform"@,
        AccelTransport::Pci => "pci"@,
        AccelTransport::Fabric => "fabric"@,
    }
}

/// The report's name of an accelerator transport.
pub fn accel_transport_name(t: AccelTransport) -> (r: &'static str)
    ensures
        r@ == spec_accel_transport_name(t),
{
    match t {
        AccelTransport::Unknown => "unknown",
        AccelTransport::Integrated => "integrated",
        AccelTransport::Platform => "platform",
        AccelTransport::Pci => "pci",
        AccelTransport::Fabric => "fabric",
    }
}

pub open spec fn spec_accel_topology_name(t: AccelTopologyHint) -> Seq<char> {
    match t {
        AccelTopologyHint::Unknown => "unknown"@,
        AccelTopologyHint::Uma => "uma"@,
        AccelTopologyHint::Discrete => "discrete"@,
        AccelTopologyHint::Partitionable => "partitionable"@,
        AccelTopologyHint::Linked => "linked"@,
    }
}

/// The report's name of an accelerator topology hint.
pub fn accel_topology_name(t: AccelTopologyHint) -> (r: &'static str)
    ensures
        r@ == spec_accel_topology_name(t),
{
    match t {
        AccelTopologyHint::Unknown => "unknown",
        AccelTopologyHint::Uma => "uma",
        AccelTopologyHint::Discrete => "discrete",
        AccelTopologyHint::Partitionable => "partitionable",
        AccelTopologyHint::Linked => "linked",
    }
}

pub open spec fn spec_memory_topology_name(t: MemoryTopologyClass) -> Seq<char> {
    match t {
        MemoryTopologyClass::Unknown => "unknown"@,
        MemoryTopologyClass::Uma => "uma"@,
        MemoryTopologyClass::Discrete => "discrete"@,
        MemoryTopologyClass::Nvlink => "nvlink"@,
        MemoryTopologyClass::Mig => "mig"@,
    }
}

/// The report's name of a memory topology class.
pub fn memory_topology_name(t: MemoryTopologyClass) -> (r: &'static str)
    ensures
        r@ == spec_memory_topology_name(t),
{
    match t {
        MemoryTopologyClass::Unknown => "unknown",
        MemoryTopologyClass::Uma => "uma",
        MemoryTopologyClass::Discrete => "discrete",
        MemoryTopologyClass::Nvlink => "nvlink",
        MemoryTopologyClass::Mig => "mig",
    }
}

// ---------------------------------------------------------------------------
// Reports
// ---------------------------------------------------------------------------

/// A text value, or `fallback` when there is none.
pub open spec fn opt_string_text(v: Option<String>, fallback: Seq<char>) -> Seq<char> {
    match v {
        Some(s) => s@,
        None => fallback,
    }
}

/// A pointer in the alternate hex form, or `absent`.
pub open spec fn opt_pointer_text(v: Option<u64>) -> Seq<char> {
    match v {
        Some(p) => prefixed_hex_text(p as nat),
        None => "absent"@,
    }
}

/// `kind[index]`, the key prefix of one list entry.
pub open spec fn indexed_key(kind: Seq<char>, index: nat) -> Seq<char> {
    kind + "["@ + decimal_text(index) + "]"@
}

/// The two lines of one seed path entry.
pub open spec fn seed_entry_lines(kind: Seq<char>, index: nat, seed: SeedPathObservation) -> Seq<char> {
    indexed_key(kind, index) + line(".device_path"@, seed.device_path@) + indexed_key(kind, index) + line(
        ".flags"@,
        prefixed_hex_text(seed.flags as nat),
    )
}

/// The entry lines of the first `n` seeds.
pub open spec fn seed_entries(kind: Seq<char>, seeds: Seq<SeedPathObservation>, n: nat) -> Seq<char>
    decreases n,
{
    if n == 0 {
        Seq::empty()
    } else {
        seed_entries(kind, seeds, (n - 1) as nat) + seed_entry_lines(kind, (n - 1) as nat, seeds[n - 1])
    }
}

/// The count line and the entry lines of a list of seed paths.
pub open spec fn seed_path_lines(kind: Seq<char>, seeds: Seq<SeedPathObservation>) -> Seq<char> {
    kind + line("_count"@, decimal_text(seeds.len())) + seed_entries(kind, seeds, seeds.len())
}

/// The lines of one accelerator draft.
pub open spec fn accel_entry_lines(index: nat, a: AccelSeedObservation) -> Seq<char> {
    let k = indexed_key("accel_seed_draft"@, index);
    k + line(".source"@, a.source@) + k + line(".transport"@, spec_accel_transport_name(a.seed.transport)) + k
        + line(".topology_hint"@, spec_accel_topology_name(a.seed.topology_hint)) + k + line(
        ".memory_topology"@,
        spec_memory_topology_name(a.seed.memory_topology),
    ) + k + line(".platform_ready"@, bool_text(a.seed.spec_platform_ready())) + k + line(
        ".vendor_id"@,
        decimal_text(a.seed.vendor_id as nat),
    ) + k + line(".device_id"@, decimal_text(a.seed.device_id as nat)) + k + line(
        ".class_code"@,
        prefixed_hex_text(a.seed.class_code as nat),
    ) + k + line(".raw_device_path"@, opt_string_text(a.raw_device_path, "absent"@))
}

/// The entry lines of the first `n` accelerator drafts.
pub open spec fn accel_entries(seeds: Seq<AccelSeedObservation>, n: nat) -> Seq<char>
    decreases n,
{
    if n == 0 {
        Seq::empty()
    } else {
        accel_entries(seeds, (n - 1) as nat) + accel_entry_lines((n - 1) as nat, seeds[n - 1])
    }
}

/// The count line and the entry lines of the accelerator drafts.
pub open spec fn accel_draft_lines(seeds: Seq<AccelSeedObservation>) -> Seq<char> {
    line("accel_seed_draft_count"@, decimal_text(seeds.len())) + accel_entries(seeds, seeds.len())
}

/// The framebuffer lines of the structured report.
pub open spec fn framebuffer_report_lines(fb: Option<FramebufferObservation>) -> Seq<char> {
    match fb {
        Some(f) => line("framebuffer.base"@, prefixed_hex_text(f.base as nat)) + line(
            "framebuffer.width"@,
            decimal_text(f.width as nat),
        ) + line("framebuffer.height"@, decimal_text(f.height as nat)) + line(
            "framebuffer.stride"@,
            decimal_text(f.stride as nat),
        ) + line("framebuffer.format"@, f.pixel_format@),
        None => line("framebuffer"@, "absent"@),
    }
}

/// The firmware lines the structured report opens with.
pub open spec fn observation_head_lines(o: BootObservation) -> Seq<char> {
    line("report_kind"@, "spark_observatory_v2_seed_report"@) + line("report_version"@, "1"@) + line(
        "firmware_vendor"@,
        opt_string_text(o.firmware_vendor, "unknown"@),
    ) + line("firmware_revision"@, decimal_text(o.firmware_revision as nat)) + line(
        "config_tables"@,
        decimal_text(o.config_table_count as nat),
    ) + line("memory_map_entries"@, decimal_text(o.memory_map_entries as nat)) + line(
        "memory_map_desc_size"@,
        decimal_text(o.memory_map_desc_size as nat),
    ) + line("conventional_pages"@, decimal_text(o.conventional_pages as nat)) + line(
        "loaded_image_path"@,
        opt_string_text(o.loaded_image_path, "unknown"@),
    ) + line("loaded_image_path_known"@, bool_text(o.loaded_image_path_known)) + line(
        "storage_filesystem_handles"@,
        decimal_text(o.storage_filesystem_handles as nat),
    ) + line("storage_block_handles"@, decimal_text(o.storage_block_handles as nat)) + line(
        "network_handles"@,
        decimal_text(o.network_handles as nat),
    )
}

/// The secure-boot, table and framebuffer lines.
pub open spec fn observation_platform_lines(o: BootObservation) -> Seq<char> {
    line(
        "secure_boot_enabled"@,
        match o.secure_boot_enabled {
            Some(b) => bool_text(b),
            None => "unknown"@,
        },
    ) + line(
        "setup_mode"@,
        match o.setup_mode {
            Some(m) => decimal_text(m as nat),
            None => "unknown"@,
        },
    ) + line("acpi_rsdp"@, opt_pointer_text(o.table_presence.acpi_rsdp)) + line(
        "dtb"@,
        opt_pointer_text(o.table_presence.dtb),
    ) + line("smbios"@, opt_pointer_text(o.table_presence.smbios)) + framebuffer_report_lines(o.framebuffer)
}

/// The whole structured report.
pub open spec fn spec_structured_report(o: BootObservation) -> Seq<char> {
    observation_head_lines(o) + observation_platform_lines(o) + seed_path_lines("display_seed"@, o.display_paths@)
        + seed_path_lines("storage_seed"@, o.storage_seeds@) + seed_path_lines("network_seed"@, o.network_seeds@)
        + accel_draft_lines(o.accel_seed_drafts@)
}

/// The summary's lines.
pub open spec fn spec_summary_lines(o: BootObservation) -> Seq<char> {
    line("firmware_vendor"@, opt_string_text(o.firmware_vendor, "unknown"@)) + line(
        "firmware_revision"@,
        decimal_text(o.firmware_revision as nat),
    ) + line("config_tables"@, decimal_text(o.config_table_count as nat)) + line(
        "memory_map_entries"@,
        decimal_text(o.memory_map_entries as nat),
    ) + line("memory_map_desc_size"@, decimal_text(o.memory_map_desc_size as nat)) + line(
        "conventional_pages"@,
        decimal_text(o.conventional_pages as nat),
    ) + line("loaded_image_path_known"@, bool_text(o.loaded_image_path_known)) + line(
        "loaded_image_path"@,
        opt_string_text(o.loaded_image_path, "unknown"@),
    ) + line("storage_filesystem_handles"@, decimal_text(o.storage_filesystem_handles as nat)) + line(
        "storage_block_handles"@,
        decimal_text(o.storage_block_handles as nat),
    ) + line("network_handles"@, decimal_text(o.network_handles as nat)) + line(
        "display_seed_count"@,
        decimal_text(o.display_paths@.len()),
    ) + line("storage_seed_count"@, decimal_text(o.storage_seeds@.len())) + line(
        "network_seed_count"@,
        decimal_text(o.network_seeds@.len()),
    ) + line("accel_seed_draft_count"@, decimal_text(o.accel_seed_drafts@.len())) + summary_platform_lines(o)
}

/// The summary's secure-boot, table and framebuffer lines.
pub open spec fn summary_platform_lines(o: BootObservation) -> Seq<char> {
    line(
        "secure_boot_enabled"@,
        match o.secure_boot_enabled {
            Some(b) => bool_text(b),
            None => "unknown"@,
        },
    ) + line(
        "setup_mode"@,
        match o.setup_mode {
            Some(m) => decimal_text(m as nat),
            None => "unknown"@,
        },
    ) + line("acpi_rsdp"@, opt_pointer_text(o.table_presence.acpi_rsdp)) + line(
        "dtb"@,
        opt_pointer_text(o.table_presence.dtb),
    ) + line("smbios"@, opt_pointer_text(o.table_presence.smbios)) + match o.framebuffer {
        Some(f) => "framebuffer base="@ + prefixed_hex_text(f.base as nat) + " "@ + decimal_text(f.width as nat)
            + "x"@ + decimal_text(f.height as nat) + " stride="@ + decimal_text(f.stride as nat) + " format="@
            + f.pixel_format@ + "\n"@,
        None => line("framebuffer"@, "unavailable"@),
    }
}

fn push_opt_string_line(report: &mut String, key: &str, v: &Option<String>, fallback: &str)
    ensures
        final(report)@ == old(report)@ + line(key@, opt_string_text(*v, fallback@)),
{
    match v {
        Some(s) => push_text_line(report, key, s.as_str()),
        None => push_text_line(report, key, fallback),
    }
}

fn push_opt_pointer_line(report: &mut String, key: &str, v: Option<u64>)
    ensures
        final(report)@ == old(report)@ + line(key@, opt_pointer_text(v)),
{
    match v {
        Some(p) => push_hex_line(report, key, p),
        None => push_text_line(report, key, "absent"),
    }
}

fn push_secure_boot_and_setup_lines(report: &mut String, o: &BootObservation)
    ensures
        final(report)@ == old(report)@ + line(
            "secure_boot_enabled"@,
            match o.secure_boot_enabled {
                Some(b) => bool_text(b),
                None => "unknown"@,
            },
        ) + line(
            "setup_mode"@,
            match o.setup_mode {
                Some(m) => decimal_text(m as nat),
                None => "unknown"@,
            },
        ),
{
    match o.secure_boot_enabled {
        Some(b) => push_bool_line(report, "secure_boot_enabled", b),
        None => push_text_line(report, "secure_boot_enabled", "unknown"),
    }
    match o.setup_mode {
        Some(m) => push_decimal_line(report, "setup_mode", m as u64),
        None => push_text_line(report, "setup_mode", "unknown"),
    }
}

fn emit_seed_paths(report: &mut String, kind: &str, seeds: &Vec<SeedPathObservation>)
    ensures
        final(report)@ == old(report)@ + seed_path_lines(kind@, seeds@),
{
    report.append(kind);
    push_decimal_line(report, "_count", seeds.len() as u64);
    let ghost head = report@;
    let mut i: usize = 0;
    while i < seeds.len()
        invariant
            0 <= i <= seeds@.len(),
            report@ == head + seed_entries(kind@, seeds@, i as nat),
        decreases seeds@.len() - i,
    {
        let ghost before = report@;
        report.append(kind);
        report.append("[");
        push_decimal(report, i as u64);
        report.append("]");
        push_text_line(report, ".device_path", seeds[i].device_path.as_str());
        report.append(kind);
        report.append("[");
        push_decimal(report, i as u64);
        report.append("]");
        push_hex_line(report, ".flags", seeds[i].flags as u64);
        assert(report@ =~= before + seed_entry_lines(kind@, i as nat, seeds@[i as int]));
        assert(seed_entries(kind@, seeds@, (i + 1) as nat) == seed_entries(kind@, seeds@, i as nat)
            + seed_entry_lines(kind@, i as nat, seeds@[i as int]));
        i = i + 1;
    }
    assert(report@ =~= old(report)@ + seed_path_lines(kind@, seeds@));
}

fn push_indexed_key(report: &mut String, kind: &str, index: usize)
    ensures
        final(report)@ == old(report)@ + indexed_key(kind@, index as nat),
{
    report.append(kind);
    report.append("[");
    push_decimal(report, index as u64);
    report.append("]");
    assert(final(report)@ =~= old(report)@ + indexed_key(kind@, index as nat));
}

fn push_accel_entry_lines(report: &mut String, index: usize, a: &AccelSeedObservation)
    ensures
        final(report)@ == old(report)@ + accel_entry_lines(index as nat, *a),
{
    let ghost start = report@;
    let k = "accel_seed_draft";
    push_indexed_key(report, k, index);
    push_text_line(report, ".source", a.source);
    push_indexed_key(report, k, index);
    push_text_line(report, ".transport", accel_transport_name(a.seed.transport));
    push_indexed_key(report, k, index);
    push_text_line(report, ".topology_hint", accel_topology_name(a.seed.topology_hint));
    push_indexed_key(report, k, index);
    push_text_line(report, ".memory_topology", memory_topology_name(a.seed.memory_topology));
    push_indexed_key(report, k, index);
    push_bool_line(report, ".platform_ready", a.seed.platform_ready());
    push_indexed_key(report, k, index);
    push_decimal_line(report, ".vendor_id", a.seed.vendor_id as u64);
    push_indexed_key(report, k, index);
    push_decimal_line(report, ".device_id", a.seed.device_id as u64);
    push_indexed_key(report, k, index);
    push_hex_line(report, ".class_code", a.seed.class_code as u64);
    push_indexed_key(report, k, index);
    push_opt_string_line(report, ".raw_device_path", &a.raw_device_path, "absent");
    assert(report@ =~= start + accel_entry_lines(index as nat, *a));
}

fn emit_accel_seed_drafts(report: &mut String, seeds: &Vec<AccelSeedObservation>)
    ensures
        final(report)@ == old(report)@ + accel_draft_lines(seeds@),
{
    push_decimal_line(report, "accel_seed_draft_count", seeds.len() as u64);
    let ghost head = report@;
    let mut i: usize = 0;
    while i < seeds.len()
        invariant
            0 <= i <= seeds@.len(),
            report@ == head + accel_entries(seeds@, i as nat),
        decreases seeds@.len() - i,
    {
        push_accel_entry_lines(report, i, &seeds[i]);
        assert(accel_entries(seeds@, (i + 1) as nat) == accel_entries(seeds@, i as nat) + accel_entry_lines(
            i as nat,
            seeds@[i as int],
        ));
        assert(report@ =~= head + accel_entries(seeds@, (i + 1) as nat));
        i = i + 1;
    }
    assert(report@ =~= old(report)@ + accel_draft_lines(seeds@));
}

fn push_observation_head_lines(report: &mut String, o: &BootObservation)
    ensures
        final(report)@ == old(report)@ + observation_head_lines(*o),
{
    let mut s = String::new();
    push_text_line(&mut s, "report_kind", "spark_observatory_v2_seed_report");
    assert(s@ =~= line("report_kind"@, "spark_observatory_v2_seed_report"@));
    push_text_line(&mut s, "report_version", "1");
    push_opt_string_line(&mut s, "firmware_vendor", &o.firmware_vendor, "unknown");
    push_decimal_line(&mut s, "firmware_revision", o.firmware_revision as u64);
    push_decimal_line(&mut s, "config_tables", o.config_table_count as u64);
    push_decimal_line(&mut s, "memory_map_entries", o.memory_map_entries as u64);
    push_decimal_line(&mut s, "memory_map_desc_size", o.memory_map_desc_size as u64);
    push_decimal_line(&mut s, "conventional_pages", o.conventional_pages);
    push_opt_string_line(&mut s, "loaded_image_path", &o.loaded_image_path, "unknown");
    push_bool_line(&mut s, "loaded_image_path_known", o.loaded_image_path_known);
    push_decimal_line(&mut s, "storage_filesystem_handles", o.storage_filesystem_handles as u64);
    push_decimal_line(&mut s, "storage_block_handles", o.storage_block_handles as u64);
    push_decimal_line(&mut s, "network_handles", o.network_handles as u64);
    report.append(s.as_str());
}

fn push_framebuffer_report_lines(report: &mut String, fb: Option<FramebufferObservation>)
    ensures
        final(report)@ == old(report)@ + framebuffer_report_lines(fb),
{
    match fb {
        Some(f) => {
            let mut s = String::new();
            push_hex_line(&mut s, "framebuffer.base", f.base);
            assert(s@ =~= line("framebuffer.base"@, prefixed_hex_text(f.base as nat)));
            push_decimal_line(&mut s, "framebuffer.width", f.width as u64);
            push_decimal_line(&mut s, "framebuffer.height", f.height as u64);
            push_decimal_line(&mut s, "framebuffer.stride", f.stride as u64);
            push_text_line(&mut s, "framebuffer.format", f.pixel_format);
            report.append(s.as_str());
        },
        None => push_text_line(report, "framebuffer", "absent"),
    }
}

fn push_observation_platform_lines(report: &mut String, o: &BootObservation)
    ensures
        final(report)@ == old(report)@ + observation_platform_lines(*o),
{
    let mut s = String::new();
    push_secure_boot_and_setup_lines(&mut s, o);
    push_opt_pointer_line(&mut s, "acpi_rsdp", o.table_presence.acpi_rsdp);
    push_opt_pointer_line(&mut s, "dtb", o.table_presence.dtb);
    push_opt_pointer_line(&mut s, "smbios", o.table_presence.smbios);
    push_framebuffer_report_lines(&mut s, o.framebuffer);
    assert(s@ =~= observation_platform_lines(*o));
    report.append(s.as_str());
}

fn push_summary_platform_lines(report: &mut String, o: &BootObservation)
    ensures
        final(report)@ == old(report)@ + summary_platform_lines(*o),
{
    let mut s = String::new();
    push_secure_boot_and_setup_lines(&mut s, o);
    push_opt_pointer_line(&mut s, "acpi_rsdp", o.table_presence.acpi_rsdp);
    push_opt_pointer_line(&mut s, "dtb", o.table_presence.dtb);
    push_opt_pointer_line(&mut s, "smbios", o.table_presence.smbios);
    match o.framebuffer {
        Some(f) => {
            s.append("framebuffer base=");
            push_hex(&mut s, f.base);
            s.append(" ");
            push_decimal(&mut s, f.width as u64);
            s.append("x");
            push_decimal(&mut s, f.height as u64);
            s.append(" stride=");
            push_decimal(&mut s, f.stride as u64);
            s.append(" format=");
            s.append(f.pixel_format);
            s.append("\n");
        },
        None => push_text_line(&mut s, "framebuffer", "unavailable"),
    }
    assert(s@ =~= summary_platform_lines(*o));
    report.append(s.as_str());
}

/// Where a table was found, by the scan's flag for it.
pub open spec fn table_at(scan: ConfigTableScan, flag: u32, ptr: u64) -> Option<u64> {
    if scan.flags & flag != 0 { Some(ptr) } else { None }
}

/// The sum of `pages`.
pub open spec fn page_total(pages: Seq<u64>) -> int
    decreases pages.len(),
{
    if pages.len() == 0 { 0 } else { page_total(pages.drop_last()) + pages.last() }
}

/// The sum of `pages`, or `None` where it leaves `u64`.
pub fn checked_page_total(pages: &[u64]) -> (r: Option<u64>)
    ensures
        r == (if page_total(pages@) <= u64::MAX { Some(page_total(pages@) as u64) } else { None::<u64> }),
{
    let mut total: u64 = 0;
    let mut i: usize = 0;
    while i < pages.len()
        invariant
            0 <= i <= pages@.len(),
            total == page_total(pages@.take(i as int)),
        decreases pages@.len() - i,
    {
        assert(pages@.take(i as int + 1).drop_last() =~= pages@.take(i as int));
        if total > u64::MAX - pages[i] {
            proof {
                lemma_page_total_grows(pages@, i as int + 1);
            }
            return None;
        }
        total = total + pages[i];
        i = i + 1;
    }
    assert(pages@.take(i as int) =~= pages@);
    Some(total)
}

/// A total over more pages is no smaller.
proof fn lemma_page_total_grows(pages: Seq<u64>, k: int)
    requires
        0 <= k <= pages.len(),
    ensures
        page_total(pages.take(k)) <= page_total(pages),
    decreases pages.len() - k,
{
    if k < pages.len() {
        lemma_page_total_grows(pages, k + 1);
        assert(pages.take(k + 1).drop_last() =~= pages.take(k));
    } else {
        assert(pages.take(k) =~= pages);
    }
}

impl BootObservation {
    /// Records the firmware's configuration tables: how many there are, and
    /// where the scan found the ACPI RSDP, device tree and SMBIOS tables,
    /// each marked present exactly when it was found.
    pub fn record_config_tables(&mut self, count: usize, scan: ConfigTableScan)
        ensures
            ({
                let presence = BootTablePresence {
                    acpi_rsdp: table_at(scan, NovaBootInfoV1::FLAG_HAS_ACPI_RSDP, scan.acpi_rsdp_ptr),
                    dtb: table_at(scan, NovaBootInfoV1::FLAG_HAS_DTB, scan.dtb_ptr),
                    smbios: table_at(scan, NovaBootInfoV1::FLAG_HAS_SMBIOS, scan.smbios_ptr),
                };
                *final(self) == (BootObservation {
                    config_table_count: count,
                    table_presence: presence,
                    flags: BootObservationFlags {
                        acpi_rsdp_present: presence.acpi_rsdp is Some,
                        dtb_present: presence.dtb is Some,
                        smbios_present: presence.smbios is Some,
                        ..old(self).flags
                    },
                    ..*old(self)
                })
            }),
    {
        let acpi_rsdp = if scan.flags & NovaBootInfoV1::FLAG_HAS_ACPI_RSDP != 0 { Some(scan.acpi_rsdp_ptr) } else { None };
        let dtb = if scan.flags & NovaBootInfoV1::FLAG_HAS_DTB != 0 { Some(scan.dtb_ptr) } else { None };
        let smbios = if scan.flags & NovaBootInfoV1::FLAG_HAS_SMBIOS != 0 { Some(scan.smbios_ptr) } else { None };
        self.config_table_count = count;
        self.table_presence = BootTablePresence { acpi_rsdp, dtb, smbios };
        self.flags.acpi_rsdp_present = acpi_rsdp.is_some();
        self.flags.dtb_present = dtb.is_some();
        self.flags.smbios_present = smbios.is_some();
    }

    /// What firmware shows here: off firmware nothing is observed.
    pub fn collect() -> (r: Self)
        ensures
            spec_is_unobserved(r),
    {
        BootObservation::default()
    }

    /// The structured seed report: firmware facts, then the display,
    /// storage and network seed paths and the accelerator drafts.
    pub fn structured_report(&self) -> (r: String)
        ensures
            r@ == spec_structured_report(*self),
    {
        let mut report = String::new();
        push_observation_head_lines(&mut report, self);
        push_observation_platform_lines(&mut report, self);
        emit_seed_paths(&mut report, "display_seed", &self.display_paths);
        emit_seed_paths(&mut report, "storage_seed", &self.storage_seeds);
        emit_seed_paths(&mut report, "network_seed", &self.network_seeds);
        emit_accel_seed_drafts(&mut report, &self.accel_seed_drafts);
        assert(report@ =~= spec_structured_report(*self));
        report
    }

    /// The lines the observatory prints: the firmware facts and the seed
    /// counts.
    pub fn summary_lines(&self) -> (r: String)
        ensures
            r@ == spec_summary_lines(*self),
    {
        let mut s = String::new();
        push_opt_string_line(&mut s, "firmware_vendor", &self.firmware_vendor, "unknown");
        assert(s@ =~= line("firmware_vendor"@, opt_string_text(self.firmware_vendor, "unknown"@)));
        push_decimal_line(&mut s, "firmware_revision", self.firmware_revision as u64);
        push_decimal_line(&mut s, "config_tables", self.config_table_count as u64);
        push_decimal_line(&mut s, "memory_map_entries", self.memory_map_entries as u64);
        push_decimal_line(&mut s, "memory_map_desc_size", self.memory_map_desc_size as u64);
        push_decimal_line(&mut s, "conventional_pages", self.conventional_pages);
        push_bool_line(&mut s, "loaded_image_path_known", self.loaded_image_path_known);
        push_opt_string_line(&mut s, "loaded_image_path", &self.loaded_image_path, "unknown");
        push_decimal_line(&mut s, "storage_filesystem_handles", self.storage_filesystem_handles as u64);
        push_decimal_line(&mut s, "storage_block_handles", self.storage_block_handles as u64);
        push_decimal_line(&mut s, "network_handles", self.network_handles as u64);
        push_decimal_line(&mut s, "display_seed_count", self.display_paths.len() as u64);
        push_decimal_line(&mut s, "storage_seed_count", self.storage_seeds.len() as u64);
        push_decimal_line(&mut s, "network_seed_count", self.network_seeds.len() as u64);
        push_decimal_line(&mut s, "accel_seed_draft_count", self.accel_seed_drafts.len() as u64);
        push_summary_platform_lines(&mut s, self);
        s
    }
}

} // verus!
