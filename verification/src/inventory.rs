//! The host inventory: the OS, CPU and memory facts that a crash report
//! embeds. Collection is best-effort — a sub-query that yields nothing
//! degrades to a placeholder instead of failing — and the rendered text
//! is a pure function of the collected facts and the GPU block.

use vstd::prelude::*;
use crate::chars::string_from_chars;
use crate::digits::{spec_dec, u64_dec_chars};

verus! {

#[verifier::external_type_specification]
#[verifier::external_body]
pub struct ExSystem(sysinfo::System);

/// The raw host facts, as the introspection queries hand them over.
/// Absent options mark sub-queries that yielded nothing.
pub struct HostFacts {
    pub os_version: Option<String>,
    pub kernel_version: Option<String>,
    pub cpu_brands: Vec<String>,
    pub total_memory: u64,
    pub used_memory: u64,
}

/// Relies on `sysinfo::System::new_all`: builds a snapshot of the host
/// with every category of information loaded.
#[verifier::external_body]
fn sys_new_all() -> sysinfo::System {
    sysinfo::System::new_all()
}

/// Relies on `sysinfo::System::refresh_all`: brings every category of
/// the snapshot up to date.
#[verifier::external_body]
fn sys_refresh_all(s: &mut sysinfo::System) {
    s.refresh_all();
}

/// Relies on `sysinfo::System::long_os_version`: the host's OS name and
/// version, when the platform reports one.
#[verifier::external_body]
fn sys_long_os_version() -> Option<String> {
    sysinfo::System::long_os_version()
}

/// Relies on `sysinfo::System::kernel_version`: the host's kernel
/// version, when the platform reports one.
#[verifier::external_body]
fn sys_kernel_version() -> Option<String> {
    sysinfo::System::kernel_version()
}

/// Relies on `sysinfo::System::cpus`, handing each CPU out as its brand
/// string.
#[verifier::external_body]
fn sys_cpu_brands(s: &sysinfo::System) -> Vec<String> {
    s.cpus().iter().map(|c| c.brand().to_string()).collect()
}

/// Relies on `sysinfo::System::total_memory`: the RAM size in bytes.
#[verifier::external_body]
fn sys_total_memory(s: &sysinfo::System) -> u64 {
    s.total_memory()
}

/// Relies on `sysinfo::System::used_memory`: the used RAM in bytes.
#[verifier::external_body]
fn sys_used_memory(s: &sysinfo::System) -> u64 {
    s.used_memory()
}

/// Query the host. What comes back depends on the machine; the inventory
/// text is a pure function of it (see [`format_inventory`]), so querying
/// an unchanged host twice renders the same text.
pub fn query_host_facts() -> HostFacts {
    let mut sys = sys_new_all();
    sys_refresh_all(&mut sys);
    HostFacts {
        os_version: sys_long_os_version(),
        kernel_version: sys_kernel_version(),
        cpu_brands: sys_cpu_brands(&sys),
        total_memory: sys_total_memory(&sys),
        used_memory: sys_used_memory(&sys),
    }
}

/// A fact that its sub-query could not provide reads as this placeholder.
pub open spec fn spec_placeholder() -> Seq<char> {
    "Unknown"@
}

/// An optional fact, or the placeholder.
pub open spec fn spec_fact_or_placeholder(o: Option<String>) -> Seq<char> {
    match o {
        Some(s) => s@,
        None => spec_placeholder(),
    }
}

/// The first CPU's brand, or the placeholder when no CPU was listed.
pub open spec fn spec_cpu_model(brands: Seq<String>) -> Seq<char> {
    if brands.len() > 0 {
        brands[0]@
    } else {
        spec_placeholder()
    }
}

/// Bytes rendered as whole gibibytes, rounded down.
pub open spec fn spec_gb(bytes: u64) -> nat {
    (bytes as nat) / 0x40000000
}

/// The inventory text: OS line, CPU model and core count, the GPU block,
/// and the memory totals in GB. A pure function of the facts.
pub open spec fn spec_inventory(f: HostFacts, gpu_block: Seq<char>) -> Seq<char> {
    "Operating System: "@ + spec_fact_or_placeholder(f.os_version) + " "@
        + spec_fact_or_placeholder(f.kernel_version) + "\n"@ + "CPU Model: "@ + spec_cpu_model(
        f.cpu_brands@,
    ) + "\n"@ + "CPU Core Count: "@ + spec_dec(f.cpu_brands@.len()) + "\n"@
        + "GPU Information:\n"@ + gpu_block + "Total Memory: "@ + spec_dec(spec_gb(f.total_memory))
        + " GB\n"@ + "Used Memory: "@ + spec_dec(spec_gb(f.used_memory)) + " GB"@
}

/// Render the inventory text from the facts and the GPU block, exactly
/// per [`spec_inventory`].
pub fn format_inventory(f: &HostFacts, gpu_block: &str) -> (r: String)
    ensures
        r@ == spec_inventory(*f, gpu_block@),
{
    let mut out = String::from_str("Operating System: ");
    match &f.os_version {
        Some(s) => out.append(s.as_str()),
        None => out.append("Unknown"),
    }
    out.append(" ");
    match &f.kernel_version {
        Some(s) => out.append(s.as_str()),
        None => out.append("Unknown"),
    }
    out.append("\n");
    out.append("CPU Model: ");
    if f.cpu_brands.len() > 0 {
        out.append(f.cpu_brands[0].as_str());
    } else {
        out.append("Unknown");
    }
    out.append("\n");
    out.append("CPU Core Count: ");
    let cores = u64_dec_chars(f.cpu_brands.len() as u64);
    let cores_text = string_from_chars(&cores);
    out.append(cores_text.as_str());
    out.append("\n");
    out.append("GPU Information:\n");
    out.append(gpu_block);
    out.append("Total Memory: ");
    let total = u64_dec_chars(f.total_memory / 0x40000000);
    let total_text = string_from_chars(&total);
    out.append(total_text.as_str());
    out.append(" GB\n");
    out.append("Used Memory: ");
    let used = u64_dec_chars(f.used_memory / 0x40000000);
    let used_text = string_from_chars(&used);
    out.append(used_text.as_str());
    out.append(" GB");
    proof {
        assert(out@ =~= spec_inventory(*f, gpu_block@));
    }
    out
}

} // verus!
