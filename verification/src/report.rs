//! The best-effort report line of one device: each field that was read is
//! rendered in a fixed format and order, each field that failed is left out.

use crate::process::{get_process_name, process_names, resolved_name};
use crate::text::{
    decimal, left_aligned, push_decimal, push_left_aligned, push_right_aligned,
    push_signed_decimal, right_aligned, signed_decimal, decimal_width,
};
use nvml_wrapper::error::NvmlError;
use vstd::prelude::*;
use vstd::string::*;

verus! {

/// `NvmlError` of nvml-wrapper: the error of a query, carried through
/// unopened.
#[verifier::external_type_specification]
#[verifier::external_body]
pub struct ExNvmlError(NvmlError);

/// The compute capability of a device.
#[derive(Clone, Copy, Debug)]
pub struct ComputeCapability {
    pub major: i32,
    pub minor: i32,
}

/// Device memory in use and installed, in bytes.
#[derive(Clone, Copy, Debug)]
pub struct MemoryUsage {
    pub used_bytes: u64,
    pub total_bytes: u64,
}

/// One process that runs on a device. `used_gpu_memory_bytes` is `None` where
/// the driver reports the amount as unavailable, which is not the same as zero.
#[derive(Clone, Copy, Debug)]
pub struct ProcessUsage {
    pub pid: u32,
    pub used_gpu_memory_bytes: Option<u64>,
}

/// What one scan of one device gave: seven fields, each read on its own and
/// each either a value or the error of its query.
pub struct GPUstat {
    pub name: Result<String, NvmlError>,
    pub id: Result<u32, NvmlError>,
    pub compute_capability: Result<ComputeCapability, NvmlError>,
    pub utilization_rates: Result<u32, NvmlError>,
    pub memory_info: Result<MemoryUsage, NvmlError>,
    pub temperature: Result<u32, NvmlError>,
    pub running_graphics_processes: Result<Vec<ProcessUsage>, NvmlError>,
}

/// Whether every amount in a list that was read is a real amount. The driver
/// reports an amount of all ones in place of one that it cannot give, and
/// such a report becomes `None`, so no amount that was read is all ones.
pub open spec fn amounts_are_known(processes: Result<Vec<ProcessUsage>, NvmlError>) -> bool {
    processes is Ok ==> forall|i: int|
        0 <= i < processes->Ok_0@.len() ==> (#[trigger] processes->Ok_0@[i]).used_gpu_memory_bytes
            != Some(u64::MAX)
}

/// The reading that holds the answers of the seven queries, each in the
/// field of its own name, value or error, unchanged.
pub fn gpu_stat_of(
    name: Result<String, NvmlError>,
    id: Result<u32, NvmlError>,
    compute_capability: Result<ComputeCapability, NvmlError>,
    utilization_rates: Result<u32, NvmlError>,
    memory_info: Result<MemoryUsage, NvmlError>,
    temperature: Result<u32, NvmlError>,
    running_graphics_processes: Result<Vec<ProcessUsage>, NvmlError>,
) -> (stat: GPUstat)
    ensures
        stat.name == name,
        stat.id == id,
        stat.compute_capability == compute_capability,
        stat.utilization_rates == utilization_rates,
        stat.memory_info == memory_info,
        stat.temperature == temperature,
        stat.running_graphics_processes == running_graphics_processes,
{
    GPUstat {
        name,
        id,
        compute_capability,
        utilization_rates,
        memory_info,
        temperature,
        running_graphics_processes,
    }
}

/// The temperature of a reading: the answer of the temperature query, value
/// or error, whatever became of the other six.
pub fn temperature_of(stat: GPUstat) -> (celsius: Result<u32, NvmlError>)
    ensures
        celsius == stat.temperature,
{
    stat.temperature
}

/// A number of bytes in whole mebibytes, rounded down.
pub open spec fn mebibytes(bytes: u64) -> nat {
    (bytes as nat) / 1024 / 1024
}

/// The index field: `[N]: `.
pub open spec fn index_field(id: Result<u32, NvmlError>) -> Seq<char> {
    match id {
        Ok(n) => "["@ + decimal(n as nat) + "]: "@,
        Err(_) => Seq::empty(),
    }
}

/// The name field: the name, then ` | `.
pub open spec fn name_field(name: Result<String, NvmlError>) -> Seq<char> {
    match name {
        Ok(n) => n@ + " | "@,
        Err(_) => Seq::empty(),
    }
}

/// The compute capability field: major and minor number with nothing
/// between them, then ` | `.
pub open spec fn capability_field(capability: Result<ComputeCapability, NvmlError>) -> Seq<char> {
    match capability {
        Ok(c) => signed_decimal(c.major as int) + signed_decimal(c.minor as int) + " | "@,
        Err(_) => Seq::empty(),
    }
}

/// The utilization field: the percentage right-aligned in three columns,
/// then ` % | `.
pub open spec fn utilization_field(utilization: Result<u32, NvmlError>) -> Seq<char> {
    match utilization {
        Ok(u) => right_aligned(decimal(u as nat), 3) + " % | "@,
        Err(_) => Seq::empty(),
    }
}

/// The memory field: used and installed memory in mebibytes, both in columns
/// as wide as the numeral of the installed amount, the first right-aligned
/// and the second left-aligned, with ` / ` between them and ` MB | ` after.
pub open spec fn memory_field(memory: Result<MemoryUsage, NvmlError>) -> Seq<char> {
    match memory {
        Ok(m) => {
            let width = decimal(mebibytes(m.total_bytes)).len();
            right_aligned(decimal(mebibytes(m.used_bytes)), width) + " / "@ + left_aligned(
                decimal(mebibytes(m.total_bytes)),
                width,
            ) + " MB | "@
        },
        Err(_) => Seq::empty(),
    }
}

/// The temperature field: the degrees right-aligned in three columns, then
/// `°C | `.
pub open spec fn temperature_field(temperature: Result<u32, NvmlError>) -> Seq<char> {
    match temperature {
        Ok(t) => right_aligned(decimal(t as nat), 3) + "°C | "@,
        Err(_) => Seq::empty(),
    }
}

/// The memory that an entry shows for a process, in bytes: the amount in use,
/// or zero where the driver reports none.
pub open spec fn shown_bytes(process: ProcessUsage) -> u64 {
    match process.used_gpu_memory_bytes {
        Some(bytes) => bytes,
        None => 0,
    }
}

/// The entry of one process: its name in `table`, `: `, its memory in
/// mebibytes, `MB` and two spaces.
pub open spec fn process_entry(process: ProcessUsage, table: Map<u32, Seq<char>>) -> Seq<char> {
    resolved_name(table, process.pid) + ": "@ + decimal(mebibytes(shown_bytes(process)))
        + "MB  "@
}

/// The entries of `processes`, in their order, one after the other.
pub open spec fn process_entries(
    processes: Seq<ProcessUsage>,
    table: Map<u32, Seq<char>>,
) -> Seq<char>
    decreases processes.len(),
{
    if processes.len() == 0 {
        Seq::empty()
    } else {
        process_entries(processes.drop_last(), table) + process_entry(processes.last(), table)
    }
}

/// The entries of the processes that were read; nothing where the list could
/// not be read.
pub open spec fn listed_entries(
    processes: Result<Vec<ProcessUsage>, NvmlError>,
    table: Map<u32, Seq<char>>,
) -> Seq<char> {
    match processes {
        Ok(list) => process_entries(list@, table),
        Err(_) => Seq::empty(),
    }
}

/// The last part of the line: the entries of the processes, or a fixed
/// sentence where there is none to show.
pub open spec fn process_section(
    processes: Result<Vec<ProcessUsage>, NvmlError>,
    table: Map<u32, Seq<char>>,
) -> Seq<char> {
    let entries = listed_entries(processes, table);
    if entries.len() < 1 {
        "No running processes found"@
    } else {
        entries
    }
}

/// The report line of a device: index, name, compute capability, utilization,
/// memory, temperature and processes, in this order.
pub open spec fn report_line(stat: GPUstat, table: Map<u32, Seq<char>>) -> Seq<char> {
    index_field(stat.id) + name_field(stat.name) + capability_field(stat.compute_capability)
        + utilization_field(stat.utilization_rates) + memory_field(stat.memory_info)
        + temperature_field(stat.temperature) + process_section(
        stat.running_graphics_processes,
        table,
    )
}

/// Appends the index field.
pub fn push_index_field(out: &mut String, id: &Result<u32, NvmlError>)
    ensures
        final(out)@ == old(out)@ + index_field(*id),
{
    match id {
        Ok(n) => {
            out.append("[");
            push_decimal(out, *n as u64);
            out.append("]: ");
            assert(final(out)@ =~= old(out)@ + index_field(*id));
        },
        Err(_) => {
            assert(final(out)@ =~= old(out)@ + index_field(*id));
        },
    }
}

/// Appends the name field.
pub fn push_name_field(out: &mut String, name: &Result<String, NvmlError>)
    ensures
        final(out)@ == old(out)@ + name_field(*name),
{
    match name {
        Ok(n) => {
            out.append(n.as_str());
            out.append(" | ");
            assert(final(out)@ =~= old(out)@ + name_field(*name));
        },
        Err(_) => {
            assert(final(out)@ =~= old(out)@ + name_field(*name));
        },
    }
}

/// Appends the compute capability field.
pub fn push_capability_field(out: &mut String, capability: &Result<ComputeCapability, NvmlError>)
    ensures
        final(out)@ == old(out)@ + capability_field(*capability),
{
    match capability {
        Ok(c) => {
            push_signed_decimal(out, c.major);
            push_signed_decimal(out, c.minor);
            out.append(" | ");
            assert(final(out)@ =~= old(out)@ + capability_field(*capability));
        },
        Err(_) => {
            assert(final(out)@ =~= old(out)@ + capability_field(*capability));
        },
    }
}

/// Appends the utilization field.
pub fn push_utilization_field(out: &mut String, utilization: &Result<u32, NvmlError>)
    ensures
        final(out)@ == old(out)@ + utilization_field(*utilization),
{
    match utilization {
        Ok(u) => {
            push_right_aligned(out, *u as u64, 3);
            out.append(" % | ");
            assert(final(out)@ =~= old(out)@ + utilization_field(*utilization));
        },
        Err(_) => {
            assert(final(out)@ =~= old(out)@ + utilization_field(*utilization));
        },
    }
}

/// Appends the memory field.
pub fn push_memory_field(out: &mut String, memory: &Result<MemoryUsage, NvmlError>)
    ensures
        final(out)@ == old(out)@ + memory_field(*memory),
{
    match memory {
        Ok(m) => {
            let used: u64 = m.used_bytes / 1024 / 1024;
            let total: u64 = m.total_bytes / 1024 / 1024;
            let width: usize = decimal_width(total);
            push_right_aligned(out, used, width);
            out.append(" / ");
            push_left_aligned(out, total, width);
            out.append(" MB | ");
            assert(final(out)@ =~= old(out)@ + memory_field(*memory));
        },
        Err(_) => {
            assert(final(out)@ =~= old(out)@ + memory_field(*memory));
        },
    }
}

/// Appends the temperature field.
pub fn push_temperature_field(out: &mut String, temperature: &Result<u32, NvmlError>)
    ensures
        final(out)@ == old(out)@ + temperature_field(*temperature),
{
    match temperature {
        Ok(t) => {
            push_right_aligned(out, *t as u64, 3);
            out.append("°C | ");
            assert(final(out)@ =~= old(out)@ + temperature_field(*temperature));
        },
        Err(_) => {
            assert(final(out)@ =~= old(out)@ + temperature_field(*temperature));
        },
    }
}

/// Renders the entries of `processes`, with each name looked up in `sys`.
pub fn format_process_entries(processes: &Vec<ProcessUsage>, sys: &sysinfo::System) -> (entries:
    String)
    ensures
        entries@ == process_entries(processes@, process_names(*sys)),
{
    let mut entries = String::new();
    let mut i: usize = 0;
    while i < processes.len()
        invariant
            i <= processes@.len(),
            entries@ == process_entries(processes@.take(i as int), process_names(*sys)),
        decreases processes@.len() - i,
    {
        let process = processes[i];
        let name = get_process_name(sys, process.pid);
        let used: u64 = match process.used_gpu_memory_bytes {
            Some(bytes) => bytes,
            None => 0,
        };
        let ghost before = entries@;
        entries.append(name.as_str());
        entries.append(": ");
        push_decimal(&mut entries, used / 1024 / 1024);
        entries.append("MB  ");
        proof {
            let next = processes@.take(i + 1);
            assert(next.drop_last() =~= processes@.take(i as int));
            assert(next.last() == process);
            assert(entries@ =~= before + process_entry(process, process_names(*sys)));
        }
        i = i + 1;
    }
    proof {
        assert(processes@.take(i as int) =~= processes@);
    }
    entries
}

/// Appends the process section.
pub fn push_process_section(
    out: &mut String,
    processes: &Result<Vec<ProcessUsage>, NvmlError>,
    sys: &sysinfo::System,
)
    ensures
        final(out)@ == old(out)@ + process_section(*processes, process_names(*sys)),
{
    let entries = match processes {
        Ok(list) => format_process_entries(list, sys),
        Err(_) => String::new(),
    };
    if entries.as_str().unicode_len() < 1 {
        out.append("No running processes found");
    } else {
        out.append(entries.as_str());
    }
}

/// Renders the report line of `stat`, with the names of its processes looked
/// up in `sys`. Every field that was read appears in its fixed format and
/// place; a field that failed leaves nothing.
pub fn format_gpu_stat(stat: &GPUstat, sys: &sysinfo::System) -> (line: String)
    ensures
        line@ == report_line(*stat, process_names(*sys)),
{
    let mut line = String::new();
    push_index_field(&mut line, &stat.id);
    push_name_field(&mut line, &stat.name);
    push_capability_field(&mut line, &stat.compute_capability);
    push_utilization_field(&mut line, &stat.utilization_rates);
    push_memory_field(&mut line, &stat.memory_info);
    push_temperature_field(&mut line, &stat.temperature);
    push_process_section(&mut line, &stat.running_graphics_processes, sys);
    assert(line@ =~= report_line(*stat, process_names(*sys)));
    line
}

/// A reading of which every field failed still gives a line: the sentence
/// that stands for an empty process list, and nothing else.
pub proof fn lemma_line_of_failed_reading(stat: GPUstat, table: Map<u32, Seq<char>>)
    requires
        stat.name is Err,
        stat.id is Err,
        stat.compute_capability is Err,
        stat.utilization_rates is Err,
        stat.memory_info is Err,
        stat.temperature is Err,
        stat.running_graphics_processes is Err,
    ensures
        report_line(stat, table) == "No running processes found"@,
{
    assert(report_line(stat, table) =~= "No running processes found"@);
}

/// The entries of a list that is not empty are not empty, and they end with
/// the space that ends each entry.
pub proof fn lemma_entries_not_empty(processes: Seq<ProcessUsage>, table: Map<u32, Seq<char>>)
    requires
        processes.len() > 0,
    ensures
        process_entries(processes, table).len() >= 1,
        process_entries(processes, table).last() == ' ',
{
    reveal_strlit("MB  ");
}

/// The process section is the fixed sentence where the list is empty or could
/// not be read, and else the entries of the list, one for each process and in
/// the list's order; the sentence does not take their place.
pub proof fn lemma_process_section(
    processes: Result<Vec<ProcessUsage>, NvmlError>,
    table: Map<u32, Seq<char>>,
)
    ensures
        processes is Err ==> process_section(processes, table) == "No running processes found"@,
        processes is Ok && processes->Ok_0@.len() == 0 ==> process_section(processes, table)
            == "No running processes found"@,
        processes is Ok && processes->Ok_0@.len() > 0 ==> process_section(processes, table)
            == process_entries(processes->Ok_0@, table) && process_section(processes, table)
            != "No running processes found"@,
{
    if processes is Ok && processes->Ok_0@.len() > 0 {
        lemma_entries_not_empty(processes->Ok_0@, table);
        reveal_strlit("No running processes found");
        assert("No running processes found"@.last() == 'd');
    }
}

/// A process whose memory the driver reports as unavailable has an entry all
/// the same, and the entry shows `0MB`.
pub proof fn lemma_unavailable_memory_shows_zero(process: ProcessUsage, table: Map<u32, Seq<char>>)
    requires
        process.used_gpu_memory_bytes is None,
    ensures
        process_entry(process, table) == resolved_name(table, process.pid) + ": "@ + "0MB  "@,
{
    reveal_strlit("0MB  ");
    reveal_strlit("MB  ");
    assert(decimal(0) =~= seq!['0']);
    assert(process_entry(process, table) =~= resolved_name(table, process.pid) + ": "@
        + "0MB  "@);
}

} // verus!
