//! Queries against one device of the vendor's management interface. Each
//! field is read on its own: a query that fails gives its error as a value
//! and keeps no other query from being made.

use crate::process::{capture_process_table, process_names};
use crate::report::{
    amounts_are_known, format_gpu_stat, gpu_stat_of, report_line, temperature_of,
    ComputeCapability, GPUstat, MemoryUsage, ProcessUsage,
};
use nvml_wrapper::enum_wrappers::device::TemperatureSensor;
use nvml_wrapper::enums::device::UsedGpuMemory;
use nvml_wrapper::error::NvmlError;
use nvml_wrapper::{Device, Nvml};
use vstd::prelude::*;

verus! {

/// `Device` of nvml-wrapper: the handle of one device, carried through
/// unopened.
#[verifier::external_type_specification]
#[verifier::external_body]
pub struct ExDevice<'nvml>(Device<'nvml>);

/// `Nvml` of nvml-wrapper: the initialized management interface, carried
/// through unopened.
#[verifier::external_type_specification]
#[verifier::external_body]
pub struct ExNvml(Nvml);

/// `Device::name` of nvml-wrapper. What the driver answers is not stated.
#[verifier::external_body]
fn query_name(device: &Device) -> (name: Result<String, NvmlError>) {
    device.name()
}

/// `Device::index` of nvml-wrapper. What the driver answers is not stated.
#[verifier::external_body]
fn query_index(device: &Device) -> (index: Result<u32, NvmlError>) {
    device.index()
}

/// `Device::cuda_compute_capability` of nvml-wrapper, with the two numbers
/// moved into the library's own type. What the driver answers is not stated.
#[verifier::external_body]
fn query_compute_capability(device: &Device) -> (capability: Result<ComputeCapability, NvmlError>) {
    device.cuda_compute_capability().map(|c| ComputeCapability { major: c.major, minor: c.minor })
}

/// `Device::utilization_rates` of nvml-wrapper, of which the percentage of
/// the GPU is kept. What the driver answers is not stated.
#[verifier::external_body]
fn query_utilization(device: &Device) -> (percent: Result<u32, NvmlError>) {
    device.utilization_rates().map(|u| u.gpu)
}

/// `Device::memory_info` of nvml-wrapper, with the used and the installed
/// amount moved into the library's own type. What the driver answers is not
/// stated.
#[verifier::external_body]
fn query_memory(device: &Device) -> (memory: Result<MemoryUsage, NvmlError>) {
    device.memory_info().map(|m| MemoryUsage { used_bytes: m.used, total_bytes: m.total })
}

/// `Device::temperature` of nvml-wrapper for the sensor of the GPU die, in
/// degrees Celsius. What the driver answers is not stated.
#[verifier::external_body]
fn query_temperature(device: &Device) -> (celsius: Result<u32, NvmlError>) {
    device.temperature(TemperatureSensor::Gpu)
}

/// `Device::running_graphics_processes` of nvml-wrapper, with each entry
/// moved into the library's own type: an amount that the driver reports as
/// unavailable becomes `None`. nvml-wrapper makes every entry's amount from
/// the driver's number and turns the number of all ones into the unavailable
/// variant, so no amount that comes back is all ones. What else the driver
/// answers is not stated.
#[verifier::external_body]
fn query_graphics_processes(device: &Device) -> (processes: Result<Vec<ProcessUsage>, NvmlError>)
    ensures
        amounts_are_known(processes),
{
    let listed = device.running_graphics_processes()?;
    Ok(listed.into_iter().map(|p| ProcessUsage {
        pid: p.pid,
        used_gpu_memory_bytes: match p.used_gpu_memory {
            UsedGpuMemory::Used(bytes) => Some(bytes),
            UsedGpuMemory::Unavailable => None,
        },
    }).collect())
}

/// `Nvml::device_count` of nvml-wrapper. What the driver answers is not
/// stated.
#[verifier::external_body]
pub(crate) fn query_device_count(nvml: &Nvml) -> (count: Result<u32, NvmlError>) {
    nvml.device_count()
}

/// `Nvml::device_by_index` of nvml-wrapper: the handle of the device at
/// `index`, or the driver's error, which it also gives for an index that no
/// device has.
#[verifier::external_body]
pub(crate) fn query_device_by_index<'nvml>(nvml: &'nvml Nvml, index: u32) -> (device: Result<
    Device<'nvml>,
    NvmlError,
>) {
    nvml.device_by_index(index)
}

/// Reads the seven fields of `device`, each by a query of its own. A query
/// that fails leaves its error in its field and the other six are still made.
/// What each query gives is the driver's answer at that moment; of every
/// reading it holds that no amount of memory in use is the driver's sign for
/// an amount that it cannot give.
pub fn read_gpu_stat(device: &Device) -> (stat: GPUstat)
    ensures
        amounts_are_known(stat.running_graphics_processes),
{
    gpu_stat_of(
        query_name(device),
        query_index(device),
        query_compute_capability(device),
        query_utilization(device),
        query_memory(device),
        query_temperature(device),
        query_graphics_processes(device),
    )
}

/// The temperature of `device` in degrees Celsius, from a full reading of it.
pub fn get_gpu_temp(device: Device) -> (celsius: Result<u32, NvmlError>) {
    temperature_of(read_gpu_stat(&device))
}

/// The degrees of a temperature that was read, or `None` for one that was
/// not.
pub fn celsius_or_none(reading: Result<u32, NvmlError>) -> (celsius: Option<u32>)
    ensures
        celsius == (match reading {
            Ok(degrees) => Some(degrees),
            Err(_) => None::<u32>,
        }),
{
    match reading {
        Ok(degrees) => Some(degrees),
        Err(_) => None,
    }
}

/// The index of the device whose temperature the sampling loop publishes:
/// the first.
pub fn sampled_device_index() -> (index: u32)
    ensures
        index == 0,
{
    0
}

/// The temperature of the sampled device for one tick of the sampling loop:
/// `None` where the driver refuses the device's handle or its temperature.
pub fn sample_gpu_celsius(nvml: &Nvml) -> (celsius: Option<u32>) {
    match query_device_by_index(nvml, sampled_device_index()) {
        Ok(device) => celsius_or_none(get_gpu_temp(device)),
        Err(_) => None,
    }
}

/// Whether `line` is the report line of some reading and some process table.
pub open spec fn is_report_line(line: Seq<char>) -> bool {
    exists|stat: GPUstat, table: Map<u32, Seq<char>>| line == #[trigger] report_line(stat, table)
}

/// Reads `device`, captures the process table once, and renders the report
/// line of the reading, which the caller may print. Whatever the driver and
/// the process table gave, the result is the report line of it.
pub fn dump_gpu_stat(device: Device) -> (line: String)
    ensures
        is_report_line(line@),
{
    let stat = read_gpu_stat(&device);
    let sys = capture_process_table();
    let line = format_gpu_stat(&stat, &sys);
    assert(line@ == report_line(stat, process_names(sys)));
    line
}

} // verus!
