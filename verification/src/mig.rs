//! The decisions of the probe for multi-instance partitioning. The probe
//! itself talks to the driver through raw handles, outside this library; what
//! it does next at each step is decided here.

use crate::text::{decimal, push_decimal};
use vstd::prelude::*;
use vstd::string::*;

verus! {

/// The major version in a driver version number, which holds it in the
/// thousands: 11040 is version 11.4.
pub open spec fn driver_major(cuda_driver_version: i32) -> int {
    if cuda_driver_version >= 0 {
        cuda_driver_version as int / 1000
    } else {
        -((-(cuda_driver_version as int)) / 1000)
    }
}

/// Whether a driver of this version is asked about partitions at all: only
/// from major version 11 on.
pub fn mig_check_applies(cuda_driver_version: i32) -> (applies: bool)
    ensures
        applies == (driver_major(cuda_driver_version) >= 11),
{
    cuda_driver_version / 1000 >= 11
}

/// Whether the handle that was asked about is a partition: the query must
/// have succeeded and its flag must be one. A query that the driver does not
/// support counts as no partition.
pub fn is_mig_partition(query_succeeded: bool, flag: u32) -> (partition: bool)
    ensures
        partition == (query_succeeded && flag == 1),
{
    query_succeeded && flag == 1
}

/// The suffix that a partitioned device adds to its line.
pub open spec fn mig_suffix(max_mig_device_count: u32) -> Seq<char> {
    " | max MiG count: "@ + decimal(max_mig_device_count as nat)
}

/// Appends the largest number of partitions to the line of a partitioned
/// device.
pub fn push_mig_suffix(line: &mut String, max_mig_device_count: u32)
    ensures
        final(line)@ == old(line)@ + mig_suffix(max_mig_device_count),
{
    line.append(" | max MiG count: ");
    push_decimal(line, max_mig_device_count as u64);
    assert(final(line)@ =~= old(line)@ + mig_suffix(max_mig_device_count));
}

/// What the probe found out about one device. The flag and the number of
/// partitions count only as far as the steps before them allowed the probe
/// to ask for them.
#[derive(Clone, Copy, Debug)]
pub struct MigProbe {
    pub cuda_driver_version: i32,
    pub query_succeeded: bool,
    pub flag: u32,
    pub max_mig_device_count: u32,
}

/// Whether a probe makes the line show the number of partitions: the probe
/// must have answered, the driver's major version must be 11 or more, and
/// the handle that was asked about must be a partition.
pub open spec fn shows_mig_count(probe: Option<MigProbe>) -> bool {
    match probe {
        Some(p) => driver_major(p.cuda_driver_version) >= 11 && p.query_succeeded && p.flag == 1,
        None => false,
    }
}

/// Ends the line of a device with what its probe found: the number of
/// partitions where the probe shows one, and nothing where it does not or
/// where the probe could not be made at all.
pub fn push_mig_report(line: &mut String, probe: Option<MigProbe>)
    ensures
        shows_mig_count(probe) ==> final(line)@ == old(line)@ + mig_suffix(
            probe->Some_0.max_mig_device_count,
        ),
        !shows_mig_count(probe) ==> final(line)@ == old(line)@,
{
    match probe {
        Some(p) => {
            if mig_check_applies(p.cuda_driver_version) && is_mig_partition(
                p.query_succeeded,
                p.flag,
            ) {
                push_mig_suffix(line, p.max_mig_device_count);
            }
        },
        None => {},
    }
}

} // verus!
