//! Process names, resolved against a process table that was captured once.

use sysinfo::{PidExt, ProcessExt, SystemExt};
use vstd::prelude::*;

verus! {

/// `System` of sysinfo: a captured process table, carried through unopened.
#[verifier::external_type_specification]
#[verifier::external_body]
pub struct ExSystem(sysinfo::System);

/// The display names that a captured process table holds, by process
/// identifier. A table never changes after its capture, so one table gives
/// one map.
pub uninterp spec fn process_names(sys: sysinfo::System) -> Map<u32, Seq<char>>;

/// The display name of `pid` in `table`; empty where the table does not hold
/// the identifier.
pub open spec fn resolved_name(table: Map<u32, Seq<char>>, pid: u32) -> Seq<char> {
    if table.contains_key(pid) {
        table[pid]
    } else {
        Seq::empty()
    }
}

/// `System::new_all` of sysinfo: a table of the processes that run at the
/// moment of the call. Which processes those are is not stated.
#[verifier::external_body]
pub(crate) fn capture_process_table() -> (sys: sysinfo::System) {
    sysinfo::System::new_all()
}

/// `System::process` of sysinfo, then `Process::name`: the name under which
/// the table holds the process, or `None` where it holds no process with that
/// identifier. The contract says that this is the lookup in the table's map of
/// names.
#[verifier::external_body]
fn lookup_process(sys: &sysinfo::System, pid: u32) -> (found: Option<String>)
    ensures
        found is Some <==> process_names(*sys).contains_key(pid),
        found is Some ==> found->Some_0@ == process_names(*sys)[pid],
{
    sys.process(sysinfo::Pid::from_u32(pid)).map(|p| p.name().to_string())
}

/// The display name of the process `pid` in the captured table, or the empty
/// string where the table does not hold it.
pub fn get_process_name(sys: &sysinfo::System, pid: u32) -> (name: String)
    ensures
        name@ == resolved_name(process_names(*sys), pid),
{
    match lookup_process(sys, pid) {
        Some(name) => name,
        None => String::new(),
    }
}

} // verus!
