use sysinfo::{Pid, PidExt, ProcessExt, System, SystemExt};
use vstd::prelude::*;

verus! {

/// `sysinfo::System`, a snapshot of the machine; nothing inside it is
/// visible here.
#[verifier::external_type_specification]
#[verifier::external_body]
pub struct ExSystem(sysinfo::System);

/// The names of the processes that a `sysinfo::System` holds, by process
/// id: for each process in its process table, what `sysinfo::Process::name`
/// returns.
pub uninterp spec fn process_names(system: sysinfo::System) -> Map<u32, Seq<char>>;

/// `sysinfo::System::new_all`: a fresh snapshot of the system with its
/// processes loaded. What it holds depends on the machine at that moment, so
/// nothing is claimed of it.
#[verifier::external_body]
fn load_system() -> (system: System) {
    System::new_all()
}

/// `sysinfo::System::refresh_all`: reads the machine into the snapshot
/// again. Nothing is claimed of what the snapshot holds afterwards.
#[verifier::external_body]
fn reload_system(system: &mut System) {
    system.refresh_all();
}

/// `sysinfo::System::process` at `sysinfo::Pid::from_u32(pid)`, then
/// `sysinfo::Process::name`: the name stored in the snapshot for that process
/// id, or nothing where the snapshot has no such process.
#[verifier::external_body]
fn system_process_name(system: &System, pid: u32) -> (r: Option<String>)
    ensures
        match r {
            Some(name) => process_names(*system).contains_key(pid) && process_names(*system)[pid]
                == name@,
            None => !process_names(*system).contains_key(pid),
        },
{
    match system.process(Pid::from_u32(pid)) {
        Some(process) => Some(process.name().to_string()),
        None => None,
    }
}

/// A point-in-time listing of the system's processes. It is never refreshed:
/// take a new one for a new look.
pub struct ProcessInventory {
    system: System,
}

impl ProcessInventory {
    /// Process names by process id, as the snapshot holds them.
    pub closed spec fn names(self) -> Map<u32, Seq<char>> {
        process_names(self.system)
    }

    /// Takes a snapshot now.
    pub fn refresh() -> (r: Self) {
        let mut system = load_system();
        reload_system(&mut system);
        ProcessInventory { system }
    }

    /// The name of the process with the given id, if the snapshot has it.
    pub fn lookup(&self, pid: u32) -> (r: Option<String>)
        ensures
            match r {
                Some(name) => self.names().contains_key(pid) && self.names()[pid] == name@,
                None => !self.names().contains_key(pid),
            },
    {
        system_process_name(&self.system, pid)
    }
}

} // verus!
