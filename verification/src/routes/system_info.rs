use vstd::prelude::*;

verus! {

/// The processor that the service runs on.
#[derive(Debug, Clone)]
pub struct CPUInfo {
    pub name: String,
    pub brand: String,
    pub id: String,
}

/// The machine that the service runs on: processor, operating system
/// version, total memory in bytes and the names of the disks.
#[derive(Debug)]
pub struct SystemInfo {
    pub cpu_info: CPUInfo,
    pub os: String,
    pub ram_total: u64,
    pub disks: Vec<String>,
}

impl SystemInfo {
    /// A machine description made of the given parts.
    pub fn new(cpu_info: CPUInfo, os: String, ram_total: u64, disks: Vec<String>) -> (s:
        SystemInfo)
        ensures
            s.cpu_info == cpu_info,
            s.os == os,
            s.ram_total == ram_total,
            s.disks == disks,
    {
        SystemInfo { os, cpu_info, ram_total, disks }
    }
}

/// The text of an optional name, empty where there is none.
pub open spec fn name_or_empty(n: Option<String>) -> Seq<char> {
    match n {
        Some(s) => s@,
        None => Seq::empty(),
    }
}

/// Whether `s` describes the machine from the parts read of it: the given
/// processor and memory, the version text or the empty string, and one disk
/// entry per disk name, the name's text or the empty string.
pub open spec fn describes_machine(
    s: SystemInfo,
    cpu_info: CPUInfo,
    os: Option<String>,
    ram_total: u64,
    disk_names: Seq<Option<String>>,
) -> bool {
    &&& s.cpu_info == cpu_info
    &&& s.os@ == name_or_empty(os)
    &&& s.ram_total == ram_total
    &&& s.disks@.len() == disk_names.len()
    &&& forall|i: int|
        0 <= i < disk_names.len() ==> (#[trigger] s.disks@[i])@ == name_or_empty(disk_names[i])
}

/// Describes the machine from what was read of it: the first processor,
/// the operating system version if known, the total memory and the disk
/// names. An unknown version or a disk name that is not valid text becomes
/// the empty string.
pub fn system_info_from_parts(
    cpu_info: CPUInfo,
    os: Option<String>,
    ram_total: u64,
    disk_names: Vec<Option<String>>,
) -> (s: SystemInfo)
    ensures
        describes_machine(s, cpu_info, os, ram_total, disk_names@),
        s.cpu_info == cpu_info,
        s.os@ == name_or_empty(os),
        s.ram_total == ram_total,
        s.disks@.len() == disk_names@.len(),
        forall|i: int|
            0 <= i < disk_names@.len() ==> (#[trigger] s.disks@[i])@ == name_or_empty(
                disk_names@[i],
            ),
{
    let os_name = match os {
        Some(v) => v,
        None => String::new(),
    };
    let mut disks: Vec<String> = Vec::new();
    let n = disk_names.len();
    let mut i: usize = 0;
    while i < n
        invariant
            n == disk_names@.len(),
            i <= n,
            disks@.len() == i,
            forall|j: int| 0 <= j < i ==> (#[trigger] disks@[j])@ == name_or_empty(disk_names@[j]),
        decreases n - i,
    {
        let name = match &disk_names[i] {
            Some(v) => v.clone(),
            None => String::new(),
        };
        disks.push(name);
        i = i + 1;
    }
    SystemInfo::new(cpu_info, os_name, ram_total, disks)
}

/// Known names are kept whole, whatever their length: the version and each
/// disk name come through as they were read, and only a missing one becomes
/// the empty string; the processor and memory are passed on unchanged.
pub proof fn lemma_names_kept_whole(
    s: SystemInfo,
    cpu_info: CPUInfo,
    os: Option<String>,
    ram_total: u64,
    disk_names: Seq<Option<String>>,
)
    requires
        describes_machine(s, cpu_info, os, ram_total, disk_names),
    ensures
        s.cpu_info == cpu_info,
        s.ram_total == ram_total,
        os matches Some(v) ==> s.os@ == v@,
        os is None ==> s.os@.len() == 0,
        s.disks@.len() == disk_names.len(),
        forall|i: int|
            0 <= i < disk_names.len() ==> (disk_names[i] matches Some(d) ==> (
            #[trigger] s.disks@[i])@ == d@) && (disk_names[i] is None ==> s.disks@[i]@.len()
                == 0),
{
    assert forall|i: int| 0 <= i < disk_names.len() implies (disk_names[i] matches Some(d) ==> (
    #[trigger] s.disks@[i])@ == d@) && (disk_names[i] is None ==> s.disks@[i]@.len() == 0) by {
        assert(s.disks@[i]@ == name_or_empty(disk_names[i]));
    }
}

} // verus!
