//! Read-only drive inventory records, as handed in by the platform's
//! device-enumeration collaborator, and lookup of a selected device.

use vstd::prelude::*;

verus! {

/// One partition of a physical drive.
#[derive(Debug, Clone)]
pub struct PartitionInfo {
    pub device: String,
    pub label: String,
    pub filesystem: String,
    pub size: u64,
    pub mount_point: Option<String>,
}

/// One physical drive, as enumerated by the platform.
#[derive(Debug, Clone)]
pub struct DriveInfo {
    pub device: String,
    pub name: String,
    pub size: u64,
    pub size_human: String,
    pub model: String,
    pub vendor: String,
    pub serial: String,
    pub is_removable: bool,
    pub is_usb: bool,
    pub mount_points: Vec<String>,
    pub partitions: Vec<PartitionInfo>,
    pub bus_type: String,
}

/// Resolve a device path against the enumerated drives: the first record
/// whose device path matches, or None when no drive has that path.
pub fn find_drive<'a>(drives: &'a Vec<DriveInfo>, device: &String) -> (r: Option<&'a DriveInfo>)
    ensures
        r is None <==> forall|i: int| 0 <= i < drives@.len() ==> drives@[i].device@ != device@,
        r matches Some(d) ==> exists|i: int|
            0 <= i < drives@.len() && drives@[i].device@ == device@ && *d == drives@[i],
{
    let n = drives.len();
    let mut i: usize = 0;
    while i < n
        invariant
            0 <= i <= n,
            n == drives@.len(),
            forall|j: int| 0 <= j < i ==> drives@[j].device@ != device@,
        decreases n - i,
    {
        if drives[i].device == *device {
            return Some(&drives[i]);
        }
        i = i + 1;
    }
    None
}

} // verus!
