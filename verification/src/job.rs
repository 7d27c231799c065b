//! Jobs: operations that the service is carrying out.
use vstd::prelude::*;
use vstd::string::*;
use crate::catalog::{Catalog, Domain};
use crate::client::Client;

verus! {

/// The job interface of an object.
#[derive(Clone, Debug)]
pub struct Job {
    /// Path of the object that exposes the interface.
    pub path: String,
    /// The kind of operation, such as `filesystem-mount`.
    pub operation: String,
    /// Paths of the objects that the job works on.
    pub objects: Vec<String>,
}

impl Job {
    /// True when the two have the same properties, whatever object each is
    /// bound to.
    pub open spec fn same_properties(self, other: Job) -> bool {
        &&& self.operation == other.operation
        &&& self.objects == other.objects
    }
}

/// The words for a known kind of operation, as the source writes them.
pub open spec fn operation_label(operation: Seq<char>) -> Option<Seq<char>> {
    if operation == "ata-smart-selftest"@ {
        Some("SMART self-test"@)
    } else if operation == "drive-eject"@ {
        Some("Ejecting Medium"@)
    } else if operation == "encrypted-unlock"@ {
        Some("Unlocking Device"@)
    } else if operation == "encrypted-lock"@ {
        Some("Locking Device"@)
    } else if operation == "encrypted-modify"@ {
        Some("Modifying Encrypted Device"@)
    } else if operation == "encrypted-resize"@ {
        Some("Resizing Encrypted Device"@)
    } else if operation == "swapspace-start"@ {
        Some("Starting Swap Device"@)
    } else if operation == "swapspace-stop"@ {
        Some("Stopping Swap Device"@)
    } else if operation == "swapspace-modify"@ {
        Some("Modifying Swap Device"@)
    } else if operation == "filesystem-check"@ {
        Some("Checking Filesystem"@)
    } else if operation == "filesystem-mount"@ {
        Some("Mounting Filesystem"@)
    } else if operation == "filesystem-unmount"@ {
        Some("Unmounting Filesystem"@)
    } else if operation == "filesystem-modify"@ {
        Some("Modifying Filesystem"@)
    } else if operation == "filesystem-repair"@ {
        Some("Repairing Filesystem"@)
    } else if operation == "filesystem-resize"@ {
        Some("Resizing Filesystem"@)
    } else if operation == "format-erase"@ {
        Some("Erasing Device"@)
    } else if operation == "format-mkfs"@ {
        Some("Creating Filesystem"@)
    } else if operation == "loop-setup"@ {
        Some("Setting Up Loop Device"@)
    } else if operation == "partition-modify"@ {
        Some("Modifying Partition"@)
    } else if operation == "partition-delete"@ {
        Some("Deleting Partition"@)
    } else if operation == "partition-create"@ {
        Some("Creating Partition"@)
    } else if operation == "cleanup"@ {
        Some("Cleaning Up"@)
    } else if operation == "ata-secure-erase"@ {
        Some("ATA Secure Erase"@)
    } else if operation == "ata-enhanced-secure-erase"@ {
        Some("ATA Enhanced Secure Erase"@)
    } else if operation == "md-raid-stop"@ {
        Some("Stopping RAID Array"@)
    } else if operation == "md-raid-start"@ {
        Some("Starting RAID Array"@)
    } else if operation == "md-raid-fault-device"@ {
        Some("Marking Device as Faulty"@)
    } else if operation == "md-raid-remove-device"@ {
        Some("Removing Device from Array"@)
    } else if operation == "md-raid-add-device"@ {
        Some("Adding Device to Array"@)
    } else if operation == "md-raid-set-bitmap"@ {
        Some("Setting Write-Intent Bitmap"@)
    } else if operation == "md-raid-create"@ {
        Some("Creating RAID Array"@)
    } else {
        None
    }
}

/// What a job of the given kind of operation is described as: the catalog's
/// words for a known kind, and for any other the kind itself, marked as
/// unknown.
pub open spec fn job_description_text(catalog: Catalog, operation: Seq<char>) -> Seq<char> {
    match operation_label(operation) {
        Some(label) => catalog.text(Domain::Default, Some("job"@), label),
        None => catalog.filled(Some("unknown-job"@), "Unknown (%s)"@, seq![operation]),
    }
}

/// Returns the words for a known kind of operation.
pub fn label_of_operation(operation: &str) -> (r: Option<&'static str>)
    ensures
        match r {
            Some(label) => operation_label(operation@) == Some(label@),
            None => operation_label(operation@) is None,
        },
{
    if operation.eq("ata-smart-selftest") {
        Some("SMART self-test")
    } else if operation.eq("drive-eject") {
        Some("Ejecting Medium")
    } else if operation.eq("encrypted-unlock") {
        Some("Unlocking Device")
    } else if operation.eq("encrypted-lock") {
        Some("Locking Device")
    } else if operation.eq("encrypted-modify") {
        Some("Modifying Encrypted Device")
    } else if operation.eq("encrypted-resize") {
        Some("Resizing Encrypted Device")
    } else if operation.eq("swapspace-start") {
        Some("Starting Swap Device")
    } else if operation.eq("swapspace-stop") {
        Some("Stopping Swap Device")
    } else if operation.eq("swapspace-modify") {
        Some("Modifying Swap Device")
    } else if operation.eq("filesystem-check") {
        Some("Checking Filesystem")
    } else if operation.eq("filesystem-mount") {
        Some("Mounting Filesystem")
    } else if operation.eq("filesystem-unmount") {
        Some("Unmounting Filesystem")
    } else if operation.eq("filesystem-modify") {
        Some("Modifying Filesystem")
    } else if operation.eq("filesystem-repair") {
        Some("Repairing Filesystem")
    } else if operation.eq("filesystem-resize") {
        Some("Resizing Filesystem")
    } else if operation.eq("format-erase") {
        Some("Erasing Device")
    } else if operation.eq("format-mkfs") {
        Some("Creating Filesystem")
    } else if operation.eq("loop-setup") {
        Some("Setting Up Loop Device")
    } else if operation.eq("partition-modify") {
        Some("Modifying Partition")
    } else if operation.eq("partition-delete") {
        Some("Deleting Partition")
    } else if operation.eq("partition-create") {
        Some("Creating Partition")
    } else if operation.eq("cleanup") {
        Some("Cleaning Up")
    } else if operation.eq("ata-secure-erase") {
        Some("ATA Secure Erase")
    } else if operation.eq("ata-enhanced-secure-erase") {
        Some("ATA Enhanced Secure Erase")
    } else if operation.eq("md-raid-stop") {
        Some("Stopping RAID Array")
    } else if operation.eq("md-raid-start") {
        Some("Starting RAID Array")
    } else if operation.eq("md-raid-fault-device") {
        Some("Marking Device as Faulty")
    } else if operation.eq("md-raid-remove-device") {
        Some("Removing Device from Array")
    } else if operation.eq("md-raid-add-device") {
        Some("Adding Device to Array")
    } else if operation.eq("md-raid-set-bitmap") {
        Some("Setting Write-Intent Bitmap")
    } else if operation.eq("md-raid-create") {
        Some("Creating RAID Array")
    } else {
        None
    }
}

impl Client {
    /// Gets a human-readable and localized text string describing the operation of job.
    ///
    /// A kind of operation that is not known is described as `Unknown`, with
    /// the kind in brackets.
    pub fn job_description_from_operation(&self, operation: &str) -> (r: String)
        ensures
            r@ == job_description_text(self@.catalog, operation@),
    {
        match label_of_operation(operation) {
            Some(label) => self.catalog().lookup(Domain::Default, Some("job"), label).to_owned(),
            None => self.catalog().format1("unknown-job", "Unknown (%s)", operation),
        }
    }

    /// Gets a human-readable and localized text string describing the operation of job.
    pub fn job_description(&self, job: &Job) -> (r: String)
        ensures
            r@ == job_description_text(self@.catalog, job.operation@),
    {
        self.job_description_from_operation(job.operation.as_str())
    }
}

} // verus!
