//! Objects of the storage service and the interfaces they expose.
use vstd::prelude::*;
use vstd::string::*;
use crate::block::Block;
use crate::drive::Drive;
use crate::error::{BusError, Error};
use crate::job::Job;
use crate::loopdev::Loop;
use crate::mdraid::MDRaid;
use crate::partition::Partition;
use crate::partitiontable::PartitionTable;

verus! {

/// The interfaces that an object of the service may expose.
#[derive(Clone, Copy, Debug, PartialEq, Eq, Structural)]
pub enum Interface {
    /// The block device interface.
    Block,
    /// The drive interface.
    Drive,
    /// The interface of drives that use the ATA command set.
    DriveAta,
    /// The interface of block devices that hold a mountable filesystem.
    Filesystem,
    /// The job interface.
    Job,
    /// The interface of block devices that hold swap space.
    Swapspace,
    /// The interface of block devices that hold encrypted data.
    Encrypted,
    /// The loop device interface.
    Loop,
    /// The NVMe host management interface.
    ManagerNvme,
    /// The partition interface.
    Partition,
    /// The partition table interface.
    PartitionTable,
    /// The RAID array interface.
    MDRaid,
    /// The NVMe controller interface.
    NvmeController,
    /// The NVMe namespace interface.
    NvmeNamespace,
    /// The interface of controllers connected over NVMe fabrics.
    NvmeFabrics,
}

impl Interface {
    /// The name under which the service exports the interface.
    pub open spec fn word(self) -> Seq<char> {
        match self {
            Interface::Block => "org.freedesktop.UDisks2.Block"@,
            Interface::Drive => "org.freedesktop.UDisks2.Drive"@,
            Interface::DriveAta => "org.freedesktop.UDisks2.Drive.Ata"@,
            Interface::Filesystem => "org.freedesktop.UDisks2.Filesystem"@,
            Interface::Job => "org.freedesktop.UDisks2.Job"@,
            Interface::Swapspace => "org.freedesktop.UDisks2.Swapspace"@,
            Interface::Encrypted => "org.freedesktop.UDisks2.Encrypted"@,
            Interface::Loop => "org.freedesktop.UDisks2.Loop"@,
            Interface::ManagerNvme => "org.freedesktop.UDisks2.Manager.NVMe"@,
            Interface::Partition => "org.freedesktop.UDisks2.Partition"@,
            Interface::PartitionTable => "org.freedesktop.UDisks2.PartitionTable"@,
            Interface::MDRaid => "org.freedesktop.UDisks2.MDRaid"@,
            Interface::NvmeController => "org.freedesktop.UDisks2.NVMe.Controller"@,
            Interface::NvmeNamespace => "org.freedesktop.UDisks2.NVMe.Namespace"@,
            Interface::NvmeFabrics => "org.freedesktop.UDisks2.NVMe.Fabrics"@,
        }
    }

    /// The interface that a name of the service stands for, if it stands for one.
    pub open spec fn named(name: Seq<char>) -> Option<Interface> {
        if name == "org.freedesktop.UDisks2.Block"@ {
            Some(Interface::Block)
        } else if name == "org.freedesktop.UDisks2.Drive"@ {
            Some(Interface::Drive)
        } else if name == "org.freedesktop.UDisks2.Drive.Ata"@ {
            Some(Interface::DriveAta)
        } else if name == "org.freedesktop.UDisks2.Filesystem"@ {
            Some(Interface::Filesystem)
        } else if name == "org.freedesktop.UDisks2.Job"@ {
            Some(Interface::Job)
        } else if name == "org.freedesktop.UDisks2.Swapspace"@ {
            Some(Interface::Swapspace)
        } else if name == "org.freedesktop.UDisks2.Encrypted"@ {
            Some(Interface::Encrypted)
        } else if name == "org.freedesktop.UDisks2.Loop"@ {
            Some(Interface::Loop)
        } else if name == "org.freedesktop.UDisks2.Manager.NVMe"@ {
            Some(Interface::ManagerNvme)
        } else if name == "org.freedesktop.UDisks2.Partition"@ {
            Some(Interface::Partition)
        } else if name == "org.freedesktop.UDisks2.PartitionTable"@ {
            Some(Interface::PartitionTable)
        } else if name == "org.freedesktop.UDisks2.MDRaid"@ {
            Some(Interface::MDRaid)
        } else if name == "org.freedesktop.UDisks2.NVMe.Controller"@ {
            Some(Interface::NvmeController)
        } else if name == "org.freedesktop.UDisks2.NVMe.Namespace"@ {
            Some(Interface::NvmeNamespace)
        } else if name == "org.freedesktop.UDisks2.NVMe.Fabrics"@ {
            Some(Interface::NvmeFabrics)
        } else {
            None
        }
    }

    /// True for the interfaces whose properties a snapshot holds.
    pub open spec fn spec_is_held(self) -> bool {
        match self {
            Interface::Block | Interface::Drive | Interface::Job | Interface::Loop | Interface::Partition | Interface::PartitionTable | Interface::MDRaid => true,
            _ => false,
        }
    }

    /// Returns the name under which the service exports the interface.
    pub fn name(self) -> (r: &'static str)
        ensures
            r@ == self.word(),
    {
        match self {
            Interface::Block => "org.freedesktop.UDisks2.Block",
            Interface::Drive => "org.freedesktop.UDisks2.Drive",
            Interface::DriveAta => "org.freedesktop.UDisks2.Drive.Ata",
            Interface::Filesystem => "org.freedesktop.UDisks2.Filesystem",
            Interface::Job => "org.freedesktop.UDisks2.Job",
            Interface::Swapspace => "org.freedesktop.UDisks2.Swapspace",
            Interface::Encrypted => "org.freedesktop.UDisks2.Encrypted",
            Interface::Loop => "org.freedesktop.UDisks2.Loop",
            Interface::ManagerNvme => "org.freedesktop.UDisks2.Manager.NVMe",
            Interface::Partition => "org.freedesktop.UDisks2.Partition",
            Interface::PartitionTable => "org.freedesktop.UDisks2.PartitionTable",
            Interface::MDRaid => "org.freedesktop.UDisks2.MDRaid",
            Interface::NvmeController => "org.freedesktop.UDisks2.NVMe.Controller",
            Interface::NvmeNamespace => "org.freedesktop.UDisks2.NVMe.Namespace",
            Interface::NvmeFabrics => "org.freedesktop.UDisks2.NVMe.Fabrics",
        }
    }

    /// Reads an interface from the name under which the service exports it.
    pub fn from_name(name: &str) -> (r: Option<Interface>)
        ensures
            r == Interface::named(name@),
    {
        if name.eq("org.freedesktop.UDisks2.Block") {
            Some(Interface::Block)
        } else if name.eq("org.freedesktop.UDisks2.Drive") {
            Some(Interface::Drive)
        } else if name.eq("org.freedesktop.UDisks2.Drive.Ata") {
            Some(Interface::DriveAta)
        } else if name.eq("org.freedesktop.UDisks2.Filesystem") {
            Some(Interface::Filesystem)
        } else if name.eq("org.freedesktop.UDisks2.Job") {
            Some(Interface::Job)
        } else if name.eq("org.freedesktop.UDisks2.Swapspace") {
            Some(Interface::Swapspace)
        } else if name.eq("org.freedesktop.UDisks2.Encrypted") {
            Some(Interface::Encrypted)
        } else if name.eq("org.freedesktop.UDisks2.Loop") {
            Some(Interface::Loop)
        } else if name.eq("org.freedesktop.UDisks2.Manager.NVMe") {
            Some(Interface::ManagerNvme)
        } else if name.eq("org.freedesktop.UDisks2.Partition") {
            Some(Interface::Partition)
        } else if name.eq("org.freedesktop.UDisks2.PartitionTable") {
            Some(Interface::PartitionTable)
        } else if name.eq("org.freedesktop.UDisks2.MDRaid") {
            Some(Interface::MDRaid)
        } else if name.eq("org.freedesktop.UDisks2.NVMe.Controller") {
            Some(Interface::NvmeController)
        } else if name.eq("org.freedesktop.UDisks2.NVMe.Namespace") {
            Some(Interface::NvmeNamespace)
        } else if name.eq("org.freedesktop.UDisks2.NVMe.Fabrics") {
            Some(Interface::NvmeFabrics)
        } else {
            None
        }
    }

    /// Tells whether a snapshot holds the properties of the interface.
    #[verifier::when_used_as_spec(spec_is_held)]
    pub fn is_held(self) -> (r: bool)
        ensures
            r == self.spec_is_held(),
    {
        match self {
            Interface::Block | Interface::Drive | Interface::Job | Interface::Loop | Interface::Partition | Interface::PartitionTable | Interface::MDRaid => true,
            _ => false,
        }
    }
}

/// One object of a snapshot: its path and the interfaces it exposes, each
/// with the properties read from it.
///
/// What an object is shows only in which interfaces it exposes; it may expose
/// several, as a block device that is also a partition does. Every interface
/// held here is bound to the object: it carries the object's path.
#[derive(Debug)]
pub struct Object {
    path: String,
    block: Option<Block>,
    drive: Option<Drive>,
    partition: Option<Partition>,
    partition_table: Option<PartitionTable>,
    loop_device: Option<Loop>,
    mdraid: Option<MDRaid>,
    job: Option<Job>,
    others: Vec<Interface>,
}

/// An object as the contracts speak of it.
pub struct ObjectView {
    /// Path of the object.
    pub path: Seq<char>,
    /// The block interface, where the object exposes it.
    pub block: Option<Block>,
    /// The drive interface, where the object exposes it.
    pub drive: Option<Drive>,
    /// The partition interface, where the object exposes it.
    pub partition: Option<Partition>,
    /// The partition table interface, where the object exposes it.
    pub partition_table: Option<PartitionTable>,
    /// The loop interface, where the object exposes it.
    pub loop_device: Option<Loop>,
    /// The array interface, where the object exposes it.
    pub mdraid: Option<MDRaid>,
    /// The job interface, where the object exposes it.
    pub job: Option<Job>,
    /// The interfaces that the object exposes and whose properties the
    /// snapshot does not hold.
    pub others: Seq<Interface>,
}

impl ObjectView {
    /// True when the object exposes the interface.
    pub open spec fn exposes(self, interface: Interface) -> bool {
        match interface {
            Interface::Block => self.block is Some,
            Interface::Drive => self.drive is Some,
            Interface::Partition => self.partition is Some,
            Interface::PartitionTable => self.partition_table is Some,
            Interface::Loop => self.loop_device is Some,
            Interface::MDRaid => self.mdraid is Some,
            Interface::Job => self.job is Some,
            _ => self.others.contains(interface),
        }
    }

    /// True when every interface of the object carries the object's path.
    pub open spec fn bound(self) -> bool {
        &&& self.block matches Some(b) ==> b.path@ == self.path
        &&& self.drive matches Some(d) ==> d.path@ == self.path
        &&& self.partition matches Some(p) ==> p.path@ == self.path
        &&& self.partition_table matches Some(t) ==> t.path@ == self.path
        &&& self.loop_device matches Some(l) ==> l.path@ == self.path
        &&& self.mdraid matches Some(m) ==> m.path@ == self.path
        &&& self.job matches Some(j) ==> j.path@ == self.path
    }
}

impl View for Object {
    type V = ObjectView;

    closed spec fn view(&self) -> ObjectView {
        ObjectView {
            path: self.path@,
            block: self.block,
            drive: self.drive,
            partition: self.partition,
            partition_table: self.partition_table,
            loop_device: self.loop_device,
            mdraid: self.mdraid,
            job: self.job,
            others: self.others@,
        }
    }
}

/// What a lookup of an interface yields: the interface where the object
/// exposes it, else the one error that stands for every absence.
pub open spec fn found<T>(interface: &Option<T>) -> Result<&T, Error> {
    match interface {
        Some(i) => Ok(i),
        None => Err(Error::not_found()),
    }
}

impl Object {
    #[verifier::type_invariant]
    spec fn well_bound(self) -> bool {
        self@.bound()
    }

    /// An object at `path` that exposes no interface.
    pub fn new(path: &str) -> (r: Object)
        ensures
            r@.path == path@,
            r@.block is None,
            r@.drive is None,
            r@.partition is None,
            r@.partition_table is None,
            r@.loop_device is None,
            r@.mdraid is None,
            r@.job is None,
            r@.others.len() == 0,
    {
        Object {
            path: path.to_owned(),
            block: None,
            drive: None,
            partition: None,
            partition_table: None,
            loop_device: None,
            mdraid: None,
            job: None,
            others: Vec::new(),
        }
    }

    /// Tells whether the object exposes the interface.
    pub fn exposes(&self, interface: Interface) -> (r: bool)
        ensures
            r == self@.exposes(interface),
    {
        match interface {
            Interface::Block => self.block.is_some(),
            Interface::Drive => self.drive.is_some(),
            Interface::Partition => self.partition.is_some(),
            Interface::PartitionTable => self.partition_table.is_some(),
            Interface::Loop => self.loop_device.is_some(),
            Interface::MDRaid => self.mdraid.is_some(),
            Interface::Job => self.job.is_some(),
            _ => {
                let mut i: usize = 0;
                while i < self.others.len()
                    invariant
                        i <= self.others@.len(),
                        self@.exposes(interface) == self@.others.contains(interface),
                        forall|j: int| 0 <= j < i ==> self.others@[j] != interface,
                    decreases self.others@.len() - i,
                {
                    if self.others[i] == interface {
                        return true;
                    }
                    i += 1;
                }
                false
            },
        }
    }

    /// Lets the object expose an interface whose properties a snapshot does
    /// not hold. An interface whose properties it holds is exposed by
    /// setting them; for such a one nothing changes here.
    pub fn expose(&mut self, interface: Interface)
        ensures
            final(self)@ == (ObjectView {
                others: if interface.spec_is_held() {
                    old(self)@.others
                } else {
                    old(self)@.others.push(interface)
                },
                ..old(self)@
            }),
            !interface.spec_is_held() ==> final(self)@.exposes(interface),
    {
        proof {
            use_type_invariant(&*self);
        }
        if !interface.is_held() {
            let mut others: Vec<Interface> = Vec::new();
            let mut i: usize = 0;
            while i < self.others.len()
                invariant
                    i <= self.others@.len(),
                    others@ == self.others@.subrange(0, i as int),
                decreases self.others@.len() - i,
            {
                others.push(self.others[i]);
                i += 1;
            }
            assert(others@ =~= self.others@);
            others.push(interface);
            assert(others@[others@.len() - 1] == interface);
            self.others = others;
        }
    }

    /// Returns the path of the object, which every interface of the object
    /// carries.
    pub fn object_path(&self) -> (r: &String)
        ensures
            r@ == self@.path,
            self@.bound(),
    {
        proof {
            use_type_invariant(self);
        }
        &self.path
    }

    /// Returns the block interface.
    ///
    /// Fails with [`BusError::InterfaceNotFound`] if the object does not
    /// expose it.
    pub fn block(&self) -> (r: Result<&Block, Error>)
        ensures
            r == found(&self@.block),
            r matches Ok(b) ==> b.path@ == self@.path,
    {
        proof {
            use_type_invariant(self);
        }
        match &self.block {
            Some(b) => Ok(b),
            None => Err(Error::Bus(BusError::InterfaceNotFound)),
        }
    }

    /// Returns the drive interface.
    ///
    /// Fails with [`BusError::InterfaceNotFound`] if the object does not
    /// expose it.
    pub fn drive(&self) -> (r: Result<&Drive, Error>)
        ensures
            r == found(&self@.drive),
            r matches Ok(d) ==> d.path@ == self@.path,
    {
        proof {
            use_type_invariant(self);
        }
        match &self.drive {
            Some(d) => Ok(d),
            None => Err(Error::Bus(BusError::InterfaceNotFound)),
        }
    }

    /// Returns the partition interface.
    ///
    /// Fails with [`BusError::InterfaceNotFound`] if the object does not
    /// expose it.
    pub fn partition(&self) -> (r: Result<&Partition, Error>)
        ensures
            r == found(&self@.partition),
            r matches Ok(p) ==> p.path@ == self@.path,
    {
        proof {
            use_type_invariant(self);
        }
        match &self.partition {
            Some(p) => Ok(p),
            None => Err(Error::Bus(BusError::InterfaceNotFound)),
        }
    }

    /// Returns the partition table interface.
    ///
    /// Fails with [`BusError::InterfaceNotFound`] if the object does not
    /// expose it.
    pub fn partition_table(&self) -> (r: Result<&PartitionTable, Error>)
        ensures
            r == found(&self@.partition_table),
            r matches Ok(t) ==> t.path@ == self@.path,
    {
        proof {
            use_type_invariant(self);
        }
        match &self.partition_table {
            Some(t) => Ok(t),
            None => Err(Error::Bus(BusError::InterfaceNotFound)),
        }
    }

    /// Returns the loop interface.
    ///
    /// Fails with [`BusError::InterfaceNotFound`] if the object does not
    /// expose it.
    pub fn loop_device(&self) -> (r: Result<&Loop, Error>)
        ensures
            r == found(&self@.loop_device),
            r matches Ok(l) ==> l.path@ == self@.path,
    {
        proof {
            use_type_invariant(self);
        }
        match &self.loop_device {
            Some(l) => Ok(l),
            None => Err(Error::Bus(BusError::InterfaceNotFound)),
        }
    }

    /// Returns the array interface.
    ///
    /// Fails with [`BusError::InterfaceNotFound`] if the object does not
    /// expose it.
    pub fn mdraid(&self) -> (r: Result<&MDRaid, Error>)
        ensures
            r == found(&self@.mdraid),
            r matches Ok(m) ==> m.path@ == self@.path,
    {
        proof {
            use_type_invariant(self);
        }
        match &self.mdraid {
            Some(m) => Ok(m),
            None => Err(Error::Bus(BusError::InterfaceNotFound)),
        }
    }

    /// Returns the job interface.
    ///
    /// Fails with [`BusError::InterfaceNotFound`] if the object does not
    /// expose it.
    pub fn job(&self) -> (r: Result<&Job, Error>)
        ensures
            r == found(&self@.job),
            r matches Ok(j) ==> j.path@ == self@.path,
    {
        proof {
            use_type_invariant(self);
        }
        match &self.job {
            Some(j) => Ok(j),
            None => Err(Error::Bus(BusError::InterfaceNotFound)),
        }
    }

    /// Lets the object expose the block interface with the properties of
    /// `block`, bound to the object.
    pub fn set_block(&mut self, block: Block)
        ensures
            final(self)@ == (ObjectView { block: final(self)@.block, ..old(self)@ }),
            final(self)@.block matches Some(i) && i.same_properties(block),
    {
        proof {
            use_type_invariant(&*self);
        }
        let mut block = block;
        block.path = self.path.clone();
        self.block = Some(block);
    }

    /// Lets the object expose the drive interface with the properties of
    /// `drive`, bound to the object.
    pub fn set_drive(&mut self, drive: Drive)
        ensures
            final(self)@ == (ObjectView { drive: final(self)@.drive, ..old(self)@ }),
            final(self)@.drive matches Some(i) && i.same_properties(drive),
    {
        proof {
            use_type_invariant(&*self);
        }
        let mut drive = drive;
        drive.path = self.path.clone();
        self.drive = Some(drive);
    }

    /// Lets the object expose the partition interface with the properties of
    /// `partition`, bound to the object.
    pub fn set_partition(&mut self, partition: Partition)
        ensures
            final(self)@ == (ObjectView { partition: final(self)@.partition, ..old(self)@ }),
            final(self)@.partition matches Some(i) && i.same_properties(partition),
    {
        proof {
            use_type_invariant(&*self);
        }
        let mut partition = partition;
        partition.path = self.path.clone();
        self.partition = Some(partition);
    }

    /// Lets the object expose the partition table interface with the properties of
    /// `table`, bound to the object.
    pub fn set_partition_table(&mut self, table: PartitionTable)
        ensures
            final(self)@ == (ObjectView { partition_table: final(self)@.partition_table, ..old(self)@ }),
            final(self)@.partition_table matches Some(i) && i.same_properties(table),
    {
        proof {
            use_type_invariant(&*self);
        }
        let mut table = table;
        table.path = self.path.clone();
        self.partition_table = Some(table);
    }

    /// Lets the object expose the loop interface with the properties of
    /// `device`, bound to the object.
    pub fn set_loop_device(&mut self, device: Loop)
        ensures
            final(self)@ == (ObjectView { loop_device: final(self)@.loop_device, ..old(self)@ }),
            final(self)@.loop_device matches Some(i) && i.same_properties(device),
    {
        proof {
            use_type_invariant(&*self);
        }
        let mut device = device;
        device.path = self.path.clone();
        self.loop_device = Some(device);
    }

    /// Lets the object expose the array interface with the properties of
    /// `mdraid`, bound to the object.
    pub fn set_mdraid(&mut self, mdraid: MDRaid)
        ensures
            final(self)@ == (ObjectView { mdraid: final(self)@.mdraid, ..old(self)@ }),
            final(self)@.mdraid matches Some(i) && i.same_properties(mdraid),
    {
        proof {
            use_type_invariant(&*self);
        }
        let mut mdraid = mdraid;
        mdraid.path = self.path.clone();
        self.mdraid = Some(mdraid);
    }

    /// Lets the object expose the job interface with the properties of
    /// `job`, bound to the object.
    pub fn set_job(&mut self, job: Job)
        ensures
            final(self)@ == (ObjectView { job: final(self)@.job, ..old(self)@ }),
            final(self)@.job matches Some(i) && i.same_properties(job),
    {
        proof {
            use_type_invariant(&*self);
        }
        let mut job = job;
        job.path = self.path.clone();
        self.job = Some(job);
    }
}

} // verus!
