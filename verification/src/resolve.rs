//! Relationships between the objects of a snapshot.
//!
//! The service lists its objects flat, without pointers from one to another.
//! Each question here is answered from the snapshot as it stands, by a
//! lookup of a path or by a scan of all objects.
use vstd::prelude::*;
use vstd::string::*;
use crate::block::Block;
use crate::client::{first, picked, positions, Client, Query, Scan};
use crate::drive::Drive;
use crate::error::{BusError, Error};
use crate::job::Job;
use crate::loopdev::Loop;
use crate::mdraid::MDRaid;
use crate::object::{found, Interface, Object, ObjectView};
use crate::partition::Partition;
use crate::partitiontable::PartitionTable;

verus! {

/// True when the optional reference points at the optional value.
pub open spec fn same_option<T>(r: Option<&T>, expected: Option<T>) -> bool {
    match (r, expected) {
        (Some(a), Some(b)) => *a == b,
        (None, None) => true,
        _ => false,
    }
}

/// True when the result holds a reference to the value expected, or the
/// error expected.
pub open spec fn same_result<T>(r: Result<&T, Error>, expected: Result<T, Error>) -> bool {
    match (r, expected) {
        (Ok(a), Ok(b)) => *a == b,
        (Err(a), Err(b)) => a == b,
        _ => false,
    }
}

/// True when the references point, one for one, at the values.
pub open spec fn lists<T>(refs: Seq<&T>, values: Seq<T>) -> bool {
    &&& refs.len() == values.len()
    &&& forall|j: int| 0 <= j < refs.len() ==> *(#[trigger] refs[j]) == values[j]
}

/// The interface where the object exposes it, else the error that stands for
/// every absence.
pub open spec fn present<T>(interface: Option<T>) -> Result<T, Error> {
    match interface {
        Some(i) => Ok(i),
        None => Err(Error::not_found()),
    }
}

/// The object that a reference points at, if it points at one of the snapshot.
pub open spec fn referred(objects: Seq<ObjectView>, reference: Option<String>) -> Option<
    ObjectView,
> {
    match reference {
        Some(path) => first(objects, Scan::At(path@)),
        None => None,
    }
}

/// The block interfaces of the objects at the given positions.
pub open spec fn blocks_at(objects: Seq<ObjectView>, at: Seq<int>) -> Seq<Block> {
    Seq::new(at.len(), |j: int| objects[at[j]].block->0)
}

/// The drive interfaces of the objects at the given positions.
pub open spec fn drives_at(objects: Seq<ObjectView>, at: Seq<int>) -> Seq<Drive> {
    Seq::new(at.len(), |j: int| objects[at[j]].drive->0)
}

/// The partition interfaces of the objects at the given positions.
pub open spec fn partitions_at(objects: Seq<ObjectView>, at: Seq<int>) -> Seq<Partition> {
    Seq::new(at.len(), |j: int| objects[at[j]].partition->0)
}

/// The job interfaces of the objects at the given positions.
pub open spec fn jobs_at(objects: Seq<ObjectView>, at: Seq<int>) -> Seq<Job> {
    Seq::new(at.len(), |j: int| objects[at[j]].job->0)
}

/// The block interface of the first object that the query looks for.
pub open spec fn first_block(objects: Seq<ObjectView>, query: Scan) -> Option<Block> {
    match first(objects, query) {
        Some(o) => o.block,
        None => None,
    }
}

/// The drive that a block device belongs to.
pub open spec fn drive_of(objects: Seq<ObjectView>, block: Block) -> Result<Drive, Error> {
    match referred(objects, block.drive) {
        Some(o) => present(o.drive),
        None => Err(Error::not_found()),
    }
}

/// The array that a block device is the device of.
pub open spec fn mdraid_of(objects: Seq<ObjectView>, block: Block) -> Result<MDRaid, Error> {
    match referred(objects, block.mdraid) {
        Some(o) => present(o.mdraid),
        None => Err(Error::not_found()),
    }
}

/// The partition table that holds a partition.
pub open spec fn table_of(objects: Seq<ObjectView>, partition: Partition) -> Result<
    PartitionTable,
    Error,
> {
    match referred(objects, partition.table) {
        Some(o) => present(o.partition_table),
        None => Err(Error::not_found()),
    }
}

/// The loop device behind the object at `path`: the object's own loop
/// interface, or else that of the object whose partition table holds it.
pub open spec fn loop_of(objects: Seq<ObjectView>, path: Seq<char>) -> Result<Loop, Error> {
    match first(objects, Scan::At(path)) {
        None => Err(Error::not_found()),
        Some(o) => match o.loop_device {
            Some(l) => Ok(l),
            None => match o.partition {
                None => Err(Error::not_found()),
                Some(p) => match table_of(objects, p) {
                    Err(e) => Err(e),
                    Ok(t) => match first(objects, Scan::At(t.path@)) {
                        None => Err(Error::not_found()),
                        Some(owner) => present(owner.loop_device),
                    },
                },
            },
        },
    }
}

/// The drives that share the sibling id of `drive`; none when it has no
/// sibling id. The drive itself is among them when it is in the snapshot.
pub open spec fn siblings_of(objects: Seq<ObjectView>, drive: Drive) -> Seq<Drive> {
    if drive.sibling_id@.len() == 0 {
        Seq::empty()
    } else {
        drives_at(objects, picked(objects, Scan::DriveWithSiblingId(drive.sibling_id@), false))
    }
}

/// What a lookup of an interface on the object at a path yields: the
/// object, where the snapshot holds it and it exposes the interface; else
/// the one error that stands for every absence, be it that of the object or
/// that of the interface.
pub open spec fn interface_at(objects: Seq<ObjectView>, path: Seq<char>, interface: Interface) -> Result<
    ObjectView,
    Error,
> {
    match first(objects, Scan::At(path)) {
        Some(o) => if o.exposes(interface) {
            Ok(o)
        } else {
            Err(Error::not_found())
        },
        None => Err(Error::not_found()),
    }
}

impl Client {
    /// Confirms that the object at `object_path` exposes `interface` in this
    /// snapshot, and returns the object.
    ///
    /// Fails with [`BusError::InterfaceNotFound`] if it does not, whether
    /// the object is missing or only the interface.
    pub fn get_interface(&self, object_path: &str, interface: Interface) -> (r: Result<
        &Object,
        Error,
    >)
        ensures
            match r {
                Ok(o) => interface_at(self@.objects, object_path@, interface) == Ok::<
                    ObjectView,
                    Error,
                >(o@),
                Err(e) => interface_at(self@.objects, object_path@, interface) == Err::<
                    ObjectView,
                    Error,
                >(e),
            },
    {
        match self.object(object_path) {
            Some(o) => {
                if o.exposes(interface) {
                    Ok(o)
                } else {
                    Err(Error::Bus(BusError::InterfaceNotFound))
                }
            },
            None => Err(Error::Bus(BusError::InterfaceNotFound)),
        }
    }

    /// The object that an optional reference points at.
    pub fn referred_object(&self, reference: &Option<String>) -> (r: Option<&Object>)
        ensures
            match r {
                Some(o) => referred(self@.objects, *reference) == Some(o@),
                None => referred(self@.objects, *reference) is None,
            },
    {
        match reference {
            Some(path) => self.object(path.as_str()),
            None => None,
        }
    }

    /// The block interface of the first object that `query` looks for.
    pub fn first_block_of(&self, query: &Query) -> (r: Option<&Block>)
        ensures
            same_option(r, first_block(self@.objects, query@)),
    {
        let at = self.select(query, true);
        if at.len() > 0 {
            let i = at[0];
            assert(positions(at@)[0] == i as int);
            match self.found_at(i).block() {
                Ok(b) => Some(b),
                Err(_) => None,
            }
        } else {
            assert(positions(at@).len() == 0);
            None
        }
    }

    /// The block interfaces of the objects that `query` looks for.
    fn blocks_of(&self, query: &Query, first_only: bool) -> (r: Vec<&Block>)
        requires
            forall|o: ObjectView| query@.admits(o) ==> o.block is Some,
        ensures
            lists(r@, blocks_at(self@.objects, picked(self@.objects, query@, first_only))),
    {
        let at = self.select(query, first_only);
        let mut out: Vec<&Block> = Vec::new();
        let mut k: usize = 0;
        while k < at.len()
            invariant
                k <= at@.len(),
                out@.len() == k,
                positions(at@) == picked(self@.objects, query@, first_only),
                forall|j: int|
                    0 <= j < at@.len() ==> (#[trigger] at@[j]) < self@.objects.len()
                        && query@.admits(self@.objects[at@[j] as int]),
                forall|o: ObjectView| query@.admits(o) ==> o.block is Some,
                forall|j: int|
                    0 <= j < k ==> *(#[trigger] out@[j]) == self@.objects[at@[j] as int].block->0,
            decreases at@.len() - k,
        {
            let i = at[k];
            match self.found_at(i).block() {
                Ok(b) => out.push(b),
                Err(_) => {
                    assert(false);
                },
            }
            k += 1;
        }
        out
    }

    /// Gets the block device with the device number `block_device_number`.
    ///
    /// If no block is found, [`None`] is returned.
    pub fn block_for_dev(&self, block_device_number: u64) -> (r: Option<&Block>)
        ensures
            same_option(
                r,
                first_block(self@.objects, Scan::BlockWithDeviceNumber(block_device_number)),
            ),
    {
        self.first_block_of(&Query::BlockWithDeviceNumber(block_device_number))
    }

    /// Gets all the block devices with the given label.
    ///
    /// If none is found, the returned vector is empty.
    pub fn block_for_label(&self, label: &str) -> (r: Vec<&Block>)
        ensures
            lists(
                r@,
                blocks_at(
                    self@.objects,
                    picked(self@.objects, Scan::BlockWithLabel(label@), false),
                ),
            ),
    {
        self.blocks_of(&Query::BlockWithLabel(label), false)
    }

    /// Gets all the block devices with the given `uuid`.
    ///
    /// If none is found, the returned vector is empty.
    pub fn block_for_uuid(&self, uuid: &str) -> (r: Vec<&Block>)
        ensures
            lists(
                r@,
                blocks_at(self@.objects, picked(self@.objects, Scan::BlockWithUuid(uuid@), false)),
            ),
    {
        self.blocks_of(&Query::BlockWithUuid(uuid), false)
    }

    /// Returns the top-level blocks of the drive at `drive_object_path`, in
    /// the order of the scan.
    ///
    /// A top-level block is a block device of the drive that is not a
    /// partition.
    pub fn top_level_blocks_for_drive(&self, drive_object_path: &str) -> (r: Vec<&Block>)
        ensures
            lists(
                r@,
                blocks_at(
                    self@.objects,
                    picked(self@.objects, Scan::TopLevelBlockOf(drive_object_path@), false),
                ),
            ),
    {
        self.blocks_of(&Query::TopLevelBlockOf(drive_object_path), false)
    }

    /// Gets the block device, if there is one, for the given drive.
    ///
    /// The block returned is for the whole drive, never a partition. Where
    /// the drive has several, it is the first of the scan. `physical` asks
    /// for a block that can take low-level commands rather than one that
    /// reads and writes data; the choice does not depend on it.
    pub fn block_for_drive(&self, drive: &Drive, _physical: bool) -> (r: Option<&Block>)
        ensures
            same_option(r, first_block(self@.objects, Scan::TopLevelBlockOf(drive.path@))),
    {
        self.first_block_of(&Query::TopLevelBlockOf(drive.path.as_str()))
    }

    /// Gets the drive for the given block device.
    ///
    /// Fails with [`BusError::InterfaceNotFound`] if the block names no
    /// drive, or none that the snapshot holds.
    pub fn drive_for_block(&self, block: &Block) -> (r: Result<&Drive, Error>)
        ensures
            same_result(r, drive_of(self@.objects, *block)),
    {
        match self.referred_object(&block.drive) {
            Some(o) => o.drive(),
            None => Err(Error::Bus(BusError::InterfaceNotFound)),
        }
    }

    /// If the given block is an encrypted device that is unlocked, returns
    /// its cleartext device.
    ///
    /// If no block is found, [`None`] is returned.
    pub fn cleartext_block(&self, block: &Block) -> (r: Option<&Block>)
        ensures
            same_option(r, first_block(self@.objects, Scan::CleartextOf(block.path@))),
    {
        self.first_block_of(&Query::CleartextOf(block.path.as_str()))
    }

    /// Returns the partition table that holds the given partition.
    ///
    /// Fails with [`BusError::InterfaceNotFound`] if the partition names no
    /// object of the snapshot that exposes a partition table.
    pub fn partition_table(&self, partition: &Partition) -> (r: Result<&PartitionTable, Error>)
        ensures
            same_result(r, table_of(self@.objects, *partition)),
    {
        match self.referred_object(&partition.table) {
            Some(o) => o.partition_table(),
            None => Err(Error::Bus(BusError::InterfaceNotFound)),
        }
    }

    /// Returns the loop device for the given block.
    ///
    /// This only works if the block is a loop device, or a partition of a
    /// loop device; else it fails with [`BusError::InterfaceNotFound`].
    pub fn loop_for_block(&self, block: &Block) -> (r: Result<&Loop, Error>)
        ensures
            same_result(r, loop_of(self@.objects, block.path@)),
    {
        let object = match self.object(block.path.as_str()) {
            Some(o) => o,
            None => {
                return Err(Error::Bus(BusError::InterfaceNotFound));
            },
        };
        if let Ok(l) = object.loop_device() {
            return Ok(l);
        }
        // possibly a partition of a loop device
        let partition = match object.partition() {
            Ok(p) => p,
            Err(e) => {
                return Err(e);
            },
        };
        let table = match self.partition_table(partition) {
            Ok(t) => t,
            Err(e) => {
                return Err(e);
            },
        };
        match self.object(table.path.as_str()) {
            Some(owner) => owner.loop_device(),
            None => Err(Error::Bus(BusError::InterfaceNotFound)),
        }
    }

    /// Returns all partitions of the given partition table, in the order of
    /// the scan.
    pub fn partitions(&self, table: &PartitionTable) -> (r: Vec<&Partition>)
        ensures
            lists(
                r@,
                partitions_at(
                    self@.objects,
                    picked(self@.objects, Scan::PartitionIn(table.path@), false),
                ),
            ),
    {
        let at = self.select(&Query::PartitionIn(table.path.as_str()), false);
        let ghost query = Scan::PartitionIn(table.path@);
        let mut out: Vec<&Partition> = Vec::new();
        let mut k: usize = 0;
        while k < at.len()
            invariant
                k <= at@.len(),
                out@.len() == k,
                positions(at@) == picked(self@.objects, query, false),
                query == Scan::PartitionIn(table.path@),
                forall|j: int|
                    0 <= j < at@.len() ==> (#[trigger] at@[j]) < self@.objects.len()
                        && query.admits(self@.objects[at@[j] as int]),
                forall|j: int|
                    0 <= j < k ==> *(#[trigger] out@[j]) == self@.objects[at@[j] as int].partition->0,
            decreases at@.len() - k,
        {
            let i = at[k];
            match self.found_at(i).partition() {
                Ok(p) => out.push(p),
                Err(_) => {
                    assert(false);
                },
            }
            k += 1;
        }
        out
    }

    /// Returns the drives that are siblings of the given drive: all drives
    /// of the snapshot with the same sibling id, in the order of the scan.
    /// A drive without a sibling id has none. The drive itself is not left out.
    pub fn drive_siblings(&self, drive: &Drive) -> (r: Vec<&Drive>)
        ensures
            lists(r@, siblings_of(self@.objects, *drive)),
    {
        let mut out: Vec<&Drive> = Vec::new();
        if drive.sibling_id.as_str().is_empty() {
            return out;
        }
        let at = self.select(&Query::DriveWithSiblingId(drive.sibling_id.as_str()), false);
        let ghost query = Scan::DriveWithSiblingId(drive.sibling_id@);
        let mut k: usize = 0;
        while k < at.len()
            invariant
                k <= at@.len(),
                out@.len() == k,
                positions(at@) == picked(self@.objects, query, false),
                query == Scan::DriveWithSiblingId(drive.sibling_id@),
                forall|j: int|
                    0 <= j < at@.len() ==> (#[trigger] at@[j]) < self@.objects.len()
                        && query.admits(self@.objects[at@[j] as int]),
                forall|j: int|
                    0 <= j < k ==> *(#[trigger] out@[j]) == self@.objects[at@[j] as int].drive->0,
            decreases at@.len() - k,
        {
            let i = at[k];
            match self.found_at(i).drive() {
                Ok(d) => out.push(d),
                Err(_) => {
                    assert(false);
                },
            }
            k += 1;
        }
        out
    }

    /// Returns the block devices that stand in one relation to the given
    /// array, in the order of the scan.
    ///
    /// With `members` they are the blocks that are members of the array,
    /// else the blocks that the array runs as. `skip_partitions` leaves out
    /// blocks that are partitions, and `only_first_one` stops at the first
    /// block found.
    pub fn block_or_blocks_for_mdraid(
        &self,
        mdraid: &MDRaid,
        members: bool,
        only_first_one: bool,
        skip_partitions: bool,
    ) -> (r: Vec<&Block>)
        ensures
            lists(
                r@,
                blocks_at(
                    self@.objects,
                    picked(
                        self@.objects,
                        Scan::RaidBlock { raid: mdraid.path@, members, skip_partitions },
                        only_first_one,
                    ),
                ),
            ),
    {
        self.blocks_of(
            &Query::RaidBlock { raid: mdraid.path.as_str(), members, skip_partitions },
            only_first_one,
        )
    }

    /// Returns the RAID device (e.g. `/dev/md0`) for the given array.
    ///
    /// Where more than one device runs for the array (split-brain), it is
    /// the first of the scan; [`Client::all_blocks_for_mdraid`] returns all
    /// of them. Partitions are never returned.
    ///
    /// If no RAID device is running, [`None`] is returned.
    pub fn block_for_mdraid(&self, mdraid: &MDRaid) -> (r: Option<&Block>)
        ensures
            same_option(
                r,
                first_block(
                    self@.objects,
                    Scan::RaidBlock { raid: mdraid.path@, members: false, skip_partitions: true },
                ),
            ),
    {
        self.first_block_of(
            &Query::RaidBlock { raid: mdraid.path.as_str(), members: false, skip_partitions: true },
        )
    }

    /// Returns all RAID devices (e.g. `/dev/md0` and `/dev/md1`) for the
    /// given array. More than one is a sign of split-brain.
    pub fn all_blocks_for_mdraid(&self, mdraid: &MDRaid) -> (r: Vec<&Block>)
        ensures
            lists(
                r@,
                blocks_at(
                    self@.objects,
                    picked(
                        self@.objects,
                        Scan::RaidBlock {
                            raid: mdraid.path@,
                            members: false,
                            skip_partitions: true,
                        },
                        false,
                    ),
                ),
            ),
    {
        self.block_or_blocks_for_mdraid(mdraid, false, false, true)
    }

    /// Returns the physical block devices that are part of the given array.
    pub fn members_for_mdraid(&self, mdraid: &MDRaid) -> (r: Vec<&Block>)
        ensures
            lists(
                r@,
                blocks_at(
                    self@.objects,
                    picked(
                        self@.objects,
                        Scan::RaidBlock {
                            raid: mdraid.path@,
                            members: true,
                            skip_partitions: false,
                        },
                        false,
                    ),
                ),
            ),
    {
        self.block_or_blocks_for_mdraid(mdraid, true, false, false)
    }

    /// Returns the array that the given block is the block device for.
    ///
    /// Fails with [`BusError::InterfaceNotFound`] if the block is not the
    /// device of an array that the snapshot holds.
    pub fn mdraid_for_block(&self, block: &Block) -> (r: Result<&MDRaid, Error>)
        ensures
            same_result(r, mdraid_of(self@.objects, *block)),
    {
        match self.referred_object(&block.mdraid) {
            Some(o) => o.mdraid(),
            None => Err(Error::Bus(BusError::InterfaceNotFound)),
        }
    }

    /// Gets all the jobs that work on the given object, in the order of the
    /// scan.
    ///
    /// If there is none, the returned vector is empty.
    pub fn jobs_for_object(&self, object: &Object) -> (r: Vec<&Job>)
        ensures
            lists(
                r@,
                jobs_at(self@.objects, picked(self@.objects, Scan::JobOn(object@.path), false)),
            ),
    {
        let at = self.select(&Query::JobOn(object.object_path().as_str()), false);
        let ghost query = Scan::JobOn(object@.path);
        let mut out: Vec<&Job> = Vec::new();
        let mut k: usize = 0;
        while k < at.len()
            invariant
                k <= at@.len(),
                out@.len() == k,
                positions(at@) == picked(self@.objects, query, false),
                query == Scan::JobOn(object@.path),
                forall|j: int|
                    0 <= j < at@.len() ==> (#[trigger] at@[j]) < self@.objects.len()
                        && query.admits(self@.objects[at@[j] as int]),
                forall|j: int|
                    0 <= j < k ==> *(#[trigger] out@[j]) == self@.objects[at@[j] as int].job->0,
            decreases at@.len() - k,
        {
            let i = at[k];
            match self.found_at(i).job() {
                Ok(j) => out.push(j),
                Err(_) => {
                    assert(false);
                },
            }
            k += 1;
        }
        out
    }
}

} // verus!
