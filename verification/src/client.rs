//! The client: one snapshot of the service's objects, and the questions it answers.
use vstd::prelude::*;
use vstd::string::*;
use crate::block::{reference_is, refers_to};
use crate::catalog::Catalog;
use crate::object::{Object, ObjectView};

verus! {

/// Utility routines for a snapshot of the storage service's objects.
///
/// The objects are held in the order in which the service listed them, and
/// every question is answered by going through them in that order. Nothing
/// is cached between two questions and nothing is changed by one.
///
/// A snapshot maps paths to objects: no two objects of a client have one
/// path, and every interface of an object carries the path of the object.
#[derive(Debug)]
pub struct Client {
    objects: Vec<Object>,
    catalog: Catalog,
}

/// A client as the contracts speak of it.
pub struct ClientView {
    /// The objects of the snapshot, in the order of the scan.
    pub objects: Seq<ObjectView>,
    /// The translations that texts are built from.
    pub catalog: Catalog,
}

impl View for Client {
    type V = ClientView;

    closed spec fn view(&self) -> ClientView {
        ClientView { objects: self.objects@.map_values(|o: Object| o@), catalog: self.catalog }
    }
}

/// The objects of a vector as the contracts speak of them.
pub open spec fn views(objects: Seq<Object>) -> Seq<ObjectView> {
    objects.map_values(|o: Object| o@)
}

/// True when no two of the objects have one path.
pub open spec fn distinct_paths(objects: Seq<ObjectView>) -> bool {
    forall|i: int, j: int| 0 <= i < j < objects.len() ==> objects[i].path != objects[j].path
}

/// True when the objects make up a snapshot: no path occurs twice, and every
/// interface of an object carries the path of the object.
pub open spec fn well_formed(objects: Seq<ObjectView>) -> bool {
    &&& distinct_paths(objects)
    &&& forall|i: int| 0 <= i < objects.len() ==> (#[trigger] objects[i]).bound()
}

/// True when one of the first `upto` objects has the path.
pub open spec fn path_held(objects: Seq<ObjectView>, path: Seq<char>, upto: int) -> bool {
    exists|j: int| 0 <= j < upto && j < objects.len() && (#[trigger] objects[j]).path == path
}

/// Of the first `upto` objects, those whose path no object before them has,
/// in their order: for each path the first object that has it.
pub open spec fn first_of_each_path(objects: Seq<ObjectView>, upto: int) -> Seq<ObjectView>
    decreases upto,
{
    if upto <= 0 {
        Seq::empty()
    } else {
        let before = first_of_each_path(objects, upto - 1);
        if path_held(objects, objects[upto - 1].path, upto - 1) {
            before
        } else {
            before.push(objects[upto - 1])
        }
    }
}

/// Where no path occurs twice, every object is the first of its path.
pub proof fn lemma_distinct_kept_whole(objects: Seq<ObjectView>, upto: int)
    requires
        distinct_paths(objects),
        0 <= upto <= objects.len(),
    ensures
        first_of_each_path(objects, upto) == objects.subrange(0, upto),
    decreases upto,
{
    if upto > 0 {
        lemma_distinct_kept_whole(objects, upto - 1);
    }
    assert(first_of_each_path(objects, upto) =~= objects.subrange(0, upto));
}

/// Tells whether one of the objects has the path.
pub fn holds_path(objects: &Vec<Object>, path: &str) -> (r: bool)
    ensures
        r == path_held(views(objects@), path@, objects@.len() as int),
{
    let mut i: usize = 0;
    while i < objects.len()
        invariant
            i <= objects@.len(),
            forall|j: int| 0 <= j < i ==> (#[trigger] views(objects@)[j]).path != path@,
        decreases objects@.len() - i,
    {
        if objects[i].object_path().as_str().eq(path) {
            assert(views(objects@)[i as int].path == path@);
            return true;
        }
        i += 1;
    }
    false
}

/// Keeps, for each path, the first of the objects that has it, in the order
/// of the objects.
pub fn keep_first_of_each_path(objects: Vec<Object>) -> (r: Vec<Object>)
    ensures
        views(r@) == first_of_each_path(views(objects@), objects@.len() as int),
        well_formed(views(r@)),
        distinct_paths(views(objects@)) ==> views(r@) == views(objects@),
{
    let ghost all = views(objects@);
    let n = objects.len();
    let mut rest = objects;
    let mut kept: Vec<Object> = Vec::new();
    let mut i: usize = 0;
    assert(views(kept@) =~= first_of_each_path(all, 0));
    while i < n
        invariant
            i <= n,
            n == all.len(),
            rest@.len() == n - i,
            views(rest@) =~= all.subrange(i as int, n as int),
            views(kept@) == first_of_each_path(all, i as int),
            well_formed(views(kept@)),
            forall|j: int|
                0 <= j < i ==> path_held(
                    views(kept@),
                    (#[trigger] all[j]).path,
                    kept@.len() as int,
                ),
            forall|k: int|
                0 <= k < kept@.len() ==> path_held(all, (#[trigger] views(kept@)[k]).path, i as int),
        decreases n - i,
    {
        let ghost before = views(kept@);
        let ghost left = views(rest@);
        assert(left[0] == rest@[0]@ && left[0] == all[i as int]);
        let o = rest.remove(0);
        assert(views(rest@) =~= all.subrange(i as int + 1, n as int)) by {
            assert forall|j: int| 0 <= j < rest@.len() implies views(rest@)[j] == all[i as int + 1
                + j] by {
                assert(views(rest@)[j] == left[j + 1]);
            }
        }
        let seen = holds_path(&kept, o.object_path().as_str());
        proof {
            if seen {
                let k = choose|k: int|
                    0 <= k < before.len() && (#[trigger] before[k]).path == o@.path;
                let w = choose|w: int|
                    0 <= w < i && w < all.len() && (#[trigger] all[w]).path == before[k].path;
                assert(all[w].path == all[i as int].path);
            } else {
                if path_held(all, o@.path, i as int) {
                    let w = choose|w: int|
                        0 <= w < i && w < all.len() && (#[trigger] all[w]).path == o@.path;
                    assert(path_held(before, all[w].path, before.len() as int));
                    assert(false);
                }
            }
        }
        if !seen {
            kept.push(o);
            proof {
                let now = views(kept@);
                assert(now =~= before.push(all[i as int]));
                assert forall|a: int, b: int| 0 <= a < b < now.len() implies now[a].path
                    != now[b].path by {
                    if b == now.len() - 1 {
                        assert(now[a] == before[a]);
                    } else {
                        assert(now[a] == before[a] && now[b] == before[b]);
                    }
                }
                assert forall|j: int| 0 <= j < i + 1 implies path_held(
                    now,
                    (#[trigger] all[j]).path,
                    now.len() as int,
                ) by {
                    if j < i {
                        let k = choose|k: int|
                            0 <= k < before.len() && (#[trigger] before[k]).path == all[j].path;
                        assert(now[k].path == all[j].path);
                    } else {
                        assert(now[now.len() - 1].path == all[j].path);
                    }
                }
                assert forall|k: int| 0 <= k < now.len() implies path_held(
                    all,
                    (#[trigger] now[k]).path,
                    i as int + 1,
                ) by {
                    if k < before.len() {
                        assert(now[k] == before[k]);
                        let w = choose|w: int|
                            0 <= w < i && w < all.len() && (#[trigger] all[w]).path
                                == before[k].path;
                        assert(all[w].path == now[k].path);
                    } else {
                        assert(all[i as int].path == now[k].path);
                    }
                }
            }
        } else {
            proof {
                assert forall|j: int| 0 <= j < i + 1 implies path_held(
                    before,
                    (#[trigger] all[j]).path,
                    before.len() as int,
                ) by {
                    if j == i {
                        let k = choose|k: int|
                            0 <= k < before.len() && (#[trigger] before[k]).path == o@.path;
                        assert(before[k].path == all[j].path);
                    }
                }
                assert forall|k: int| 0 <= k < before.len() implies path_held(
                    all,
                    (#[trigger] before[k]).path,
                    i as int + 1,
                ) by {
                    let w = choose|w: int|
                        0 <= w < i && w < all.len() && (#[trigger] all[w]).path == before[k].path;
                    assert(all[w].path == before[k].path);
                }
            }
        }
        i += 1;
    }
    proof {
        if distinct_paths(all) {
            lemma_distinct_kept_whole(all, n as int);
            assert(all.subrange(0, n as int) =~= all);
        }
    }
    kept
}

/// What a scan of the snapshot looks for.
#[derive(Clone, Copy, Debug)]
pub enum Query<'a> {
    /// The object at a path.
    At(&'a str),
    /// Block devices with a device number.
    BlockWithDeviceNumber(u64),
    /// Block devices whose content carries a label.
    BlockWithLabel(&'a str),
    /// Block devices whose content carries a UUID.
    BlockWithUuid(&'a str),
    /// Block devices of the drive at a path that are not partitions.
    TopLevelBlockOf(&'a str),
    /// Block devices that are the cleartext of the encrypted block at a path.
    CleartextOf(&'a str),
    /// Partitions of the partition table at a path.
    PartitionIn(&'a str),
    /// Drives with a sibling id.
    DriveWithSiblingId(&'a str),
    /// Block devices of the array at the path `raid`: its members, or else
    /// the devices that the array runs as.
    RaidBlock {
        /// Path of the array.
        raid: &'a str,
        /// Whether the members of the array are meant.
        members: bool,
        /// Whether block devices that are partitions are left out.
        skip_partitions: bool,
    },
    /// Jobs that work on the object at a path.
    JobOn(&'a str),
}

/// True when one of `paths` is `path`.
pub open spec fn names(paths: Seq<String>, path: Seq<char>) -> bool {
    exists|i: int| 0 <= i < paths.len() && (#[trigger] paths[i])@ == path
}

/// Tells whether one of `paths` is `path`.
pub fn contains_path(paths: &Vec<String>, path: &str) -> (r: bool)
    ensures
        r == names(paths@, path@),
{
    let mut i: usize = 0;
    while i < paths.len()
        invariant
            i <= paths@.len(),
            forall|j: int| 0 <= j < i ==> (#[trigger] paths@[j])@ != path@,
        decreases paths@.len() - i,
    {
        if paths[i].as_str().eq(path) {
            return true;
        }
        i += 1;
    }
    false
}

/// A query as the contracts speak of it: the texts it holds are sequences
/// of characters.
pub enum Scan {
    /// The object at a path.
    At(Seq<char>),
    /// Block devices with a device number.
    BlockWithDeviceNumber(u64),
    /// Block devices whose content carries a label.
    BlockWithLabel(Seq<char>),
    /// Block devices whose content carries a UUID.
    BlockWithUuid(Seq<char>),
    /// Block devices of the drive at a path that are not partitions.
    TopLevelBlockOf(Seq<char>),
    /// Block devices that are the cleartext of the encrypted block at a path.
    CleartextOf(Seq<char>),
    /// Partitions of the partition table at a path.
    PartitionIn(Seq<char>),
    /// Drives with a sibling id.
    DriveWithSiblingId(Seq<char>),
    /// Block devices of the array at the path `raid`.
    RaidBlock {
        /// Path of the array.
        raid: Seq<char>,
        /// Whether the members of the array are meant.
        members: bool,
        /// Whether block devices that are partitions are left out.
        skip_partitions: bool,
    },
    /// Jobs that work on the object at a path.
    JobOn(Seq<char>),
}

impl Scan {
    /// True when the object is one that the query looks for.
    pub open spec fn admits(self, o: ObjectView) -> bool {
        match self {
            Scan::At(path) => o.path == path,
            Scan::BlockWithDeviceNumber(n) => o.block matches Some(b) && b.device_number == Some(
                n,
            ),
            Scan::BlockWithLabel(label) => o.block matches Some(b) && refers_to(b.id_label, label),
            Scan::BlockWithUuid(uuid) => o.block matches Some(b) && refers_to(b.id_uuid, uuid),
            Scan::TopLevelBlockOf(drive) => {
                &&& o.block matches Some(b)
                &&& refers_to(b.drive, drive)
                &&& o.partition is None
            },
            Scan::CleartextOf(path) => o.block matches Some(b) && refers_to(
                b.crypto_backing_device,
                path,
            ),
            Scan::PartitionIn(table) => o.partition matches Some(p) && refers_to(p.table, table),
            Scan::DriveWithSiblingId(id) => o.drive matches Some(d) && d.sibling_id@ == id,
            Scan::RaidBlock { raid, members, skip_partitions } => {
                &&& o.block matches Some(b)
                &&& !(skip_partitions && o.partition is Some)
                &&& refers_to(
                    if members {
                        b.mdraid_member
                    } else {
                        b.mdraid
                    },
                    raid,
                )
            },
            Scan::JobOn(path) => o.job matches Some(j) && names(j.objects@, path),
        }
    }
}

impl<'a> View for Query<'a> {
    type V = Scan;

    open spec fn view(&self) -> Scan {
        match self {
            Query::At(path) => Scan::At(path@),
            Query::BlockWithDeviceNumber(n) => Scan::BlockWithDeviceNumber(*n),
            Query::BlockWithLabel(label) => Scan::BlockWithLabel(label@),
            Query::BlockWithUuid(uuid) => Scan::BlockWithUuid(uuid@),
            Query::TopLevelBlockOf(drive) => Scan::TopLevelBlockOf(drive@),
            Query::CleartextOf(path) => Scan::CleartextOf(path@),
            Query::PartitionIn(table) => Scan::PartitionIn(table@),
            Query::DriveWithSiblingId(id) => Scan::DriveWithSiblingId(id@),
            Query::RaidBlock { raid, members, skip_partitions } => Scan::RaidBlock {
                raid: raid@,
                members: *members,
                skip_partitions: *skip_partitions,
            },
            Query::JobOn(path) => Scan::JobOn(path@),
        }
    }
}

impl<'a> Query<'a> {
    /// Tells whether the object is one that the query looks for.
    pub fn accepts(&self, o: &Object) -> (r: bool)
        ensures
            r == self@.admits(o@),
    {
        match self {
            Query::At(path) => o.object_path().as_str().eq(*path),
            Query::BlockWithDeviceNumber(n) => match o.block() {
                Ok(b) => match b.device_number {
                    Some(m) => m == *n,
                    None => false,
                },
                Err(_) => false,
            },
            Query::BlockWithLabel(label) => match o.block() {
                Ok(b) => reference_is(&b.id_label, *label),
                Err(_) => false,
            },
            Query::BlockWithUuid(uuid) => match o.block() {
                Ok(b) => reference_is(&b.id_uuid, *uuid),
                Err(_) => false,
            },
            Query::TopLevelBlockOf(drive) => match o.block() {
                Ok(b) => reference_is(&b.drive, *drive) && o.partition().is_err(),
                Err(_) => false,
            },
            Query::CleartextOf(path) => match o.block() {
                Ok(b) => reference_is(&b.crypto_backing_device, *path),
                Err(_) => false,
            },
            Query::PartitionIn(table) => match o.partition() {
                Ok(p) => reference_is(&p.table, *table),
                Err(_) => false,
            },
            Query::DriveWithSiblingId(id) => match o.drive() {
                Ok(d) => d.sibling_id.as_str().eq(*id),
                Err(_) => false,
            },
            Query::RaidBlock { raid, members, skip_partitions } => match o.block() {
                Ok(b) => {
                    if *skip_partitions && o.partition().is_ok() {
                        false
                    } else if *members {
                        reference_is(&b.mdraid_member, *raid)
                    } else {
                        reference_is(&b.mdraid, *raid)
                    }
                },
                Err(_) => false,
            },
            Query::JobOn(path) => match o.job() {
                Ok(j) => contains_path(&j.objects, *path),
                Err(_) => false,
            },
        }
    }
}

/// The positions, below `upto` and in rising order, of the objects that the
/// query looks for.
pub open spec fn matching(objects: Seq<ObjectView>, query: Scan, upto: int) -> Seq<int>
    decreases upto,
{
    if upto <= 0 {
        Seq::empty()
    } else {
        let before = matching(objects, query, upto - 1);
        if query.admits(objects[upto - 1]) {
            before.push(upto - 1)
        } else {
            before
        }
    }
}

/// The positions in a vector, as integers.
pub open spec fn positions(v: Seq<usize>) -> Seq<int> {
    v.map_values(|i: usize| i as int)
}

/// The first object that the query looks for, if there is one.
pub open spec fn first(objects: Seq<ObjectView>, query: Scan) -> Option<ObjectView> {
    let all = matching(objects, query, objects.len() as int);
    if all.len() > 0 {
        Some(objects[all[0]])
    } else {
        None
    }
}

/// What a scan yields: every position that the query looks for, or only the
/// first of them.
pub open spec fn picked(objects: Seq<ObjectView>, query: Scan, first_only: bool) -> Seq<int> {
    let all = matching(objects, query, objects.len() as int);
    if first_only && all.len() > 0 {
        seq![all[0]]
    } else {
        all
    }
}

/// The positions that a scan finds are those of the objects that the query
/// looks for, each once and in rising order.
pub proof fn lemma_matching(objects: Seq<ObjectView>, query: Scan, upto: int)
    requires
        0 <= upto <= objects.len(),
    ensures
        forall|j: int|
            0 <= j < matching(objects, query, upto).len() ==> {
                &&& 0 <= #[trigger] matching(objects, query, upto)[j] < upto
                &&& query.admits(objects[matching(objects, query, upto)[j]])
            },
        forall|j: int, k: int|
            0 <= j < k < matching(objects, query, upto).len() ==> matching(objects, query, upto)[j]
                < matching(objects, query, upto)[k],
        forall|i: int|
            0 <= i < upto && query.admits(objects[i]) ==> matching(objects, query, upto).contains(
                i,
            ),
    decreases upto,
{
    if upto > 0 {
        lemma_matching(objects, query, upto - 1);
        let before = matching(objects, query, upto - 1);
        let now = matching(objects, query, upto);
        if query.admits(objects[upto - 1]) {
            assert forall|i: int| 0 <= i < upto && query.admits(objects[i]) implies now.contains(
                i,
            ) by {
                if i < upto - 1 {
                    assert(before.contains(i));
                    let j = choose|j: int| 0 <= j < before.len() && before[j] == i;
                    assert(now[j] == i);
                } else {
                    assert(now[now.len() - 1] == i);
                }
            }
        }
    }
}

/// A longer scan begins with what a shorter one found.
pub proof fn lemma_matching_grows(objects: Seq<ObjectView>, query: Scan, i: int, upto: int)
    requires
        0 <= i <= upto,
    ensures
        matching(objects, query, i).len() <= matching(objects, query, upto).len(),
        forall|j: int|
            0 <= j < matching(objects, query, i).len() ==> matching(objects, query, upto)[j]
                == matching(objects, query, i)[j],
    decreases upto - i,
{
    if i < upto {
        lemma_matching_grows(objects, query, i, upto - 1);
    }
}

impl Client {
    #[verifier::type_invariant]
    spec fn is_snapshot(self) -> bool {
        well_formed(views(self.objects@))
    }

    /// A client for the given objects that shows every text as the source
    /// writes it. Where several objects have one path, the first of them is
    /// kept.
    pub fn untranslated(objects: Vec<Object>) -> (r: Client)
        ensures
            r@.objects == first_of_each_path(views(objects@), objects@.len() as int),
            distinct_paths(views(objects@)) ==> r@.objects == views(objects@),
            well_formed(r@.objects),
            r@.catalog.entries@.len() == 0,
    {
        Client { objects: keep_first_of_each_path(objects), catalog: Catalog::untranslated() }
    }

    /// A client for the given objects that draws its texts from `catalog`.
    /// Where several objects have one path, the first of them is kept.
    pub fn with_catalog(objects: Vec<Object>, catalog: Catalog) -> (r: Client)
        ensures
            r@.objects == first_of_each_path(views(objects@), objects@.len() as int),
            distinct_paths(views(objects@)) ==> r@.objects == views(objects@),
            well_formed(r@.objects),
            r@.catalog == catalog,
    {
        Client { objects: keep_first_of_each_path(objects), catalog }
    }

    /// Returns the objects of the snapshot, in the order of the scan. No two
    /// of them have one path.
    pub fn object_manager(&self) -> (r: &Vec<Object>)
        ensures
            views(r@) == self@.objects,
            well_formed(self@.objects),
    {
        proof {
            use_type_invariant(self);
        }
        &self.objects
    }

    /// Returns the translations that the client draws on.
    pub fn catalog(&self) -> (r: &Catalog)
        ensures
            *r == self@.catalog,
    {
        &self.catalog
    }

    /// Goes through the snapshot and returns the positions of the objects
    /// that `query` looks for, in the order of the scan. With `first_only`
    /// the scan stops at the first of them.
    pub fn select(&self, query: &Query, first_only: bool) -> (r: Vec<usize>)
        ensures
            positions(r@) == picked(self@.objects, query@, first_only),
            forall|j: int|
                0 <= j < r@.len() ==> (#[trigger] r@[j]) < self@.objects.len() && query@.admits(
                    self@.objects[r@[j] as int],
                ),
    {
        let mut found: Vec<usize> = Vec::new();
        let mut i: usize = 0;
        let n = self.objects.len();
        proof {
            lemma_matching(self@.objects, query@, n as int);
        }
        while i < n
            invariant
                n == self.objects@.len(),
                n == self@.objects.len(),
                i <= n,
                positions(found@) =~= matching(self@.objects, query@, i as int),
                first_only ==> found@.len() == 0,
            decreases n - i,
        {
            let o = &self.objects[i];
            if query.accepts(o) {
                found.push(i);
                if first_only {
                    proof {
                        lemma_matching_grows(self@.objects, query@, i as int + 1, n as int);
                        lemma_matching(self@.objects, query@, i as int + 1);
                    }
                    return found;
                }
            }
            i += 1;
        }
        proof {
            lemma_matching(self@.objects, query@, n as int);
            assert forall|j: int| 0 <= j < found@.len() implies (#[trigger] found@[j])
                < self@.objects.len() && query@.admits(self@.objects[found@[j] as int]) by {
                assert(positions(found@)[j] == found@[j] as int);
            }
        }
        found
    }

    /// The object at position `i` of the scan, if the snapshot holds so many.
    pub fn object_at(&self, i: usize) -> (r: Option<&Object>)
        ensures
            match r {
                Some(o) => i < self@.objects.len() && o@ == self@.objects[i as int],
                None => i >= self@.objects.len(),
            },
    {
        if i < self.objects.len() {
            Some(&self.objects[i])
        } else {
            None
        }
    }

    /// The object at a position that a scan has found.
    pub(crate) fn found_at(&self, i: usize) -> (r: &Object)
        requires
            i < self@.objects.len(),
        ensures
            r@ == self@.objects[i as int],
    {
        &self.objects[i]
    }

    /// Convenience function for looking up the object at `object_path`: the
    /// first of the snapshot with that path, if there is one.
    pub fn object(&self, object_path: &str) -> (r: Option<&Object>)
        ensures
            match r {
                Some(o) => first(self@.objects, Scan::At(object_path@)) == Some(o@),
                None => first(self@.objects, Scan::At(object_path@)) is None,
            },
    {
        let at = self.select(&Query::At(object_path), true);
        if at.len() > 0 {
            let i = at[0];
            assert(positions(at@)[0] == i as int);
            Some(&self.objects[i])
        } else {
            assert(positions(at@).len() == 0);
            None
        }
    }
}

} // verus!
