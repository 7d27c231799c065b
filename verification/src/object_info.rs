//! What an object is shown as: name, description, icons, a one-line summary
//! and a key to sort by.
//!
//! An object is presented as a drive, a RAID array, a loop device or a plain
//! block device, by the interfaces it exposes. Each text is built from the
//! properties of the object and from the translations of the client's
//! catalog; nothing else enters.
use vstd::prelude::*;
use vstd::string::*;
use crate::block::Block;
use crate::catalog::{Catalog, Domain};
use crate::client::{first, Client, ClientView, Scan};
use crate::drive::{Drive, MediaCompatibility, RotationRate};
use crate::loopdev::Loop;
use crate::manager::RaidLevel;
use crate::mdraid::MDRaid;
use crate::media::{media_data, media_data_at, DriveType, MediaData, MEDIA_DATA_LEN};
use crate::object::{Object, ObjectView};
use crate::partition::Partition;
use crate::resolve::{drive_of, first_block, mdraid_of};
use crate::size::size_text;
use crate::text::{
    after_first, after_first_of, chars_of, decimal, decimal_string, fill, last_segment,
    last_segment_of, or_empty,
    replace_first, replace_marker, text_or_empty,
};

verus! {

/// Icon
///
/// Represents an icon that can be looked up from an icon theme.
/// An icon may have an symbolic version as well.
#[derive(Debug, Default, Clone)]
pub struct Icon {
    name: Option<String>,
    name_symbolic: Option<String>,
}

/// An icon as the contracts speak of it.
pub struct IconView {
    /// Name of the icon.
    pub name: Option<Seq<char>>,
    /// Name of the symbolic icon.
    pub name_symbolic: Option<Seq<char>>,
}

impl IconView {
    /// The icon with each name that is missing taken from `other`.
    pub open spec fn or(self, other: IconView) -> IconView {
        IconView {
            name: if self.name is Some {
                self.name
            } else {
                other.name
            },
            name_symbolic: if self.name_symbolic is Some {
                self.name_symbolic
            } else {
                other.name_symbolic
            },
        }
    }

    /// The icon of the two names.
    pub open spec fn of(name: Seq<char>, name_symbolic: Seq<char>) -> IconView {
        IconView { name: Some(name), name_symbolic: Some(name_symbolic) }
    }
}

impl View for Icon {
    type V = IconView;

    closed spec fn view(&self) -> IconView {
        IconView { name: chars_of(self.name), name_symbolic: chars_of(self.name_symbolic) }
    }
}

impl Icon {
    /// An icon of the two names given.
    pub fn new(name: Option<String>, name_symbolic: Option<String>) -> (r: Icon)
        ensures
            r@ == (IconView { name: chars_of(name), name_symbolic: chars_of(name_symbolic) }),
    {
        Self { name, name_symbolic }
    }

    /// An icon without names.
    pub fn none() -> (r: Icon)
        ensures
            r@ == (IconView { name: None, name_symbolic: None }),
    {
        Self { name: None, name_symbolic: None }
    }

    /// Gives the icon each of the two names that it lacks.
    pub fn set_if_none(&mut self, icon: String, icon_symbolic: String)
        ensures
            final(self)@ == old(self)@.or(IconView::of(icon@, icon_symbolic@)),
    {
        if self.name.is_none() {
            self.name = Some(icon);
        }
        if self.name_symbolic.is_none() {
            self.name_symbolic = Some(icon_symbolic);
        }
    }

    /// Sets the name of the icon.
    pub fn set_name(&mut self, icon: String)
        ensures
            final(self)@ == (IconView { name: Some(icon@), ..old(self)@ }),
    {
        self.name = Some(icon);
    }

    /// Sets the name of the symbolic icon.
    pub fn set_name_symbolic(&mut self, icon_symbolic: String)
        ensures
            final(self)@ == (IconView { name_symbolic: Some(icon_symbolic@), ..old(self)@ }),
    {
        self.name_symbolic = Some(icon_symbolic);
    }

    /// Name of the icon.
    ///
    /// If the [`Object`] has no associated icon, None is returned.
    pub fn name(&self) -> (r: Option<&String>)
        ensures
            match r {
                Some(s) => self@.name == Some(s@),
                None => self@.name is None,
            },
    {
        self.name.as_ref()
    }

    /// Name of the symbolic icon.
    ///
    /// If the [`Object`] has no associated symbolic icon, None is returned.
    pub fn name_symbolic(&self) -> (r: Option<&String>)
        ensures
            match r {
                Some(s) => self@.name_symbolic == Some(s@),
                None => self@.name_symbolic is None,
            },
    {
        self.name_symbolic.as_ref()
    }
}

/// Detailed information about the interfaces on an [`Object`] that is
/// suitable to display in an user interface.
#[derive(Debug, Clone)]
pub struct ObjectInfo<'a> {
    /// The [`Object`] that the info is about
    pub object: &'a Object,
    /// Name of the object
    pub name: Option<String>,
    /// Description of the object
    pub description: Option<String>,
    /// Icon associated with the object
    ///
    /// The icon may be influenced by the hints of a block device.
    pub icon: Icon,
    /// Description of media associated with the object
    pub media_description: Option<String>,
    /// Icon associated with media
    ///
    /// The icon may be influenced by the hints of a block device.
    pub media_icon: Icon,
    /// Single-line description
    ///
    /// A single line string, containing enough detail to be used as a comprehensive
    /// representation of the `object`. For instance, in the case of block devices
    /// or drives, it includes critical information like the device's special file
    /// path, such as `/dev/sda`.
    pub one_liner: Option<String>,
    /// Sort key
    ///
    /// This can be used to sort objects.
    pub sort_key: Option<String>,
}

/// The texts and icons of an [`ObjectInfo`].
pub struct InfoView {
    /// Name of the object.
    pub name: Option<Seq<char>>,
    /// Description of the object.
    pub description: Option<Seq<char>>,
    /// Icon associated with the object.
    pub icon: IconView,
    /// Description of media associated with the object.
    pub media_description: Option<Seq<char>>,
    /// Icon associated with media.
    pub media_icon: IconView,
    /// Single-line description.
    pub one_liner: Option<Seq<char>>,
    /// Sort key.
    pub sort_key: Option<Seq<char>>,
}

impl InfoView {
    /// The information that says nothing.
    pub open spec fn blank() -> InfoView {
        InfoView {
            name: None,
            description: None,
            icon: IconView { name: None, name_symbolic: None },
            media_description: None,
            media_icon: IconView { name: None, name_symbolic: None },
            one_liner: None,
            sort_key: None,
        }
    }
}

impl<'a> View for ObjectInfo<'a> {
    type V = InfoView;

    open spec fn view(&self) -> InfoView {
        InfoView {
            name: chars_of(self.name),
            description: chars_of(self.description),
            icon: self.icon@,
            media_description: chars_of(self.media_description),
            media_icon: self.media_icon@,
            one_liner: chars_of(self.one_liner),
            sort_key: chars_of(self.sort_key),
        }
    }
}

/// The number of the partition, or 0 for a whole device.
pub open spec fn partition_number(partition: Option<&Partition>) -> nat {
    match partition {
        Some(p) => p.number as nat,
        None => 0,
    }
}

/// A description, wrapped where it is that of a partition: the partition's
/// number takes the place of `%u` in the catalog's text for
/// `Partition %u of %s`, and the description that of `%s`.
pub open spec fn wrapped(
    catalog: Catalog,
    context: Seq<char>,
    description: Seq<char>,
    partition: Option<&Partition>,
) -> Seq<char> {
    match partition {
        Some(p) => fill(
            replace_first(
                catalog.text(Domain::Default, Some(context), "Partition %u of %s"@),
                'u',
                decimal(p.number as nat),
            ),
            seq![description],
        ),
        None => description,
    }
}

/// A description of a device by its kind, with its size before it where the
/// size is known.
pub open spec fn sized(
    catalog: Catalog,
    size: Option<u64>,
    with_size: Seq<char>,
    without: Seq<char>,
) -> Seq<char> {
    match size {
        Some(n) => fill(
            catalog.text(Domain::Default, None, with_size),
            seq![size_text(catalog, n as nat, false)],
        ),
        None => catalog.text(Domain::Default, None, without),
    }
}

/// A sort key: the prefix of the category, what tells the object from others
/// of the category, an underscore and the partition number.
pub open spec fn numbered_key(prefix: Seq<char>, segment: Seq<char>, number: nat) -> Seq<char> {
    prefix + segment + seq!['_'] + decimal(number)
}

/// Description of a plain block device.
pub open spec fn block_description(
    catalog: Catalog,
    block: Block,
    partition: Option<&Partition>,
) -> Seq<char> {
    wrapped(
        catalog,
        "part-block"@,
        sized(catalog, block.size, "%s Block Device"@, "Block Device"@),
        partition,
    )
}

/// What a plain block device is shown as. The media fields stay as they were.
pub open spec fn block_info(
    catalog: Catalog,
    before: InfoView,
    path: Seq<char>,
    block: Block,
    partition: Option<&Partition>,
) -> InfoView {
    InfoView {
        name: chars_of(block.preferred_device),
        description: Some(block_description(catalog, block, partition)),
        icon: IconView::of("drive-removable-media"@, "drive-removable-media-symbolic"@),
        one_liner: Some(
            catalog.filled(
                Some("one-liner-block"@),
                "%s (%s)"@,
                seq![
                    block_description(catalog, block, partition),
                    or_empty(block.preferred_device),
                ],
            ),
        ),
        sort_key: Some(
            numbered_key("02_block_"@, last_segment(path, '/'), partition_number(partition)),
        ),
        ..before
    }
}

/// Description of a loop device.
pub open spec fn loop_description(
    catalog: Catalog,
    block: Block,
    partition: Option<&Partition>,
) -> Seq<char> {
    wrapped(
        catalog,
        "part-loop"@,
        sized(catalog, block.size, "%s Loop Device"@, "Loop Device"@),
        partition,
    )
}

/// What a loop device is shown as. The media fields stay as they were.
pub open spec fn loop_info(
    catalog: Catalog,
    before: InfoView,
    path: Seq<char>,
    device: Loop,
    block: Block,
    partition: Option<&Partition>,
) -> InfoView {
    InfoView {
        name: chars_of(device.backing_file),
        description: Some(loop_description(catalog, block, partition)),
        icon: IconView::of("drive-removable-media"@, "drive-removable-media-symbolic"@),
        one_liner: Some(
            catalog.filled(
                Some("one-liner-loop"@),
                "%s \u{2014} %s (%s)"@,
                seq![
                    loop_description(catalog, block, partition),
                    or_empty(device.backing_file),
                    or_empty(block.preferred_device),
                ],
            ),
        ),
        sort_key: Some(
            numbered_key("03_loop_"@, last_segment(path, '/'), partition_number(partition)),
        ),
        ..before
    }
}

/// The words for the level of an array, as the source writes them.
pub open spec fn level_label(level: Option<RaidLevel>) -> Seq<char> {
    match level {
        Some(RaidLevel::Raid0) => "RAID-0 Array"@,
        Some(RaidLevel::Raid1) => "RAID-1 Array"@,
        Some(RaidLevel::Raid4) => "RAID-4 Array"@,
        Some(RaidLevel::Raid5) => "RAID-5 Array"@,
        Some(RaidLevel::Raid6) => "RAID-6 Array"@,
        Some(RaidLevel::Raid10) => "RAID-10 Array"@,
        None => "RAID Array"@,
    }
}

/// The words for the level of an array, as the catalog gives them.
pub open spec fn level_text(catalog: Catalog, level: Option<RaidLevel>) -> Seq<char> {
    catalog.text(Domain::Default, Some("mdraid-desc"@), level_label(level))
}

/// Description of an array: its size, where known, and its level.
pub open spec fn mdraid_description(
    catalog: Catalog,
    mdraid: MDRaid,
    partition: Option<&Partition>,
) -> Seq<char> {
    wrapped(
        catalog,
        "part-raid"@,
        match mdraid.size {
            Some(n) => catalog.filled(
                Some("mdraid-desc"@),
                "%s %s"@,
                seq![size_text(catalog, n as nat, false), level_text(catalog, mdraid.level)],
            ),
            None => level_text(catalog, mdraid.level),
        },
        partition,
    )
}

/// The one-line summary of an array. It has four forms, by whether the array
/// has a name and whether it runs, that is, has a block device.
pub open spec fn mdraid_one_liner(
    catalog: Catalog,
    name: Seq<char>,
    description: Seq<char>,
    device: Option<Block>,
) -> Seq<char> {
    if name.len() > 0 {
        match device {
            Some(b) => catalog.filled(
                Some("one-liner-mdraid-running"@),
                "%s \u{2014} %s (%s)"@,
                seq![name, description, or_empty(b.preferred_device)],
            ),
            None => catalog.filled(
                Some("one-liner-mdraid-not-running"@),
                "%s \u{2014} %s"@,
                seq![name, description],
            ),
        }
    } else {
        match device {
            Some(b) => catalog.filled(
                Some("one-liner-mdraid-no-name-running"@),
                "%s \u{2014} %s"@,
                seq![description, or_empty(b.preferred_device)],
            ),
            None => catalog.filled(
                Some("one-liner-mdraid-no-name-not-running"@),
                "%s"@,
                seq![description],
            ),
        }
    }
}

/// Name of an array: the name that the service gives, without the host
/// that may stand before it. What follows the first `:` is kept whole; a
/// name without `:` is kept as it is.
pub open spec fn mdraid_name(mdraid: MDRaid) -> Seq<char> {
    after_first(mdraid.name@, ':')
}

/// What an array is shown as. The media fields stay as they were.
pub open spec fn mdraid_info(
    client: ClientView,
    before: InfoView,
    mdraid: MDRaid,
    partition: Option<&Partition>,
) -> InfoView {
    InfoView {
        name: Some(mdraid_name(mdraid)),
        description: Some(mdraid_description(client.catalog, mdraid, partition)),
        icon: IconView::of("drive-multidisk"@, "drive-multidisk-symbolic"@),
        one_liner: Some(
            mdraid_one_liner(
                client.catalog,
                mdraid_name(mdraid),
                mdraid_description(client.catalog, mdraid, partition),
                first_block(
                    client.objects,
                    Scan::RaidBlock { raid: mdraid.path@, members: false, skip_partitions: true },
                ),
            ),
        ),
        sort_key: Some(numbered_key("01_mdraid_"@, mdraid.uuid@, partition_number(partition))),
        ..before
    }
}

/// Returns the number of the partition, or 0 for a whole device.
pub fn number_of(partition: Option<&Partition>) -> (r: u32)
    ensures
        r == partition_number(partition),
{
    match partition {
        Some(p) => p.number,
        None => 0,
    }
}

/// Builds a sort key.
pub fn build_key(prefix: &str, segment: &str, number: u32) -> (r: String)
    ensures
        r@ == numbered_key(prefix@, segment@, number as nat),
{
    proof {
        reveal_strlit("_");
    }
    let mut key = prefix.to_owned();
    key.append(segment);
    key.append("_");
    key.append(decimal_string(number as u64).as_str());
    key
}

impl Client {
    /// Wraps a description where it is that of a partition.
    pub fn wrap_description(
        &self,
        context: &str,
        description: String,
        partition: Option<&Partition>,
    ) -> (r: String)
        ensures
            r@ == wrapped(self@.catalog, context@, description@, partition),
    {
        match partition {
            Some(p) => {
                let text = self.catalog().lookup(
                    Domain::Default,
                    Some(context),
                    "Partition %u of %s",
                );
                let numbered = replace_marker(text, 'u', decimal_string(p.number as u64).as_str());
                let r = replace_marker(numbered.as_str(), 's', description.as_str());
                proof {
                    crate::catalog::lemma_fill_1(numbered@, description@);
                }
                r
            },
            None => description,
        }
    }

    /// Describes a device by its kind, with its size before it where the
    /// size is known.
    pub fn describe_sized(&self, size: Option<u64>, with_size: &str, without: &str) -> (r: String)
        ensures
            r@ == sized(self@.catalog, size, with_size@, without@),
    {
        match size {
            Some(n) => {
                let words = self.size_for_display(n, false, false);
                let text = self.catalog().lookup(Domain::Default, None, with_size);
                let r = replace_marker(text, 's', words.as_str());
                proof {
                    crate::catalog::lemma_fill_1(text@, words@);
                }
                r
            },
            None => self.catalog().lookup(Domain::Default, None, without).to_owned(),
        }
    }
}

impl<'a> ObjectInfo<'a> {
    /// Information about `object` that says nothing yet.
    pub fn new(object: &'a Object) -> (r: Self)
        ensures
            r.object == object,
            r@ == InfoView::blank(),
    {
        Self {
            object,
            name: None,
            description: None,
            icon: Icon::none(),
            media_description: None,
            media_icon: Icon::none(),
            one_liner: None,
            sort_key: None,
        }
    }

    /// Fills in what a plain block device is shown as.
    pub fn info_for_block(
        &mut self,
        client: &Client,
        block: &Block,
        partition: Option<&Partition>,
    )
        ensures
            final(self).object == old(self).object,
            final(self)@ == block_info(
                client@.catalog,
                old(self)@,
                old(self).object@.path,
                *block,
                partition,
            ),
    {
        self.icon = Icon::new(
            Some("drive-removable-media".to_owned()),
            Some("drive-removable-media-symbolic".to_owned()),
        );
        self.name = block.preferred_device.clone();
        let plain = client.describe_sized(block.size, "%s Block Device", "Block Device");
        let description = client.wrap_description("part-block", plain, partition);
        self.one_liner = Some(
            client.catalog().format2(
                "one-liner-block",
                "%s (%s)",
                description.as_str(),
                text_or_empty(&block.preferred_device),
            ),
        );
        self.description = Some(description);
        let segment = last_segment_of(self.object.object_path().as_str(), '/');
        self.sort_key = Some(build_key("02_block_", segment.as_str(), number_of(partition)));
    }
}

impl<'a> ObjectInfo<'a> {
    /// Fills in what a loop device is shown as.
    pub fn info_for_loop(
        &mut self,
        client: &Client,
        loop_device: &Loop,
        block: &Block,
        partition: Option<&Partition>,
    )
        ensures
            final(self).object == old(self).object,
            final(self)@ == loop_info(
                client@.catalog,
                old(self)@,
                old(self).object@.path,
                *loop_device,
                *block,
                partition,
            ),
    {
        self.icon = Icon::new(
            Some("drive-removable-media".to_owned()),
            Some("drive-removable-media-symbolic".to_owned()),
        );
        self.name = loop_device.backing_file.clone();
        let plain = client.describe_sized(block.size, "%s Loop Device", "Loop Device");
        let description = client.wrap_description("part-loop", plain, partition);
        self.one_liner = Some(
            client.catalog().format3(
                "one-liner-loop",
                "%s \u{2014} %s (%s)",
                description.as_str(),
                text_or_empty(&loop_device.backing_file),
                text_or_empty(&block.preferred_device),
            ),
        );
        self.description = Some(description);
        let segment = last_segment_of(self.object.object_path().as_str(), '/');
        self.sort_key = Some(build_key("03_loop_", segment.as_str(), number_of(partition)));
    }

    /// The words for the level of an array.
    pub fn format_level(client: &Client, level: Option<RaidLevel>) -> (r: String)
        ensures
            r@ == level_text(client@.catalog, level),
    {
        let label = match level {
            Some(RaidLevel::Raid0) => "RAID-0 Array",
            Some(RaidLevel::Raid1) => "RAID-1 Array",
            Some(RaidLevel::Raid4) => "RAID-4 Array",
            Some(RaidLevel::Raid5) => "RAID-5 Array",
            Some(RaidLevel::Raid6) => "RAID-6 Array",
            Some(RaidLevel::Raid10) => "RAID-10 Array",
            None => "RAID Array",
        };
        client.catalog().lookup(Domain::Default, Some("mdraid-desc"), label).to_owned()
    }

    /// Fills in what an array is shown as.
    pub fn info_for_mdraid(
        &mut self,
        client: &Client,
        mdraid: &MDRaid,
        partition: Option<&Partition>,
    )
        ensures
            final(self).object == old(self).object,
            final(self)@ == mdraid_info(client@, old(self)@, *mdraid, partition),
    {
        let name = after_first_of(mdraid.name.as_str(), ':');
        self.icon = Icon::new(
            Some("drive-multidisk".to_owned()),
            Some("drive-multidisk-symbolic".to_owned()),
        );
        let level = Self::format_level(client, mdraid.level);
        let plain = match mdraid.size {
            Some(n) => {
                let size = client.size_for_display(n, false, false);
                client.catalog().format2("mdraid-desc", "%s %s", size.as_str(), level.as_str())
            },
            None => level,
        };
        let description = client.wrap_description("part-raid", plain, partition);
        let block = client.block_for_mdraid(mdraid);
        let one_liner = if !name.as_str().is_empty() {
            match block {
                Some(b) => client.catalog().format3(
                    "one-liner-mdraid-running",
                    "%s \u{2014} %s (%s)",
                    name.as_str(),
                    description.as_str(),
                    text_or_empty(&b.preferred_device),
                ),
                None => client.catalog().format2(
                    "one-liner-mdraid-not-running",
                    "%s \u{2014} %s",
                    name.as_str(),
                    description.as_str(),
                ),
            }
        } else {
            match block {
                Some(b) => client.catalog().format2(
                    "one-liner-mdraid-no-name-running",
                    "%s \u{2014} %s",
                    description.as_str(),
                    text_or_empty(&b.preferred_device),
                ),
                None => client.catalog().format1(
                    "one-liner-mdraid-no-name-not-running",
                    "%s",
                    description.as_str(),
                ),
            }
        };
        self.one_liner = Some(one_liner);
        self.name = Some(name);
        self.description = Some(description);
        self.sort_key = Some(
            build_key("01_mdraid_", mdraid.uuid.as_str(), number_of(partition)),
        );
    }
}

/// Name of a drive: vendor and model, with a space between them where the
/// vendor is known.
pub open spec fn drive_name(drive: Drive) -> Seq<char> {
    if drive.vendor@.len() == 0 {
        drive.model@
    } else {
        drive.vendor@.push(' ') + drive.model@
    }
}

/// True when the drive can take the media of row `i` of the table of known media.
pub open spec fn takes(drive: Drive, i: int) -> bool {
    drive.media_compatibility@.contains(media_data(i).id)
}

/// The first row below `upto` whose media the drive can take.
pub open spec fn first_taken(drive: Drive, upto: int) -> Option<int>
    decreases upto,
{
    if upto <= 0 {
        None
    } else {
        match first_taken(drive, upto - 1) {
            Some(i) => Some(i),
            None => if takes(drive, upto - 1) {
                Some(upto - 1)
            } else {
                None
            },
        }
    }
}

/// The last row below `upto` whose media the drive can take.
pub open spec fn last_taken(drive: Drive, upto: int) -> Option<int>
    decreases upto,
{
    if upto <= 0 {
        None
    } else if takes(drive, upto - 1) {
        Some(upto - 1)
    } else {
        last_taken(drive, upto - 1)
    }
}

/// The first row below `upto` that is about the kind of media `media`.
pub open spec fn first_media(media: MediaCompatibility, upto: int) -> Option<int>
    decreases upto,
{
    if upto <= 0 {
        None
    } else {
        match first_media(media, upto - 1) {
            Some(i) => Some(i),
            None => if media_data(upto - 1).id == media {
                Some(upto - 1)
            } else {
                None
            },
        }
    }
}

/// True when a row below `upto` whose media the drive can take belongs to
/// the family.
pub open spec fn family_named(drive: Drive, family: Seq<char>, upto: int) -> bool {
    exists|j: int| 0 <= j < upto && #[trigger] takes(drive, j) && media_data(j).media_family@ == family
}

/// The families of media that the drive can take, each named once, in the
/// order of the table's first `upto` rows, with `/` between them.
pub open spec fn families(catalog: Catalog, drive: Drive, upto: int) -> Seq<char>
    decreases upto,
{
    if upto <= 0 {
        Seq::empty()
    } else {
        let before = families(catalog, drive, upto - 1);
        let row = media_data(upto - 1);
        if takes(drive, upto - 1) && !family_named(drive, row.media_family@, upto - 1) {
            (if before.len() > 0 {
                before.push('/')
            } else {
                before
            }) + catalog.text(Domain::Default, Some("media-type"@), row.media_family@)
        } else {
            before
        }
    }
}

/// What the media of a row is called: its name, and the word for its kind.
pub open spec fn media_words(catalog: Catalog, row: MediaData) -> Seq<char> {
    let name = catalog.text(Domain::Package, Some("media-type"@), row.media_name@);
    match row.media_type {
        DriveType::Drive => catalog.filled(
            Some("drive-with-fixed-media"@),
            "%s Drive"@,
            seq![name],
        ),
        DriveType::Disk => catalog.filled(
            Some("drive-with-generic-media"@),
            "%s Disk"@,
            seq![name],
        ),
        DriveType::Card => catalog.filled(Some("flash-media"@), "%s Card"@, seq![name]),
        DriveType::Disc => catalog.filled(Some("optical-media"@), "%s Disc"@, seq![name]),
    }
}

/// The row that is about the media in the drive, where the drive holds media
/// that can be taken out.
pub open spec fn media_row(drive: Drive) -> Option<int> {
    if drive.media_removable && drive.media_available {
        first_media(drive.media, MEDIA_DATA_LEN as int)
    } else {
        None
    }
}

/// A text of the default domain without arguments.
pub open spec fn plain_text(catalog: Catalog, context: Seq<char>, msgid: Seq<char>) -> Seq<char> {
    catalog.text(Domain::Default, Some(context), msgid)
}

/// Description of a drive by what is known of it, before any hint.
///
/// A drive of a known family whose size is known is described by its size
/// and its families; one whose size is not known by its families alone, as
/// a card reader where its media are cards. A drive of no known family is
/// described as a drive, as a disk or as a hard disk, by whether its media
/// can be taken out and whether it rotates, with its size where known.
pub open spec fn plain_drive_description(catalog: Catalog, drive: Drive) -> Seq<char> {
    let words = families(catalog, drive, MEDIA_DATA_LEN as int);
    match last_taken(drive, MEDIA_DATA_LEN as int) {
        None => {
            let (context, with_size, without) = if drive.media_removable {
                ("drive-with-size"@, "%s Drive"@, plain_text(catalog, "generic-drive"@, "Drive"@))
            } else if drive.rotation_rate == RotationRate::NonRotating {
                (
                    "disk-non-rotational"@,
                    "%s Disk"@,
                    plain_text(catalog, "disk-non-rotational"@, "Disk"@),
                )
            } else {
                ("disk-hdd"@, "%s Hard Disk"@, plain_text(catalog, "disk-hdd"@, "Hard Disk"@))
            };
            match drive.size {
                Some(n) => catalog.filled(
                    Some(context),
                    with_size,
                    seq![size_text(catalog, n as nat, false)],
                ),
                None => without,
            }
        },
        Some(i) => match drive.size {
            Some(n) => catalog.filled(
                Some("drive-with-size-and-type"@),
                "%s %s Drive"@,
                seq![size_text(catalog, n as nat, false), words],
            ),
            None => if media_data(i).media_type == DriveType::Card {
                catalog.filled(Some("drive-card-reader"@), "%s Card Reader"@, seq![words])
            } else {
                catalog.filled(Some("drive-with-type"@), "%s Drive"@, seq![words])
            },
        },
    }
}

/// The hint, where the block device carries one; else the text.
pub open spec fn hinted_text(text: Option<Seq<char>>, block: Option<Block>) -> Option<Seq<char>> {
    match block {
        Some(b) => if b.hint_name@.len() > 0 {
            Some(b.hint_name@)
        } else {
            text
        },
        None => text,
    }
}

/// The icon with each name replaced for which the block device carries a hint.
pub open spec fn hinted_icon(icon: IconView, block: Option<Block>) -> IconView {
    match block {
        Some(b) => IconView {
            name: if b.hint_icon_name@.len() > 0 {
                Some(b.hint_icon_name@)
            } else {
                icon.name
            },
            name_symbolic: if b.hint_symbolic_icon_name@.len() > 0 {
                Some(b.hint_symbolic_icon_name@)
            } else {
                icon.name_symbolic
            },
        },
        None => icon,
    }
}

/// Description of a drive: the hint of its block device where there is one,
/// else what is known of the drive; wrapped where it is that of a partition.
pub open spec fn drive_description(
    catalog: Catalog,
    drive: Drive,
    block: Option<Block>,
    partition: Option<&Partition>,
) -> Seq<char> {
    wrapped(
        catalog,
        "part-drive"@,
        hinted_text(Some(plain_drive_description(catalog, drive)), block)->0,
        partition,
    )
}

/// The bus of the drive with a hyphen before it; empty when the bus is unknown.
pub open spec fn hyphenated_bus(drive: Drive) -> Seq<char> {
    if drive.connection_bus@.len() > 0 {
        seq!['-'] + drive.connection_bus@
    } else {
        Seq::empty()
    }
}

/// The icon of a drive of no known family: by whether its media can be taken
/// out and whether it rotates, and by its bus.
pub open spec fn fallback_icon(drive: Drive) -> IconView {
    let base = if drive.media_removable {
        "drive-removable-media"@
    } else if drive.rotation_rate == RotationRate::NonRotating {
        "drive-harddisk-solidstate"@
    } else {
        "drive-harddisk"@
    };
    IconView::of(base + hyphenated_bus(drive), base + hyphenated_bus(drive) + "-symbolic"@)
}

/// The icon that the table gives a drive: that of the first row whose media
/// the drive can take.
pub open spec fn table_icon(drive: Drive) -> IconView {
    match first_taken(drive, MEDIA_DATA_LEN as int) {
        Some(i) => IconView::of(media_data(i).drive_icon@, media_data(i).drive_icon_symbolic@),
        None => IconView { name: None, name_symbolic: None },
    }
}

/// The icon that the table gives the media in a drive.
pub open spec fn table_media_icon(drive: Drive) -> IconView {
    match media_row(drive) {
        Some(i) => IconView::of(media_data(i).media_icon@, media_data(i).media_icon_symbolic@),
        None => IconView { name: None, name_symbolic: None },
    }
}

/// Icon of a drive: each name is the hint of the block device, else what it
/// was, else that of the table, else that of the fallback.
pub open spec fn drive_icon(before: IconView, drive: Drive, block: Option<Block>) -> IconView {
    hinted_icon(before.or(table_icon(drive)).or(fallback_icon(drive)), block)
}

/// Icon of the media in a drive, chosen as that of the drive is; the
/// fallback applies only where the drive holds media.
pub open spec fn drive_media_icon(before: IconView, drive: Drive, block: Option<Block>) -> IconView {
    let found = before.or(table_media_icon(drive));
    hinted_icon(
        if drive.media_available {
            found.or(fallback_icon(drive))
        } else {
            found
        },
        block,
    )
}

/// The description of the media with what is known of an optical disc put
/// before it: that it is blank, or mixed, or an audio disc.
pub open spec fn refined(catalog: Catalog, media: Option<Seq<char>>, drive: Drive) -> Option<
    Seq<char>,
> {
    let words = match media {
        Some(m) => m,
        None => Seq::empty(),
    };
    let audio = drive.optical_num_audio_tracks matches Some(n) && n > 0;
    if drive.optical_blank {
        Some(catalog.filled(Some("optical-media"@), "Blank %s"@, seq![words]))
    } else if audio && (drive.optical_num_data_tracks matches Some(n) && n > 0) {
        Some(catalog.filled(Some("optical-media"@), "Mixed %s"@, seq![words]))
    } else if audio && drive.optical_num_data_tracks == Some(0u32) {
        Some(catalog.filled(Some("optical-media"@), "Audio %s"@, seq![words]))
    } else {
        media
    }
}

/// Description of the media in a drive: the hint of the block device, else
/// what it was or what the table calls the media, refined for optical discs.
pub open spec fn drive_media_description(
    catalog: Catalog,
    before: Option<Seq<char>>,
    drive: Drive,
    block: Option<Block>,
) -> Option<Seq<char>> {
    hinted_text(
        refined(
            catalog,
            if before is Some {
                before
            } else {
                match media_row(drive) {
                    Some(i) => Some(media_words(catalog, media_data(i))),
                    None => None,
                }
            },
            drive,
        ),
        block,
    )
}

/// The block device whose special file stands for a partition of a drive:
/// that of the partition's own object, else the drive's.
pub open spec fn partition_block(
    objects: Seq<ObjectView>,
    partition: Option<&Partition>,
    block: Option<Block>,
) -> Option<Block> {
    match partition {
        Some(p) => match first(objects, Scan::At(p.path@)) {
            Some(o) => if o.block is Some {
                o.block
            } else {
                block
            },
            None => block,
        },
        None => block,
    }
}

/// The firmware revision of a drive, where one is known: a revision that
/// could not be read, or that is empty, is not known.
pub open spec fn known_revision(drive: Drive) -> Option<Seq<char>> {
    match drive.revision {
        Some(revision) => if revision@.len() > 0 {
            Some(revision@)
        } else {
            None
        },
        None => None,
    }
}

/// The one-line summary of a drive that has a block device: description,
/// name, the firmware revision in square brackets where it is known, and the
/// special device file in round ones.
pub open spec fn drive_one_liner(
    catalog: Catalog,
    drive: Drive,
    description: Seq<char>,
    block: Block,
    shown: Option<Block>,
) -> Seq<char> {
    match known_revision(drive) {
        Some(revision) => catalog.filled(
            Some("one-liner-drive"@),
            "%s \u{2014} %s [%s] (%s)"@,
            seq![description, drive_name(drive), revision, or_empty(block.preferred_device)],
        ),
        None => catalog.filled(
            Some("one-liner-drive"@),
            "%s \u{2014} %s (%s)"@,
            seq![
                description,
                drive_name(drive),
                match shown {
                    Some(b) => or_empty(b.preferred_device),
                    None => Seq::empty(),
                },
            ],
        ),
    }
}

/// What a drive is shown as.
pub open spec fn drive_info(
    client: ClientView,
    before: InfoView,
    drive: Drive,
    partition: Option<&Partition>,
) -> InfoView {
    let block = first_block(client.objects, Scan::TopLevelBlockOf(drive.path@));
    let description = drive_description(client.catalog, drive, block, partition);
    InfoView {
        name: Some(drive_name(drive)),
        description: Some(description),
        icon: drive_icon(before.icon, drive, block),
        media_description: drive_media_description(
            client.catalog,
            before.media_description,
            drive,
            block,
        ),
        media_icon: drive_media_icon(before.media_icon, drive, block),
        one_liner: match block {
            Some(b) => Some(
                drive_one_liner(
                    client.catalog,
                    drive,
                    description,
                    b,
                    partition_block(client.objects, partition, block),
                ),
            ),
            None => before.one_liner,
        },
        sort_key: Some("00_drive_"@ + drive.sort_key@),
    }
}

/// True when the position found is the one expected.
pub open spec fn same_row(found: Option<usize>, expected: Option<int>) -> bool {
    match (found, expected) {
        (Some(a), Some(b)) => a as int == b,
        (None, None) => true,
        _ => false,
    }
}

/// Tells whether `kinds` holds `kind`.
pub fn holds_kind(kinds: &Vec<MediaCompatibility>, kind: MediaCompatibility) -> (r: bool)
    ensures
        r == kinds@.contains(kind),
{
    let mut i: usize = 0;
    while i < kinds.len()
        invariant
            i <= kinds@.len(),
            forall|j: int| 0 <= j < i ==> kinds@[j] != kind,
        decreases kinds@.len() - i,
    {
        if kinds[i] == kind {
            return true;
        }
        i += 1;
    }
    false
}

/// Tells whether a row below `upto` whose media the drive can take belongs
/// to the family.
pub fn names_family(drive: &Drive, family: &str, upto: usize) -> (r: bool)
    ensures
        r == family_named(*drive, family@, upto as int),
{
    let mut j: usize = 0;
    while j < upto
        invariant
            j <= upto,
            forall|k: int|
                0 <= k < j ==> !(#[trigger] takes(*drive, k) && media_data(k).media_family@
                    == family@),
        decreases upto - j,
    {
        let row = media_data_at(j);
        if holds_kind(&drive.media_compatibility, row.id) && row.media_family.eq(family) {
            assert(takes(*drive, j as int));
            return true;
        }
        j += 1;
    }
    false
}

/// What a pass over the table of known media finds for a drive.
pub struct MediaScan {
    /// The first row whose media the drive can take.
    pub first_taken: Option<usize>,
    /// The last row whose media the drive can take.
    pub last_taken: Option<usize>,
    /// The first row that is about the media in the drive.
    pub first_media: Option<usize>,
    /// The families of media that the drive can take.
    pub families: String,
}

impl Client {
    /// Goes through the table of known media for a drive.
    pub fn scan_media(&self, drive: &Drive) -> (r: MediaScan)
        ensures
            same_row(r.first_taken, first_taken(*drive, MEDIA_DATA_LEN as int)),
            same_row(r.last_taken, last_taken(*drive, MEDIA_DATA_LEN as int)),
            same_row(r.first_media, first_media(drive.media, MEDIA_DATA_LEN as int)),
            r.families@ == families(self@.catalog, *drive, MEDIA_DATA_LEN as int),
            r.first_taken matches Some(i) ==> i < MEDIA_DATA_LEN,
            r.last_taken matches Some(i) ==> i < MEDIA_DATA_LEN,
            r.first_media matches Some(i) ==> i < MEDIA_DATA_LEN,
    {
        let mut found = MediaScan {
            first_taken: None,
            last_taken: None,
            first_media: None,
            families: String::new(),
        };
        let mut i: usize = 0;
        while i < MEDIA_DATA_LEN
            invariant
                i <= MEDIA_DATA_LEN,
                same_row(found.first_taken, first_taken(*drive, i as int)),
                same_row(found.last_taken, last_taken(*drive, i as int)),
                same_row(found.first_media, first_media(drive.media, i as int)),
                found.families@ == families(self@.catalog, *drive, i as int),
                found.first_taken matches Some(k) ==> k < MEDIA_DATA_LEN,
                found.last_taken matches Some(k) ==> k < MEDIA_DATA_LEN,
                found.first_media matches Some(k) ==> k < MEDIA_DATA_LEN,
            decreases MEDIA_DATA_LEN - i,
        {
            let row = media_data_at(i);
            if holds_kind(&drive.media_compatibility, row.id) {
                if found.first_taken.is_none() {
                    found.first_taken = Some(i);
                }
                if !names_family(drive, row.media_family, i) {
                    proof {
                        reveal_strlit("/");
                    }
                    if !found.families.as_str().is_empty() {
                        found.families.append("/");
                    }
                    found.families.append(
                        self.catalog().lookup(
                            Domain::Default,
                            Some("media-type"),
                            row.media_family,
                        ),
                    );
                }
                found.last_taken = Some(i);
            }
            if found.first_media.is_none() && row.id == drive.media {
                found.first_media = Some(i);
            }
            i += 1;
        }
        found
    }

    /// The block device whose special file stands for a partition of a
    /// drive: that of the partition's own object, else the drive's.
    pub fn block_for_partition<'b>(
        &'b self,
        partition: Option<&Partition>,
        block: Option<&'b Block>,
    ) -> (r: Option<&'b Block>)
        ensures
            forall|expected: Option<Block>|
                crate::resolve::same_option(block, expected) ==> crate::resolve::same_option(
                    r,
                    #[trigger] partition_block(self@.objects, partition, expected),
                ),
    {
        match partition {
            Some(p) => match self.object(p.path.as_str()) {
                Some(o) => match o.block() {
                    Ok(b) => Some(b),
                    Err(_) => block,
                },
                None => block,
            },
            None => block,
        }
    }

    /// Names the media of a row of the table.
    pub fn describe_media(&self, row: &MediaData) -> (r: String)
        ensures
            r@ == media_words(self@.catalog, *row),
    {
        let name = self.catalog().lookup(Domain::Package, Some("media-type"), row.media_name);
        match row.media_type {
            DriveType::Drive => self.catalog().format1("drive-with-fixed-media", "%s Drive", name),
            DriveType::Disk => self.catalog().format1("drive-with-generic-media", "%s Disk", name),
            DriveType::Card => self.catalog().format1("flash-media", "%s Card", name),
            DriveType::Disc => self.catalog().format1("optical-media", "%s Disc", name),
        }
    }

    /// Describes a drive by what is known of it.
    fn describe_drive(&self, drive: &Drive, scan: &MediaScan) -> (r: String)
        requires
            same_row(scan.last_taken, last_taken(*drive, MEDIA_DATA_LEN as int)),
            scan.families@ == families(self@.catalog, *drive, MEDIA_DATA_LEN as int),
            scan.last_taken matches Some(i) ==> i < MEDIA_DATA_LEN,
        ensures
            r@ == plain_drive_description(self@.catalog, *drive),
    {
        let words = scan.families.as_str();
        match scan.last_taken {
            None => {
                if drive.media_removable {
                    match drive.size {
                        Some(n) => self.catalog().format1(
                            "drive-with-size",
                            "%s Drive",
                            self.size_for_display(n, false, false).as_str(),
                        ),
                        None => self.catalog().lookup(
                            Domain::Default,
                            Some("generic-drive"),
                            "Drive",
                        ).to_owned(),
                    }
                } else if drive.rotation_rate == RotationRate::NonRotating {
                    match drive.size {
                        Some(n) => self.catalog().format1(
                            "disk-non-rotational",
                            "%s Disk",
                            self.size_for_display(n, false, false).as_str(),
                        ),
                        None => self.catalog().lookup(
                            Domain::Default,
                            Some("disk-non-rotational"),
                            "Disk",
                        ).to_owned(),
                    }
                } else {
                    match drive.size {
                        Some(n) => self.catalog().format1(
                            "disk-hdd",
                            "%s Hard Disk",
                            self.size_for_display(n, false, false).as_str(),
                        ),
                        None => self.catalog().lookup(
                            Domain::Default,
                            Some("disk-hdd"),
                            "Hard Disk",
                        ).to_owned(),
                    }
                }
            },
            Some(i) => match drive.size {
                Some(n) => self.catalog().format2(
                    "drive-with-size-and-type",
                    "%s %s Drive",
                    self.size_for_display(n, false, false).as_str(),
                    words,
                ),
                None => {
                    if media_data_at(i).media_type == DriveType::Card {
                        self.catalog().format1("drive-card-reader", "%s Card Reader", words)
                    } else {
                        self.catalog().format1("drive-with-type", "%s Drive", words)
                    }
                },
            },
        }
    }

    /// Puts what is known of an optical disc before the description of the media.
    pub fn refine_media(&self, media: Option<String>, drive: &Drive) -> (r: Option<String>)
        ensures
            chars_of(r) == refined(self@.catalog, chars_of(media), *drive),
    {
        let audio = match drive.optical_num_audio_tracks {
            Some(n) => n > 0,
            None => false,
        };
        let template = if drive.optical_blank {
            Some("Blank %s")
        } else if audio && (match drive.optical_num_data_tracks {
            Some(n) => n > 0,
            None => false,
        }) {
            Some("Mixed %s")
        } else if audio && (match drive.optical_num_data_tracks {
            Some(n) => n == 0,
            None => false,
        }) {
            Some("Audio %s")
        } else {
            None
        };
        match template {
            Some(t) => {
                let r = self.catalog().format1("optical-media", t, text_or_empty(&media));
                Some(r)
            },
            None => media,
        }
    }
}

/// The icon names of a drive of no known family.
pub fn fallback_icons(drive: &Drive) -> (r: (String, String))
    ensures
        IconView::of(r.0@, r.1@) == fallback_icon(*drive),
{
    let base = if drive.media_removable {
        "drive-removable-media"
    } else if drive.rotation_rate == RotationRate::NonRotating {
        "drive-harddisk-solidstate"
    } else {
        "drive-harddisk"
    };
    let mut name = base.to_owned();
    if !drive.connection_bus.as_str().is_empty() {
        proof {
            reveal_strlit("-");
        }
        name.append("-");
        name.append(drive.connection_bus.as_str());
    }
    assert(name@ =~= fallback_icon(*drive).name->0);
    let mut symbolic = name.clone();
    symbolic.append("-symbolic");
    (name, symbolic)
}

/// Builds the name of a drive.
pub fn name_of_drive(drive: &Drive) -> (r: String)
    ensures
        r@ == drive_name(*drive),
{
    let mut name = drive.vendor.clone();
    if !drive.vendor.as_str().is_empty() {
        proof {
            reveal_strlit(" ");
        }
        name.append(" ");
    }
    name.append(drive.model.as_str());
    name
}

impl<'a> ObjectInfo<'a> {
    /// Fills in what a drive is shown as.
    ///
    /// An icon name that is already set is kept unless a hint replaces it,
    /// and so is a description of the media; every other field is set anew.
    pub fn info_for_drive(&mut self, client: &Client, drive: &Drive, partition: Option<&Partition>)
        ensures
            final(self).object == old(self).object,
            final(self)@ == drive_info(client@, old(self)@, *drive, partition),
    {
        let name = name_of_drive(drive);
        let scan = client.scan_media(drive);

        // the icons and words that the table of known media gives
        if let Some(i) = scan.first_taken {
            let row = media_data_at(i);
            self.icon.set_if_none(row.drive_icon.to_owned(), row.drive_icon_symbolic.to_owned());
        }
        if drive.media_removable && drive.media_available {
            if let Some(i) = scan.first_media {
                let row = media_data_at(i);
                if self.media_description.is_none() {
                    self.media_description = Some(client.describe_media(&row));
                }
                self.media_icon.set_if_none(
                    row.media_icon.to_owned(),
                    row.media_icon_symbolic.to_owned(),
                );
            }
        }
        let mut description = client.describe_drive(drive, &scan);

        // the icons of a drive of no known family
        let (icon, icon_symbolic) = fallback_icons(drive);
        if drive.media_available {
            self.media_icon.set_if_none(icon.clone(), icon_symbolic.clone());
        }
        self.icon.set_if_none(icon, icon_symbolic);

        // what is known of an optical disc
        let media = self.media_description.take();
        self.media_description = client.refine_media(media, drive);

        // the hints of the block device win over all of the above
        let block = client.block_for_drive(drive, true);
        if let Some(b) = block {
            if !b.hint_name.as_str().is_empty() {
                description = b.hint_name.clone();
                self.media_description = Some(b.hint_name.clone());
            }
            if !b.hint_icon_name.as_str().is_empty() {
                self.icon.set_name(b.hint_icon_name.clone());
                self.media_icon.set_name(b.hint_icon_name.clone());
            }
            if !b.hint_symbolic_icon_name.as_str().is_empty() {
                self.icon.set_name_symbolic(b.hint_symbolic_icon_name.clone());
                self.media_icon.set_name_symbolic(b.hint_symbolic_icon_name.clone());
            }
        }
        let block_for_partition = client.block_for_partition(partition, block);
        let description = client.wrap_description("part-drive", description, partition);

        if let Some(b) = block {
            let revision = match &drive.revision {
                Some(revision) => if revision.as_str().is_empty() {
                    None
                } else {
                    Some(revision)
                },
                None => None,
            };
            let one_liner = match revision {
                Some(revision) => client.catalog().format4(
                    "one-liner-drive",
                    "%s \u{2014} %s [%s] (%s)",
                    description.as_str(),
                    name.as_str(),
                    revision.as_str(),
                    text_or_empty(&b.preferred_device),
                ),
                None => {
                    let device = match block_for_partition {
                        Some(pb) => text_or_empty(&pb.preferred_device),
                        None => {
                            proof {
                                reveal_strlit("");
                            }
                            ""
                        },
                    };
                    proof {
                        let fb = first_block(client@.objects, Scan::TopLevelBlockOf(drive.path@));
                        let pb = partition_block(client@.objects, partition, fb);
                        assert(seq![description@, name@, device@] =~= seq![
                            description@,
                            drive_name(*drive),
                            match pb {
                                Some(b) => or_empty(b.preferred_device),
                                None => Seq::empty(),
                            },
                        ]);
                    }
                    client.catalog().format3(
                        "one-liner-drive",
                        "%s \u{2014} %s (%s)",
                        description.as_str(),
                        name.as_str(),
                        device,
                    )
                },
            };
            self.one_liner = Some(one_liner);
        }
        self.name = Some(name);
        self.description = Some(description);
        let mut key = "00_drive_".to_owned();
        key.append(drive.sort_key.as_str());
        self.sort_key = Some(key);
    }
}

/// A reference to the value of an option, where it has one.
pub open spec fn borrowed<T>(o: &Option<T>) -> Option<&T> {
    match o {
        Some(x) => Some(x),
        None => None,
    }
}

/// What an object is shown as.
///
/// An object that exposes the drive interface is shown as a drive; else one
/// that exposes the array interface as an array. Else a block device is
/// shown as its drive, where it names one; else as the array that it is the
/// device of; else as a loop device, where it exposes that interface; else
/// as a plain block device. An object that is none of these is shown as
/// nothing.
pub open spec fn object_info_of(client: ClientView, o: ObjectView) -> InfoView {
    let blank = InfoView::blank();
    if o.drive is Some {
        drive_info(client, blank, o.drive->0, None)
    } else if o.mdraid is Some {
        mdraid_info(client, blank, o.mdraid->0, None)
    } else if o.block is Some {
        let b = o.block->0;
        let partition = borrowed(&o.partition);
        match drive_of(client.objects, b) {
            Ok(d) => drive_info(client, blank, d, partition),
            Err(_) => match mdraid_of(client.objects, b) {
                Ok(m) => mdraid_info(client, blank, m, partition),
                Err(_) => match o.loop_device {
                    Some(l) => loop_info(client.catalog, blank, o.path, l, b, partition),
                    None => block_info(client.catalog, blank, o.path, b, partition),
                },
            },
        }
    } else {
        blank
    }
}

impl Client {
    /// Returns information about the given object for presentation in a
    /// user interface.
    ///
    /// The texts are those of the client's catalog.
    pub fn object_info<'a>(&self, object: &'a Object) -> (r: ObjectInfo<'a>)
        ensures
            r.object == object,
            r@ == object_info_of(self@, object@),
    {
        let mut object_info = ObjectInfo::new(object);
        if let Ok(drive) = object.drive() {
            object_info.info_for_drive(self, drive, None);
        } else if let Ok(mdraid) = object.mdraid() {
            object_info.info_for_mdraid(self, mdraid, None);
        } else if let Ok(block) = object.block() {
            let partition = match object.partition() {
                Ok(p) => Some(p),
                Err(_) => None,
            };
            if let Ok(drive) = self.drive_for_block(block) {
                object_info.info_for_drive(self, drive, partition);
                return object_info;
            }
            if let Ok(mdraid) = self.mdraid_for_block(block) {
                object_info.info_for_mdraid(self, mdraid, partition);
                return object_info;
            }
            if let Ok(loop_device) = object.loop_device() {
                object_info.info_for_loop(self, loop_device, block, partition);
            } else {
                object_info.info_for_block(self, block, partition);
            }
        }
        object_info
    }
}

} // verus!
