//! The known kinds of media, with the words and icons that describe them.
use vstd::prelude::*;
use vstd::string::*;
use crate::catalog::{Catalog, Domain};
use crate::client::Client;
use crate::drive::MediaCompatibility;
use crate::text::{begins, begins_with, each_chars};

verus! {

/// What a kind of media is called when it stands in a description.
#[derive(Clone, Copy, Debug, PartialEq, Eq, Structural)]
pub enum DriveType {
    /// A drive whose media cannot be taken out.
    Drive,
    /// A disk, such as a floppy.
    Disk,
    /// A flash card.
    Card,
    /// An optical disc.
    Disc,
}

/// One known kind of media.
#[derive(Clone, Copy, Debug)]
pub struct MediaData {
    /// The kind of media.
    pub id: MediaCompatibility,
    /// Name of the media itself.
    pub media_name: &'static str,
    /// Name of the family the media belongs to.
    pub media_family: &'static str,
    /// Icon for the media.
    pub media_icon: &'static str,
    /// Symbolic icon for the media.
    pub media_icon_symbolic: &'static str,
    /// What the media is called in a description.
    pub media_type: DriveType,
    /// Icon for a drive that takes the media.
    pub drive_icon: &'static str,
    /// Symbolic icon for a drive that takes the media.
    pub drive_icon_symbolic: &'static str,
}

/// Number of rows in the table of known media.
pub const MEDIA_DATA_LEN: usize = 32;

/// Row `i` of the table of known media. The order of the rows decides which
/// icon a drive gets and in which order the families are named.
pub open spec fn media_data(i: int) -> MediaData {
    if i == 0 {
        MediaData {
            id: MediaCompatibility::Thumb,
            media_name: "Thumb",
            media_family: "Thumb",
            media_icon: "media-removable",
            media_icon_symbolic: "media-removable-symbolic",
            media_type: DriveType::Drive,
            drive_icon: "media-removable",
            drive_icon_symbolic: "media-removable-symbolic",
        }
    } else if i == 1 {
        MediaData {
            id: MediaCompatibility::Floppy,
            media_name: "Floppy",
            media_family: "Floppy",
            media_icon: "media-floppy",
            media_icon_symbolic: "media-floppy-symbolic",
            media_type: DriveType::Disk,
            drive_icon: "drive-removable-media-floppy",
            drive_icon_symbolic: "drive-removable-media-symbolic",
        }
    } else if i == 2 {
        MediaData {
            id: MediaCompatibility::FloppyZip,
            media_name: "Zip",
            media_family: "Zip",
            media_icon: "media-floppy-zip",
            media_icon_symbolic: "media-floppy-symbolic",
            media_type: DriveType::Disk,
            drive_icon: "drive-removable-media-floppy-zip",
            drive_icon_symbolic: "drive-removable-media-symbolic",
        }
    } else if i == 3 {
        MediaData {
            id: MediaCompatibility::FloppyJaz,
            media_name: "Jaz",
            media_family: "Jaz",
            media_icon: "media-floppy-jaz",
            media_icon_symbolic: "media-floppy-symbolic",
            media_type: DriveType::Disk,
            drive_icon: "drive-removable-media-floppy-jaz",
            drive_icon_symbolic: "drive-removable-media-symbolic",
        }
    } else if i == 4 {
        MediaData {
            id: MediaCompatibility::Flash,
            media_name: "Flash",
            media_family: "Flash",
            media_icon: "media-flash",
            media_icon_symbolic: "media-flash-symbolic",
            media_type: DriveType::Card,
            drive_icon: "drive-removable-media-flash",
            drive_icon_symbolic: "drive-removable-media-symbolic",
        }
    } else if i == 5 {
        MediaData {
            id: MediaCompatibility::FlashMs,
            media_name: "MemoryStick",
            media_family: "MemoryStick",
            media_icon: "media-flash-ms",
            media_icon_symbolic: "media-flash-symbolic",
            media_type: DriveType::Card,
            drive_icon: "drive-removable-media-flash-ms",
            drive_icon_symbolic: "drive-removable-media-symbolic",
        }
    } else if i == 6 {
        MediaData {
            id: MediaCompatibility::FlashSm,
            media_name: "SmartMedia",
            media_family: "SmartMedia",
            media_icon: "media-flash-sm",
            media_icon_symbolic: "media-flash-symbolic",
            media_type: DriveType::Card,
            drive_icon: "drive-removable-media-flash-sm",
            drive_icon_symbolic: "drive-removable-media-symbolic",
        }
    } else if i == 7 {
        MediaData {
            id: MediaCompatibility::FlashCf,
            media_name: "CompactFlash",
            media_family: "CompactFlash",
            media_icon: "media-flash-cf",
            media_icon_symbolic: "media-flash-symbolic",
            media_type: DriveType::Card,
            drive_icon: "drive-removable-media-flash-cf",
            drive_icon_symbolic: "drive-removable-media-symbolic",
        }
    } else if i == 8 {
        MediaData {
            id: MediaCompatibility::FlashMmc,
            media_name: "MMC",
            media_family: "SD",
            media_icon: "media-flash-mmc",
            media_icon_symbolic: "media-flash-symbolic",
            media_type: DriveType::Card,
            drive_icon: "drive-removable-media-flash-mmc",
            drive_icon_symbolic: "drive-removable-media-symbolic",
        }
    } else if i == 9 {
        MediaData {
            id: MediaCompatibility::FlashSd,
            media_name: "SD",
            media_family: "SD",
            media_icon: "media-flash-sd",
            media_icon_symbolic: "media-flash-symbolic",
            media_type: DriveType::Card,
            drive_icon: "drive-removable-media-flash-sd",
            drive_icon_symbolic: "drive-removable-media-symbolic",
        }
    } else if i == 10 {
        MediaData {
            id: MediaCompatibility::FlashSdxc,
            media_name: "SDXC",
            media_family: "SD",
            media_icon: "media-flash-sd-xc",
            media_icon_symbolic: "media-flash-symbolic",
            media_type: DriveType::Card,
            drive_icon: "drive-removable-media-flash-sd-xc",
            drive_icon_symbolic: "drive-removable-media-symbolic",
        }
    } else if i == 11 {
        MediaData {
            id: MediaCompatibility::FlashSdhc,
            media_name: "SDHC",
            media_family: "SD",
            media_icon: "media-flash-sd-hc",
            media_icon_symbolic: "media-flash-symbolic",
            media_type: DriveType::Card,
            drive_icon: "drive-removable-media-flash-sd-hc",
            drive_icon_symbolic: "drive-removable-media-symbolic",
        }
    } else if i == 12 {
        MediaData {
            id: MediaCompatibility::OpticalCd,
            media_name: "CD-ROM",
            media_family: "CD",
            media_icon: "media-optical-cd-rom",
            media_icon_symbolic: "media-optical-symbolic",
            media_type: DriveType::Disc,
            drive_icon: "drive-optical",
            drive_icon_symbolic: "drive-optical-symbolic",
        }
    } else if i == 13 {
        MediaData {
            id: MediaCompatibility::OpticalCdR,
            media_name: "CD-R",
            media_family: "CD",
            media_icon: "media-optical-cd-r",
            media_icon_symbolic: "media-optical-symbolic",
            media_type: DriveType::Disc,
            drive_icon: "drive-optical-recorder",
            drive_icon_symbolic: "drive-optical-symbolic",
        }
    } else if i == 14 {
        MediaData {
            id: MediaCompatibility::OpticalCdRw,
            media_name: "CD-RW",
            media_family: "CD",
            media_icon: "media-optical-cd-rw",
            media_icon_symbolic: "media-optical-symbolic",
            media_type: DriveType::Disc,
            drive_icon: "drive-optical-recorder",
            drive_icon_symbolic: "drive-optical-symbolic",
        }
    } else if i == 15 {
        MediaData {
            id: MediaCompatibility::OpticalDvd,
            media_name: "DVD",
            media_family: "DVD",
            media_icon: "media-optical-dvd-rom",
            media_icon_symbolic: "media-optical-symbolic",
            media_type: DriveType::Disc,
            drive_icon: "drive-optical",
            drive_icon_symbolic: "drive-optical-symbolic",
        }
    } else if i == 16 {
        MediaData {
            id: MediaCompatibility::OpticalDvdR,
            media_name: "DVD-R",
            media_family: "DVD",
            media_icon: "media-optical-dvd-r",
            media_icon_symbolic: "media-optical-symbolic",
            media_type: DriveType::Disc,
            drive_icon: "drive-optical-recorder",
            drive_icon_symbolic: "drive-optical-symbolic",
        }
    } else if i == 17 {
        MediaData {
            id: MediaCompatibility::OpticalDvdRw,
            media_name: "DVD-RW",
            media_family: "DVD",
            media_icon: "media-optical-dvd-rw",
            media_icon_symbolic: "media-optical-symbolic",
            media_type: DriveType::Disc,
            drive_icon: "drive-optical-recorder",
            drive_icon_symbolic: "drive-optical-symbolic",
        }
    } else if i == 18 {
        MediaData {
            id: MediaCompatibility::OpticalDvdRam,
            media_name: "DVD-RAM",
            media_family: "DVD",
            media_icon: "media-optical-dvd-ram",
            media_icon_symbolic: "media-optical-symbolic",
            media_type: DriveType::Disc,
            drive_icon: "drive-optical-recorder",
            drive_icon_symbolic: "drive-optical-symbolic",
        }
    } else if i == 19 {
        MediaData {
            id: MediaCompatibility::OpticalDvdPlusR,
            media_name: "DVD+R",
            media_family: "DVD",
            media_icon: "media-optical-dvd-r-plus",
            media_icon_symbolic: "media-optical-symbolic",
            media_type: DriveType::Disc,
            drive_icon: "drive-optical-recorder",
            drive_icon_symbolic: "drive-optical-symbolic",
        }
    } else if i == 20 {
        MediaData {
            id: MediaCompatibility::OpticalDvdPlusRw,
            media_name: "DVD+RW",
            media_family: "DVD",
            media_icon: "media-optical-dvd-rw-plus",
            media_icon_symbolic: "media-optical-symbolic",
            media_type: DriveType::Disc,
            drive_icon: "drive-optical-recorder",
            drive_icon_symbolic: "drive-optical-symbolic",
        }
    } else if i == 21 {
        MediaData {
            id: MediaCompatibility::OpticalDvdPlusRDl,
            media_name: "DVD+R DL",
            media_family: "DVD",
            media_icon: "media-optical-dvd-dl-r-plus",
            media_icon_symbolic: "media-optical-symbolic",
            media_type: DriveType::Disc,
            drive_icon: "drive-optical-recorder",
            drive_icon_symbolic: "drive-optical-symbolic",
        }
    } else if i == 22 {
        MediaData {
            id: MediaCompatibility::OpticalDvdPlusRwDl,
            media_name: "DVD+RW DL",
            media_family: "DVD",
            media_icon: "media-optical-dvd-dl-r-plus",
            media_icon_symbolic: "media-optical-symbolic",
            media_type: DriveType::Disc,
            drive_icon: "drive-optical-recorder",
            drive_icon_symbolic: "drive-optical-symbolic",
        }
    } else if i == 23 {
        MediaData {
            id: MediaCompatibility::OpticalBd,
            media_name: "BD-ROM",
            media_family: "Blu-Ray",
            media_icon: "media-optical-bd-rom",
            media_icon_symbolic: "media-optical-symbolic",
            media_type: DriveType::Disc,
            drive_icon: "drive-optical",
            drive_icon_symbolic: "drive-optical-symbolic",
        }
    } else if i == 24 {
        MediaData {
            id: MediaCompatibility::OpticalBdR,
            media_name: "BD-R",
            media_family: "Blu-Ray",
            media_icon: "media-optical-bd-r",
            media_icon_symbolic: "media-optical-symbolic",
            media_type: DriveType::Disc,
            drive_icon: "drive-optical-recorder",
            drive_icon_symbolic: "drive-optical-symbolic",
        }
    } else if i == 25 {
        MediaData {
            id: MediaCompatibility::OpticalBdRe,
            media_name: "BD-RE",
            media_family: "Blu-Ray",
            media_icon: "media-optical-bd-re",
            media_icon_symbolic: "media-optical-symbolic",
            media_type: DriveType::Disc,
            drive_icon: "drive-optical-recorder",
            drive_icon_symbolic: "drive-optical-symbolic",
        }
    } else if i == 26 {
        MediaData {
            id: MediaCompatibility::OpticalHddvd,
            media_name: "HDDVD",
            media_family: "HDDVD",
            media_icon: "media-optical-hddvd-rom",
            media_icon_symbolic: "media-optical-symbolic",
            media_type: DriveType::Disc,
            drive_icon: "drive-optical",
            drive_icon_symbolic: "drive-optical-symbolic",
        }
    } else if i == 27 {
        MediaData {
            id: MediaCompatibility::OpticalHddvdR,
            media_name: "HDDVD-R",
            media_family: "HDDVD",
            media_icon: "media-optical-hddvd-r",
            media_icon_symbolic: "media-optical-symbolic",
            media_type: DriveType::Disc,
            drive_icon: "drive-optical-recorder",
            drive_icon_symbolic: "drive-optical-symbolic",
        }
    } else if i == 28 {
        MediaData {
            id: MediaCompatibility::OpticalHddvdRw,
            media_name: "HDDVD-RW",
            media_family: "HDDVD",
            media_icon: "media-optical-hddvd-rw",
            media_icon_symbolic: "media-optical-symbolic",
            media_type: DriveType::Disc,
            drive_icon: "drive-optical-recorder",
            drive_icon_symbolic: "drive-optical-symbolic",
        }
    } else if i == 29 {
        MediaData {
            id: MediaCompatibility::OpticalMo,
            media_name: "MO",
            media_family: "CD",
            media_icon: "media-optical-mo",
            media_icon_symbolic: "media-optical-symbolic",
            media_type: DriveType::Disc,
            drive_icon: "drive-optical",
            drive_icon_symbolic: "drive-optical-symbolic",
        }
    } else if i == 30 {
        MediaData {
            id: MediaCompatibility::OpticalMrw,
            media_name: "MRW",
            media_family: "CD",
            media_icon: "media-optical-mrw",
            media_icon_symbolic: "media-optical-symbolic",
            media_type: DriveType::Disc,
            drive_icon: "drive-optical-recorder",
            drive_icon_symbolic: "drive-optical-symbolic",
        }
    } else {
        MediaData {
            id: MediaCompatibility::OpticalMrwW,
            media_name: "MRW-W",
            media_family: "CD",
            media_icon: "media-optical-mrw-w",
            media_icon_symbolic: "media-optical-symbolic",
            media_type: DriveType::Disc,
            drive_icon: "drive-optical-recorder",
            drive_icon_symbolic: "drive-optical-symbolic",
        }
    }
}

/// Reads row `i` of the table of known media; the last one where `i` is beyond the end.
pub fn media_data_at(i: usize) -> (r: MediaData)
    ensures
        r == media_data(i as int),
{
    if i == 0 {
        MediaData {
            id: MediaCompatibility::Thumb,
            media_name: "Thumb",
            media_family: "Thumb",
            media_icon: "media-removable",
            media_icon_symbolic: "media-removable-symbolic",
            media_type: DriveType::Drive,
            drive_icon: "media-removable",
            drive_icon_symbolic: "media-removable-symbolic",
        }
    } else if i == 1 {
        MediaData {
            id: MediaCompatibility::Floppy,
            media_name: "Floppy",
            media_family: "Floppy",
            media_icon: "media-floppy",
            media_icon_symbolic: "media-floppy-symbolic",
            media_type: DriveType::Disk,
            drive_icon: "drive-removable-media-floppy",
            drive_icon_symbolic: "drive-removable-media-symbolic",
        }
    } else if i == 2 {
        MediaData {
            id: MediaCompatibility::FloppyZip,
            media_name: "Zip",
            media_family: "Zip",
            media_icon: "media-floppy-zip",
            media_icon_symbolic: "media-floppy-symbolic",
            media_type: DriveType::Disk,
            drive_icon: "drive-removable-media-floppy-zip",
            drive_icon_symbolic: "drive-removable-media-symbolic",
        }
    } else if i == 3 {
        MediaData {
            id: MediaCompatibility::FloppyJaz,
            media_name: "Jaz",
            media_family: "Jaz",
            media_icon: "media-floppy-jaz",
            media_icon_symbolic: "media-floppy-symbolic",
            media_type: DriveType::Disk,
            drive_icon: "drive-removable-media-floppy-jaz",
            drive_icon_symbolic: "drive-removable-media-symbolic",
        }
    } else if i == 4 {
        MediaData {
            id: MediaCompatibility::Flash,
            media_name: "Flash",
            media_family: "Flash",
            media_icon: "media-flash",
            media_icon_symbolic: "media-flash-symbolic",
            media_type: DriveType::Card,
            drive_icon: "drive-removable-media-flash",
            drive_icon_symbolic: "drive-removable-media-symbolic",
        }
    } else if i == 5 {
        MediaData {
            id: MediaCompatibility::FlashMs,
            media_name: "MemoryStick",
            media_family: "MemoryStick",
            media_icon: "media-flash-ms",
            media_icon_symbolic: "media-flash-symbolic",
            media_type: DriveType::Card,
            drive_icon: "drive-removable-media-flash-ms",
            drive_icon_symbolic: "drive-removable-media-symbolic",
        }
    } else if i == 6 {
        MediaData {
            id: MediaCompatibility::FlashSm,
            media_name: "SmartMedia",
            media_family: "SmartMedia",
            media_icon: "media-flash-sm",
            media_icon_symbolic: "media-flash-symbolic",
            media_type: DriveType::Card,
            drive_icon: "drive-removable-media-flash-sm",
            drive_icon_symbolic: "drive-removable-media-symbolic",
        }
    } else if i == 7 {
        MediaData {
            id: MediaCompatibility::FlashCf,
            media_name: "CompactFlash",
            media_family: "CompactFlash",
            media_icon: "media-flash-cf",
            media_icon_symbolic: "media-flash-symbolic",
            media_type: DriveType::Card,
            drive_icon: "drive-removable-media-flash-cf",
            drive_icon_symbolic: "drive-removable-media-symbolic",
        }
    } else if i == 8 {
        MediaData {
            id: MediaCompatibility::FlashMmc,
            media_name: "MMC",
            media_family: "SD",
            media_icon: "media-flash-mmc",
            media_icon_symbolic: "media-flash-symbolic",
            media_type: DriveType::Card,
            drive_icon: "drive-removable-media-flash-mmc",
            drive_icon_symbolic: "drive-removable-media-symbolic",
        }
    } else if i == 9 {
        MediaData {
            id: MediaCompatibility::FlashSd,
            media_name: "SD",
            media_family: "SD",
            media_icon: "media-flash-sd",
            media_icon_symbolic: "media-flash-symbolic",
            media_type: DriveType::Card,
            drive_icon: "drive-removable-media-flash-sd",
            drive_icon_symbolic: "drive-removable-media-symbolic",
        }
    } else if i == 10 {
        MediaData {
            id: MediaCompatibility::FlashSdxc,
            media_name: "SDXC",
            media_family: "SD",
            media_icon: "media-flash-sd-xc",
            media_icon_symbolic: "media-flash-symbolic",
            media_type: DriveType::Card,
            drive_icon: "drive-removable-media-flash-sd-xc",
            drive_icon_symbolic: "drive-removable-media-symbolic",
        }
    } else if i == 11 {
        MediaData {
            id: MediaCompatibility::FlashSdhc,
            media_name: "SDHC",
            media_family: "SD",
            media_icon: "media-flash-sd-hc",
            media_icon_symbolic: "media-flash-symbolic",
            media_type: DriveType::Card,
            drive_icon: "drive-removable-media-flash-sd-hc",
            drive_icon_symbolic: "drive-removable-media-symbolic",
        }
    } else if i == 12 {
        MediaData {
            id: MediaCompatibility::OpticalCd,
            media_name: "CD-ROM",
            media_family: "CD",
            media_icon: "media-optical-cd-rom",
            media_icon_symbolic: "media-optical-symbolic",
            media_type: DriveType::Disc,
            drive_icon: "drive-optical",
            drive_icon_symbolic: "drive-optical-symbolic",
        }
    } else if i == 13 {
        MediaData {
            id: MediaCompatibility::OpticalCdR,
            media_name: "CD-R",
            media_family: "CD",
            media_icon: "media-optical-cd-r",
            media_icon_symbolic: "media-optical-symbolic",
            media_type: DriveType::Disc,
            drive_icon: "drive-optical-recorder",
            drive_icon_symbolic: "drive-optical-symbolic",
        }
    } else if i == 14 {
        MediaData {
            id: MediaCompatibility::OpticalCdRw,
            media_name: "CD-RW",
            media_family: "CD",
            media_icon: "media-optical-cd-rw",
            media_icon_symbolic: "media-optical-symbolic",
            media_type: DriveType::Disc,
            drive_icon: "drive-optical-recorder",
            drive_icon_symbolic: "drive-optical-symbolic",
        }
    } else if i == 15 {
        MediaData {
            id: MediaCompatibility::OpticalDvd,
            media_name: "DVD",
            media_family: "DVD",
            media_icon: "media-optical-dvd-rom",
            media_icon_symbolic: "media-optical-symbolic",
            media_type: DriveType::Disc,
            drive_icon: "drive-optical",
            drive_icon_symbolic: "drive-optical-symbolic",
        }
    } else if i == 16 {
        MediaData {
            id: MediaCompatibility::OpticalDvdR,
            media_name: "DVD-R",
            media_family: "DVD",
            media_icon: "media-optical-dvd-r",
            media_icon_symbolic: "media-optical-symbolic",
            media_type: DriveType::Disc,
            drive_icon: "drive-optical-recorder",
            drive_icon_symbolic: "drive-optical-symbolic",
        }
    } else if i == 17 {
        MediaData {
            id: MediaCompatibility::OpticalDvdRw,
            media_name: "DVD-RW",
            media_family: "DVD",
            media_icon: "media-optical-dvd-rw",
            media_icon_symbolic: "media-optical-symbolic",
            media_type: DriveType::Disc,
            drive_icon: "drive-optical-recorder",
            drive_icon_symbolic: "drive-optical-symbolic",
        }
    } else if i == 18 {
        MediaData {
            id: MediaCompatibility::OpticalDvdRam,
            media_name: "DVD-RAM",
            media_family: "DVD",
            media_icon: "media-optical-dvd-ram",
            media_icon_symbolic: "media-optical-symbolic",
            media_type: DriveType::Disc,
            drive_icon: "drive-optical-recorder",
            drive_icon_symbolic: "drive-optical-symbolic",
        }
    } else if i == 19 {
        MediaData {
            id: MediaCompatibility::OpticalDvdPlusR,
            media_name: "DVD+R",
            media_family: "DVD",
            media_icon: "media-optical-dvd-r-plus",
            media_icon_symbolic: "media-optical-symbolic",
            media_type: DriveType::Disc,
            drive_icon: "drive-optical-recorder",
            drive_icon_symbolic: "drive-optical-symbolic",
        }
    } else if i == 20 {
        MediaData {
            id: MediaCompatibility::OpticalDvdPlusRw,
            media_name: "DVD+RW",
            media_family: "DVD",
            media_icon: "media-optical-dvd-rw-plus",
            media_icon_symbolic: "media-optical-symbolic",
            media_type: DriveType::Disc,
            drive_icon: "drive-optical-recorder",
            drive_icon_symbolic: "drive-optical-symbolic",
        }
    } else if i == 21 {
        MediaData {
            id: MediaCompatibility::OpticalDvdPlusRDl,
            media_name: "DVD+R DL",
            media_family: "DVD",
            media_icon: "media-optical-dvd-dl-r-plus",
            media_icon_symbolic: "media-optical-symbolic",
            media_type: DriveType::Disc,
            drive_icon: "drive-optical-recorder",
            drive_icon_symbolic: "drive-optical-symbolic",
        }
    } else if i == 22 {
        MediaData {
            id: MediaCompatibility::OpticalDvdPlusRwDl,
            media_name: "DVD+RW DL",
            media_family: "DVD",
            media_icon: "media-optical-dvd-dl-r-plus",
            media_icon_symbolic: "media-optical-symbolic",
            media_type: DriveType::Disc,
            drive_icon: "drive-optical-recorder",
            drive_icon_symbolic: "drive-optical-symbolic",
        }
    } else if i == 23 {
        MediaData {
            id: MediaCompatibility::OpticalBd,
            media_name: "BD-ROM",
            media_family: "Blu-Ray",
            media_icon: "media-optical-bd-rom",
            media_icon_symbolic: "media-optical-symbolic",
            media_type: DriveType::Disc,
            drive_icon: "drive-optical",
            drive_icon_symbolic: "drive-optical-symbolic",
        }
    } else if i == 24 {
        MediaData {
            id: MediaCompatibility::OpticalBdR,
            media_name: "BD-R",
            media_family: "Blu-Ray",
            media_icon: "media-optical-bd-r",
            media_icon_symbolic: "media-optical-symbolic",
            media_type: DriveType::Disc,
            drive_icon: "drive-optical-recorder",
            drive_icon_symbolic: "drive-optical-symbolic",
        }
    } else if i == 25 {
        MediaData {
            id: MediaCompatibility::OpticalBdRe,
            media_name: "BD-RE",
            media_family: "Blu-Ray",
            media_icon: "media-optical-bd-re",
            media_icon_symbolic: "media-optical-symbolic",
            media_type: DriveType::Disc,
            drive_icon: "drive-optical-recorder",
            drive_icon_symbolic: "drive-optical-symbolic",
        }
    } else if i == 26 {
        MediaData {
            id: MediaCompatibility::OpticalHddvd,
            media_name: "HDDVD",
            media_family: "HDDVD",
            media_icon: "media-optical-hddvd-rom",
            media_icon_symbolic: "media-optical-symbolic",
            media_type: DriveType::Disc,
            drive_icon: "drive-optical",
            drive_icon_symbolic: "drive-optical-symbolic",
        }
    } else if i == 27 {
        MediaData {
            id: MediaCompatibility::OpticalHddvdR,
            media_name: "HDDVD-R",
            media_family: "HDDVD",
            media_icon: "media-optical-hddvd-r",
            media_icon_symbolic: "media-optical-symbolic",
            media_type: DriveType::Disc,
            drive_icon: "drive-optical-recorder",
            drive_icon_symbolic: "drive-optical-symbolic",
        }
    } else if i == 28 {
        MediaData {
            id: MediaCompatibility::OpticalHddvdRw,
            media_name: "HDDVD-RW",
            media_family: "HDDVD",
            media_icon: "media-optical-hddvd-rw",
            media_icon_symbolic: "media-optical-symbolic",
            media_type: DriveType::Disc,
            drive_icon: "drive-optical-recorder",
            drive_icon_symbolic: "drive-optical-symbolic",
        }
    } else if i == 29 {
        MediaData {
            id: MediaCompatibility::OpticalMo,
            media_name: "MO",
            media_family: "CD",
            media_icon: "media-optical-mo",
            media_icon_symbolic: "media-optical-symbolic",
            media_type: DriveType::Disc,
            drive_icon: "drive-optical",
            drive_icon_symbolic: "drive-optical-symbolic",
        }
    } else if i == 30 {
        MediaData {
            id: MediaCompatibility::OpticalMrw,
            media_name: "MRW",
            media_family: "CD",
            media_icon: "media-optical-mrw",
            media_icon_symbolic: "media-optical-symbolic",
            media_type: DriveType::Disc,
            drive_icon: "drive-optical-recorder",
            drive_icon_symbolic: "drive-optical-symbolic",
        }
    } else {
        MediaData {
            id: MediaCompatibility::OpticalMrwW,
            media_name: "MRW-W",
            media_family: "CD",
            media_icon: "media-optical-mrw-w",
            media_icon_symbolic: "media-optical-symbolic",
            media_type: DriveType::Disc,
            drive_icon: "drive-optical-recorder",
            drive_icon_symbolic: "drive-optical-symbolic",
        }
    }
}


/// What a kind of media other than an optical disc is called, where the
/// identifier stands for one.
pub open spec fn media_label(media: Seq<char>) -> Option<Seq<char>> {
    if media == "flash_cf"@ {
        Some("CompactFlash"@)
    } else if media == "flash_ms"@ {
        Some("MemoryStick"@)
    } else if media == "flash_sm"@ {
        Some("SmartMedia"@)
    } else if media == "flash_sd"@ {
        Some("SecureDigital"@)
    } else if media == "flash_sdhc"@ {
        Some("SD High Capacity"@)
    } else if media == "floppy"@ {
        Some("Floppy"@)
    } else if media == "floppy_zip"@ {
        Some("Zip"@)
    } else if media == "floppy_jaz"@ {
        Some("Jaz"@)
    } else if begins(media, "flash"@) {
        Some("Flash"@)
    } else {
        None
    }
}

/// A family of optical discs.
#[derive(Clone, Copy, Debug, PartialEq, Eq, Structural)]
pub enum Disc {
    /// Compact discs.
    Cd,
    /// DVDs.
    Dvd,
    /// Blu-ray discs.
    Bd,
    /// HD DVDs.
    Hddvd,
}

/// The family of optical discs that an identifier stands for, where it
/// stands for one.
pub open spec fn disc_family(media: Seq<char>) -> Option<Disc> {
    if media_label(media) is Some {
        None
    } else if begins(media, "optical_cd"@) {
        Some(Disc::Cd)
    } else if begins(media, "optical_dvd"@) {
        Some(Disc::Dvd)
    } else if begins(media, "optical_bd"@) {
        Some(Disc::Bd)
    } else if begins(media, "optical_hddvd"@) {
        Some(Disc::Hddvd)
    } else {
        None
    }
}

/// True when one of the first `upto` identifiers stands for media other
/// than an optical disc.
pub open spec fn any_labelled(media: Seq<Seq<char>>, upto: int) -> bool {
    exists|j: int| 0 <= j < upto && j < media.len() && media_label(#[trigger] media[j]) is Some
}

/// True when one of the identifiers stands for a disc of the family.
pub open spec fn any_disc(media: Seq<Seq<char>>, family: Disc, upto: int) -> bool {
    exists|j: int|
        0 <= j < upto && j < media.len() && disc_family(#[trigger] media[j]) == Some(family)
}

/// The names, as the catalog gives them, of the media other than optical
/// discs among the first `upto` identifiers, in their order, with commas
/// between them.
pub open spec fn labelled_media(catalog: Catalog, media: Seq<Seq<char>>, upto: int) -> Seq<char>
    decreases upto,
{
    if upto <= 0 {
        Seq::empty()
    } else {
        let before = labelled_media(catalog, media, upto - 1);
        match media_label(media[upto - 1]) {
            Some(label) => (if any_labelled(media, upto - 1) {
                before.push(',')
            } else {
                before
            }) + catalog.text(Domain::Default, Some("media"@), label),
            None => before,
        }
    }
}

/// The text with the name of a family of discs added where the family is
/// present, behind a slash where the text is not empty.
pub open spec fn with_disc(catalog: Catalog, text: Seq<char>, present: bool, label: Seq<char>) -> Seq<
    char,
> {
    if present {
        (if text.len() > 0 {
            text.push('/')
        } else {
            text
        }) + catalog.text(Domain::Default, Some("disc-type"@), label)
    } else {
        text
    }
}

/// What the media described by the identifiers is called: the names of the
/// media other than optical discs, then the families of discs that occur;
/// nothing where no identifier is known.
pub open spec fn media_compat_text(catalog: Catalog, media: Seq<Seq<char>>) -> Option<Seq<char>> {
    let n = media.len() as int;
    let text = with_disc(
        catalog,
        with_disc(
            catalog,
            with_disc(
                catalog,
                with_disc(
                    catalog,
                    labelled_media(catalog, media, n),
                    any_disc(media, Disc::Cd, n),
                    "CD"@,
                ),
                any_disc(media, Disc::Dvd, n),
                "DVD"@,
            ),
            any_disc(media, Disc::Bd, n),
            "Blu-Ray"@,
        ),
        any_disc(media, Disc::Hddvd, n),
        "HDDVD"@,
    );
    if text.len() == 0 {
        None
    } else {
        Some(text)
    }
}

/// Returns what a kind of media other than an optical disc is called.
pub fn label_of_media(media: &str) -> (r: Option<&'static str>)
    ensures
        match r {
            Some(label) => media_label(media@) == Some(label@),
            None => media_label(media@) is None,
        },
{
    if media.eq("flash_cf") {
        Some("CompactFlash")
    } else if media.eq("flash_ms") {
        Some("MemoryStick")
    } else if media.eq("flash_sm") {
        Some("SmartMedia")
    } else if media.eq("flash_sd") {
        Some("SecureDigital")
    } else if media.eq("flash_sdhc") {
        Some("SD High Capacity")
    } else if media.eq("floppy") {
        Some("Floppy")
    } else if media.eq("floppy_zip") {
        Some("Zip")
    } else if media.eq("floppy_jaz") {
        Some("Jaz")
    } else if begins_with(media, "flash") {
        Some("Flash")
    } else {
        None
    }
}

/// Returns the family of optical discs that an identifier stands for.
pub fn family_of_disc(media: &str) -> (r: Option<Disc>)
    ensures
        r == disc_family(media@),
{
    if label_of_media(media).is_some() {
        None
    } else if begins_with(media, "optical_cd") {
        Some(Disc::Cd)
    } else if begins_with(media, "optical_dvd") {
        Some(Disc::Dvd)
    } else if begins_with(media, "optical_bd") {
        Some(Disc::Bd)
    } else if begins_with(media, "optical_hddvd") {
        Some(Disc::Hddvd)
    } else {
        None
    }
}

impl Client {
    /// Adds the name of a family of discs to the text where the family is present.
    fn push_disc(&self, text: &mut String, present: bool, label: &str)
        ensures
            final(text)@ == with_disc(self@.catalog, old(text)@, present, label@),
    {
        if present {
            if !text.as_str().is_empty() {
                proof {
                    reveal_strlit("/");
                }
                text.append("/");
            }
            text.append(self.catalog().lookup(Domain::Default, Some("disc-type"), label));
        }
    }

    /// Returns a human-readable, localized string of the media described by the given `media_compat`.
    ///
    /// If the media is unknown, [`Option::None`] is returned.
    pub fn media_compat_for_display(&self, media_compat: &[&str]) -> (r: Option<String>)
        ensures
            crate::text::chars_of(r) == media_compat_text(self@.catalog, each_chars(media_compat@)),
    {
        let ghost media = each_chars(media_compat@);
        let mut text = String::new();
        let mut any = false;
        let mut cd = false;
        let mut dvd = false;
        let mut bd = false;
        let mut hddvd = false;
        let n = media_compat.len();
        let mut i: usize = 0;
        while i < n
            invariant
                n == media_compat@.len(),
                media == each_chars(media_compat@),
                i <= n,
                text@ == labelled_media(self@.catalog, media, i as int),
                any == any_labelled(media, i as int),
                cd == any_disc(media, Disc::Cd, i as int),
                dvd == any_disc(media, Disc::Dvd, i as int),
                bd == any_disc(media, Disc::Bd, i as int),
                hddvd == any_disc(media, Disc::Hddvd, i as int),
            decreases n - i,
        {
            let name = media_compat[i];
            match label_of_media(name) {
                Some(label) => {
                    if any {
                        proof {
                            reveal_strlit(",");
                        }
                        text.append(",");
                    }
                    text.append(self.catalog().lookup(Domain::Default, Some("media"), label));
                    any = true;
                },
                None => {},
            }
            match family_of_disc(name) {
                Some(Disc::Cd) => {
                    cd = true;
                },
                Some(Disc::Dvd) => {
                    dvd = true;
                },
                Some(Disc::Bd) => {
                    bd = true;
                },
                Some(Disc::Hddvd) => {
                    hddvd = true;
                },
                None => {},
            }
            i += 1;
        }
        self.push_disc(&mut text, cd, "CD");
        self.push_disc(&mut text, dvd, "DVD");
        self.push_disc(&mut text, bd, "Blu-Ray");
        self.push_disc(&mut text, hddvd, "HDDVD");
        if text.as_str().is_empty() {
            None
        } else {
            Some(text)
        }
    }
}


} // verus!
