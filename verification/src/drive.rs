//! Drives: hard disks and disk drives, with or without removable media.
//!
//! A drive is not a block device. Where two block devices are two paths to
//! one drive, the snapshot holds one drive and two blocks that name it.
use vstd::prelude::*;


verus! {

/// Rotational rate of a drive.
#[derive(Clone, Copy, Debug, PartialEq, Eq, Structural)]
pub enum RotationRate {
    /// The drive is known to be rotating media but rotation rate isn't known.
    Unknown,
    /// The drive is known to be non-rotating media.
    NonRotating,
    /// The rotation rate in rounds per minute.
    Rotating(i32),
}

impl RotationRate {
    /// The rate that the service's number stands for: `-1` for rotating at
    /// an unknown rate, `0` for not rotating, else the rounds per minute.
    pub open spec fn of(v: i32) -> RotationRate {
        if v == -1 {
            RotationRate::Unknown
        } else if v == 0 {
            RotationRate::NonRotating
        } else {
            RotationRate::Rotating(v)
        }
    }

    /// Reads the rate from the service's number.
    pub fn from_value(v: i32) -> (r: RotationRate)
        ensures
            r == RotationRate::of(v),
    {
        if v == -1 {
            RotationRate::Unknown
        } else if v == 0 {
            RotationRate::NonRotating
        } else {
            RotationRate::Rotating(v)
        }
    }
}

impl Default for RotationRate {
    fn default() -> (r: RotationRate)
        ensures
            r == RotationRate::NonRotating,
    {
        RotationRate::NonRotating
    }
}

/// The physical kind of media a drive uses or the type of the drive.
#[derive(Clone, Copy, Debug, PartialEq, Eq, Structural)]
#[non_exhaustive]
pub enum MediaCompatibility {
    /// The device is a thumb-drive with non-removable media (e.g. a USB stick)
    Thumb,
    /// Flash Card
    Flash,
    /// CompactFlash
    FlashCf,
    /// MemoryStick
    FlashMs,
    /// SmartMedia
    FlashSm,
    /// Secure Digital
    FlashSd,
    /// Secure Digital High Capacity
    FlashSdhc,
    /// Secure Digital eXtended Capacity
    FlashSdxc,
    /// Secure Digital Input Output
    FlashSdio,
    /// Secure Digital Input Output combo card with storage and I/O functionality
    FlashSdCombo,
    /// MultiMediaCard
    FlashMmc,
    /// Floppy Disk
    Floppy,
    /// Zip Disk
    FloppyZip,
    /// Jaz Disk
    FloppyJaz,
    /// Optical Disc
    Optical,
    /// Compact Disc
    OpticalCd,
    /// Compact Disc Recordable
    OpticalCdR,
    /// Compact Disc Rewritable
    OpticalCdRw,
    /// Digital Versatile Disc
    OpticalDvd,
    /// DVD-R
    OpticalDvdR,
    /// DVD-RW
    OpticalDvdRw,
    /// DVD-RAM
    OpticalDvdRam,
    /// DVD+R
    OpticalDvdPlusR,
    /// DVD+RW
    OpticalDvdPlusRw,
    /// DVD+R Dual Layer
    OpticalDvdPlusRDl,
    /// DVD+RW Dual Layer
    OpticalDvdPlusRwDl,
    /// Blu-ray Disc
    OpticalBd,
    /// Blu-ray Recordable
    OpticalBdR,
    /// Blu-ray Rewritable
    OpticalBdRe,
    /// HD-DVD
    OpticalHddvd,
    /// HD-DVD Recordable
    OpticalHddvdR,
    /// HD-DVD Rewritable
    OpticalHddvdRw,
    /// Magneto Optical
    OpticalMo,
    /// Can read Mount Rainer media
    OpticalMrw,
    /// Can write Mount Rainer media
    OpticalMrwW,
    /// Media is unknown
    Unknown,
}

impl MediaCompatibility {
    /// The kind that the service's identifier names; `Unknown` for the empty
    /// identifier and for any that is not listed.
    pub open spec fn named(s: Seq<char>) -> MediaCompatibility {
        if s == "thumb"@ {
            MediaCompatibility::Thumb
        } else if s == "flash"@ {
            MediaCompatibility::Flash
        } else if s == "flash_cf"@ {
            MediaCompatibility::FlashCf
        } else if s == "flash_ms"@ {
            MediaCompatibility::FlashMs
        } else if s == "flash_sm"@ {
            MediaCompatibility::FlashSm
        } else if s == "flash_sd"@ {
            MediaCompatibility::FlashSd
        } else if s == "flash_sdhc"@ {
            MediaCompatibility::FlashSdhc
        } else if s == "flash_sdxc"@ {
            MediaCompatibility::FlashSdxc
        } else if s == "flash_sdio"@ {
            MediaCompatibility::FlashSdio
        } else if s == "flash_sd_combo"@ {
            MediaCompatibility::FlashSdCombo
        } else if s == "flash_mmc"@ {
            MediaCompatibility::FlashMmc
        } else if s == "floppy"@ {
            MediaCompatibility::Floppy
        } else if s == "floppy_zip"@ {
            MediaCompatibility::FloppyZip
        } else if s == "floppy_jaz"@ {
            MediaCompatibility::FloppyJaz
        } else if s == "optical"@ {
            MediaCompatibility::Optical
        } else if s == "optical_cd"@ {
            MediaCompatibility::OpticalCd
        } else if s == "optical_cd_r"@ {
            MediaCompatibility::OpticalCdR
        } else if s == "optical_cd_rw"@ {
            MediaCompatibility::OpticalCdRw
        } else if s == "optical_dvd"@ {
            MediaCompatibility::OpticalDvd
        } else if s == "optical_dvd_r"@ {
            MediaCompatibility::OpticalDvdR
        } else if s == "optical_dvd_rw"@ {
            MediaCompatibility::OpticalDvdRw
        } else if s == "optical_dvd_ram"@ {
            MediaCompatibility::OpticalDvdRam
        } else if s == "optical_dvd_plus_r"@ {
            MediaCompatibility::OpticalDvdPlusR
        } else if s == "optical_dvd_plus_rw"@ {
            MediaCompatibility::OpticalDvdPlusRw
        } else if s == "optical_dvd_plus_r_dl"@ {
            MediaCompatibility::OpticalDvdPlusRDl
        } else if s == "optical_dvd_plus_rw_dl"@ {
            MediaCompatibility::OpticalDvdPlusRwDl
        } else if s == "optical_bd"@ {
            MediaCompatibility::OpticalBd
        } else if s == "optical_bd_r"@ {
            MediaCompatibility::OpticalBdR
        } else if s == "optical_bd_re"@ {
            MediaCompatibility::OpticalBdRe
        } else if s == "optical_hddvd"@ {
            MediaCompatibility::OpticalHddvd
        } else if s == "optical_hddvd_r"@ {
            MediaCompatibility::OpticalHddvdR
        } else if s == "optical_hddvd_rw"@ {
            MediaCompatibility::OpticalHddvdRw
        } else if s == "optical_mo"@ {
            MediaCompatibility::OpticalMo
        } else if s == "optical_mrw"@ {
            MediaCompatibility::OpticalMrw
        } else if s == "optical_mrw_w"@ {
            MediaCompatibility::OpticalMrwW
        } else {
            MediaCompatibility::Unknown
        }
    }

    /// Reads the kind from the service's identifier.
    pub fn from_str(s: &str) -> (r: MediaCompatibility)
        ensures
            r == MediaCompatibility::named(s@),
    {
        if s.eq("thumb") {
            MediaCompatibility::Thumb
        } else if s.eq("flash") {
            MediaCompatibility::Flash
        } else if s.eq("flash_cf") {
            MediaCompatibility::FlashCf
        } else if s.eq("flash_ms") {
            MediaCompatibility::FlashMs
        } else if s.eq("flash_sm") {
            MediaCompatibility::FlashSm
        } else if s.eq("flash_sd") {
            MediaCompatibility::FlashSd
        } else if s.eq("flash_sdhc") {
            MediaCompatibility::FlashSdhc
        } else if s.eq("flash_sdxc") {
            MediaCompatibility::FlashSdxc
        } else if s.eq("flash_sdio") {
            MediaCompatibility::FlashSdio
        } else if s.eq("flash_sd_combo") {
            MediaCompatibility::FlashSdCombo
        } else if s.eq("flash_mmc") {
            MediaCompatibility::FlashMmc
        } else if s.eq("floppy") {
            MediaCompatibility::Floppy
        } else if s.eq("floppy_zip") {
            MediaCompatibility::FloppyZip
        } else if s.eq("floppy_jaz") {
            MediaCompatibility::FloppyJaz
        } else if s.eq("optical") {
            MediaCompatibility::Optical
        } else if s.eq("optical_cd") {
            MediaCompatibility::OpticalCd
        } else if s.eq("optical_cd_r") {
            MediaCompatibility::OpticalCdR
        } else if s.eq("optical_cd_rw") {
            MediaCompatibility::OpticalCdRw
        } else if s.eq("optical_dvd") {
            MediaCompatibility::OpticalDvd
        } else if s.eq("optical_dvd_r") {
            MediaCompatibility::OpticalDvdR
        } else if s.eq("optical_dvd_rw") {
            MediaCompatibility::OpticalDvdRw
        } else if s.eq("optical_dvd_ram") {
            MediaCompatibility::OpticalDvdRam
        } else if s.eq("optical_dvd_plus_r") {
            MediaCompatibility::OpticalDvdPlusR
        } else if s.eq("optical_dvd_plus_rw") {
            MediaCompatibility::OpticalDvdPlusRw
        } else if s.eq("optical_dvd_plus_r_dl") {
            MediaCompatibility::OpticalDvdPlusRDl
        } else if s.eq("optical_dvd_plus_rw_dl") {
            MediaCompatibility::OpticalDvdPlusRwDl
        } else if s.eq("optical_bd") {
            MediaCompatibility::OpticalBd
        } else if s.eq("optical_bd_r") {
            MediaCompatibility::OpticalBdR
        } else if s.eq("optical_bd_re") {
            MediaCompatibility::OpticalBdRe
        } else if s.eq("optical_hddvd") {
            MediaCompatibility::OpticalHddvd
        } else if s.eq("optical_hddvd_r") {
            MediaCompatibility::OpticalHddvdR
        } else if s.eq("optical_hddvd_rw") {
            MediaCompatibility::OpticalHddvdRw
        } else if s.eq("optical_mo") {
            MediaCompatibility::OpticalMo
        } else if s.eq("optical_mrw") {
            MediaCompatibility::OpticalMrw
        } else if s.eq("optical_mrw_w") {
            MediaCompatibility::OpticalMrwW
        } else {
            MediaCompatibility::Unknown
        }
    }
}

/// The drive interface of an object, with the properties read from it.
#[derive(Clone, Debug)]
pub struct Drive {
    /// Path of the object that exposes the interface.
    pub path: String,
    /// Name of the vendor; empty when unknown.
    pub vendor: String,
    /// Name of the model; empty when unknown.
    pub model: String,
    /// Firmware revision, where it could be read.
    pub revision: Option<String>,
    /// Size of the drive in bytes, where it is known.
    pub size: Option<u64>,
    /// Whether the media can be taken out of the drive.
    pub media_removable: bool,
    /// Whether the drive holds media.
    pub media_available: bool,
    /// The kind of media that is in the drive.
    pub media: MediaCompatibility,
    /// The kinds of media that the drive can take.
    pub media_compatibility: Vec<MediaCompatibility>,
    /// Whether and how fast the drive rotates.
    pub rotation_rate: RotationRate,
    /// The bus the drive is attached by (`usb`, `sdio`, ...); empty when unknown.
    pub connection_bus: String,
    /// Whether the disc in the drive is blank.
    pub optical_blank: bool,
    /// Number of audio tracks on the disc, where it could be read.
    pub optical_num_audio_tracks: Option<u32>,
    /// Number of data tracks on the disc, where it could be read.
    pub optical_num_data_tracks: Option<u32>,
    /// Token shared by the drives of one physical unit; empty when there is none.
    pub sibling_id: String,
    /// Key by which the service orders drives.
    pub sort_key: String,
}

impl Drive {
    /// A drive of which nothing is known but the object that exposes it:
    /// fixed media that does not rotate, every text empty.
    pub fn new(path: String) -> (r: Drive)
        ensures
            r.path == path,
            r.vendor@.len() == 0,
            r.model@.len() == 0,
            r.revision is None,
            r.size is None,
            !r.media_removable,
            !r.media_available,
            r.media == MediaCompatibility::Unknown,
            r.media_compatibility@.len() == 0,
            r.rotation_rate == RotationRate::NonRotating,
            r.connection_bus@.len() == 0,
            !r.optical_blank,
            r.optical_num_audio_tracks is None,
            r.optical_num_data_tracks is None,
            r.sibling_id@.len() == 0,
            r.sort_key@.len() == 0,
    {
        Drive {
            path,
            vendor: String::new(),
            model: String::new(),
            revision: None,
            size: None,
            media_removable: false,
            media_available: false,
            media: MediaCompatibility::Unknown,
            media_compatibility: Vec::new(),
            rotation_rate: RotationRate::NonRotating,
            connection_bus: String::new(),
            optical_blank: false,
            optical_num_audio_tracks: None,
            optical_num_data_tracks: None,
            sibling_id: String::new(),
            sort_key: String::new(),
        }
    }
}

impl Drive {
    /// True when the two have the same properties, whatever object each is
    /// bound to.
    pub open spec fn same_properties(self, other: Drive) -> bool {
        &&& self.vendor == other.vendor
        &&& self.model == other.model
        &&& self.revision == other.revision
        &&& self.size == other.size
        &&& self.media_removable == other.media_removable
        &&& self.media_available == other.media_available
        &&& self.media == other.media
        &&& self.media_compatibility == other.media_compatibility
        &&& self.rotation_rate == other.rotation_rate
        &&& self.connection_bus == other.connection_bus
        &&& self.optical_blank == other.optical_blank
        &&& self.optical_num_audio_tracks == other.optical_num_audio_tracks
        &&& self.optical_num_data_tracks == other.optical_num_data_tracks
        &&& self.sibling_id == other.sibling_id
        &&& self.sort_key == other.sort_key
    }
}

} // verus!
