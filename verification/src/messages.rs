//! The messages that the library shows, as the source writes them.
use vstd::prelude::*;
use crate::catalog::Domain;

verus! {

/// A message: where it is looked up, the context that tells it from others
/// of the same wording, and the wording itself. In a message that takes
/// arguments, `%s` marks the place of each and `%u` that of a number.
#[derive(Clone, Copy, Debug)]
pub struct Message {
    /// The domain that the message is looked up in.
    pub domain: Domain,
    /// The context of the message.
    pub context: Option<&'static str>,
    /// The message as the source writes it.
    pub msgid: &'static str,
}

/// Number of messages.
pub const MESSAGES_LEN: usize = 254;

/// Message `i` of the list of all messages.
pub open spec fn message(i: int) -> Message {
    if i == 0 {
        Message { domain: Domain::Default, context: Some("byte-size-pow10"), msgid: "B" }
    } else if i == 1 {
        Message { domain: Domain::Default, context: Some("byte-size-pow10"), msgid: "kB" }
    } else if i == 2 {
        Message { domain: Domain::Default, context: Some("byte-size-pow10"), msgid: "MB" }
    } else if i == 3 {
        Message { domain: Domain::Default, context: Some("byte-size-pow10"), msgid: "GB" }
    } else if i == 4 {
        Message { domain: Domain::Default, context: Some("byte-size-pow10"), msgid: "TB" }
    } else if i == 5 {
        Message { domain: Domain::Default, context: Some("byte-size-pow10"), msgid: "%s (%s bytes)" }
    } else if i == 6 {
        Message { domain: Domain::Default, context: Some("byte-size-pow2"), msgid: "B" }
    } else if i == 7 {
        Message { domain: Domain::Default, context: Some("byte-size-pow2"), msgid: "KiB" }
    } else if i == 8 {
        Message { domain: Domain::Default, context: Some("byte-size-pow2"), msgid: "MiB" }
    } else if i == 9 {
        Message { domain: Domain::Default, context: Some("byte-size-pow2"), msgid: "GiB" }
    } else if i == 10 {
        Message { domain: Domain::Default, context: Some("byte-size-pow2"), msgid: "TiB" }
    } else if i == 11 {
        Message { domain: Domain::Default, context: Some("byte-size-pow2"), msgid: "%s (%s bytes)" }
    } else if i == 12 {
        Message { domain: Domain::Default, context: Some("job"), msgid: "SMART self-test" }
    } else if i == 13 {
        Message { domain: Domain::Default, context: Some("job"), msgid: "Ejecting Medium" }
    } else if i == 14 {
        Message { domain: Domain::Default, context: Some("job"), msgid: "Unlocking Device" }
    } else if i == 15 {
        Message { domain: Domain::Default, context: Some("job"), msgid: "Locking Device" }
    } else if i == 16 {
        Message { domain: Domain::Default, context: Some("job"), msgid: "Modifying Encrypted Device" }
    } else if i == 17 {
        Message { domain: Domain::Default, context: Some("job"), msgid: "Resizing Encrypted Device" }
    } else if i == 18 {
        Message { domain: Domain::Default, context: Some("job"), msgid: "Starting Swap Device" }
    } else if i == 19 {
        Message { domain: Domain::Default, context: Some("job"), msgid: "Stopping Swap Device" }
    } else if i == 20 {
        Message { domain: Domain::Default, context: Some("job"), msgid: "Modifying Swap Device" }
    } else if i == 21 {
        Message { domain: Domain::Default, context: Some("job"), msgid: "Checking Filesystem" }
    } else if i == 22 {
        Message { domain: Domain::Default, context: Some("job"), msgid: "Mounting Filesystem" }
    } else if i == 23 {
        Message { domain: Domain::Default, context: Some("job"), msgid: "Unmounting Filesystem" }
    } else if i == 24 {
        Message { domain: Domain::Default, context: Some("job"), msgid: "Modifying Filesystem" }
    } else if i == 25 {
        Message { domain: Domain::Default, context: Some("job"), msgid: "Repairing Filesystem" }
    } else if i == 26 {
        Message { domain: Domain::Default, context: Some("job"), msgid: "Resizing Filesystem" }
    } else if i == 27 {
        Message { domain: Domain::Default, context: Some("job"), msgid: "Erasing Device" }
    } else if i == 28 {
        Message { domain: Domain::Default, context: Some("job"), msgid: "Creating Filesystem" }
    } else if i == 29 {
        Message { domain: Domain::Default, context: Some("job"), msgid: "Setting Up Loop Device" }
    } else if i == 30 {
        Message { domain: Domain::Default, context: Some("job"), msgid: "Modifying Partition" }
    } else if i == 31 {
        Message { domain: Domain::Default, context: Some("job"), msgid: "Deleting Partition" }
    } else if i == 32 {
        Message { domain: Domain::Default, context: Some("job"), msgid: "Creating Partition" }
    } else if i == 33 {
        Message { domain: Domain::Default, context: Some("job"), msgid: "Cleaning Up" }
    } else if i == 34 {
        Message { domain: Domain::Default, context: Some("job"), msgid: "ATA Secure Erase" }
    } else if i == 35 {
        Message { domain: Domain::Default, context: Some("job"), msgid: "ATA Enhanced Secure Erase" }
    } else if i == 36 {
        Message { domain: Domain::Default, context: Some("job"), msgid: "Stopping RAID Array" }
    } else if i == 37 {
        Message { domain: Domain::Default, context: Some("job"), msgid: "Starting RAID Array" }
    } else if i == 38 {
        Message { domain: Domain::Default, context: Some("job"), msgid: "Marking Device as Faulty" }
    } else if i == 39 {
        Message { domain: Domain::Default, context: Some("job"), msgid: "Removing Device from Array" }
    } else if i == 40 {
        Message { domain: Domain::Default, context: Some("job"), msgid: "Adding Device to Array" }
    } else if i == 41 {
        Message { domain: Domain::Default, context: Some("job"), msgid: "Setting Write-Intent Bitmap" }
    } else if i == 42 {
        Message { domain: Domain::Default, context: Some("job"), msgid: "Creating RAID Array" }
    } else if i == 43 {
        Message { domain: Domain::Default, context: Some("unknown-job"), msgid: "Unknown (%s)" }
    } else if i == 44 {
        Message { domain: Domain::Default, context: None, msgid: "%s Block Device" }
    } else if i == 45 {
        Message { domain: Domain::Default, context: None, msgid: "Block Device" }
    } else if i == 46 {
        Message { domain: Domain::Default, context: None, msgid: "%s Loop Device" }
    } else if i == 47 {
        Message { domain: Domain::Default, context: None, msgid: "Loop Device" }
    } else if i == 48 {
        Message { domain: Domain::Default, context: Some("part-block"), msgid: "Partition %u of %s" }
    } else if i == 49 {
        Message { domain: Domain::Default, context: Some("part-loop"), msgid: "Partition %u of %s" }
    } else if i == 50 {
        Message { domain: Domain::Default, context: Some("part-raid"), msgid: "Partition %u of %s" }
    } else if i == 51 {
        Message { domain: Domain::Default, context: Some("part-drive"), msgid: "Partition %u of %s" }
    } else if i == 52 {
        Message { domain: Domain::Default, context: Some("one-liner-block"), msgid: "%s (%s)" }
    } else if i == 53 {
        Message { domain: Domain::Default, context: Some("one-liner-loop"), msgid: "%s \u{2014} %s (%s)" }
    } else if i == 54 {
        Message { domain: Domain::Default, context: Some("one-liner-mdraid-running"), msgid: "%s \u{2014} %s (%s)" }
    } else if i == 55 {
        Message { domain: Domain::Default, context: Some("one-liner-mdraid-not-running"), msgid: "%s \u{2014} %s" }
    } else if i == 56 {
        Message {
            domain: Domain::Default,
            context: Some("one-liner-mdraid-no-name-running"),
            msgid: "%s \u{2014} %s",
        }
    } else if i == 57 {
        Message { domain: Domain::Default, context: Some("one-liner-mdraid-no-name-not-running"), msgid: "%s" }
    } else if i == 58 {
        Message { domain: Domain::Default, context: Some("one-liner-drive"), msgid: "%s \u{2014} %s [%s] (%s)" }
    } else if i == 59 {
        Message { domain: Domain::Default, context: Some("one-liner-drive"), msgid: "%s \u{2014} %s (%s)" }
    } else if i == 60 {
        Message { domain: Domain::Default, context: Some("mdraid-desc"), msgid: "%s %s" }
    } else if i == 61 {
        Message { domain: Domain::Default, context: Some("mdraid-desc"), msgid: "RAID-0 Array" }
    } else if i == 62 {
        Message { domain: Domain::Default, context: Some("mdraid-desc"), msgid: "RAID-1 Array" }
    } else if i == 63 {
        Message { domain: Domain::Default, context: Some("mdraid-desc"), msgid: "RAID-4 Array" }
    } else if i == 64 {
        Message { domain: Domain::Default, context: Some("mdraid-desc"), msgid: "RAID-5 Array" }
    } else if i == 65 {
        Message { domain: Domain::Default, context: Some("mdraid-desc"), msgid: "RAID-6 Array" }
    } else if i == 66 {
        Message { domain: Domain::Default, context: Some("mdraid-desc"), msgid: "RAID-10 Array" }
    } else if i == 67 {
        Message { domain: Domain::Default, context: Some("mdraid-desc"), msgid: "RAID Array" }
    } else if i == 68 {
        Message { domain: Domain::Default, context: Some("media-type"), msgid: "Thumb" }
    } else if i == 69 {
        Message { domain: Domain::Default, context: Some("media-type"), msgid: "Floppy" }
    } else if i == 70 {
        Message { domain: Domain::Default, context: Some("media-type"), msgid: "Zip" }
    } else if i == 71 {
        Message { domain: Domain::Default, context: Some("media-type"), msgid: "Jaz" }
    } else if i == 72 {
        Message { domain: Domain::Default, context: Some("media-type"), msgid: "Flash" }
    } else if i == 73 {
        Message { domain: Domain::Default, context: Some("media-type"), msgid: "MemoryStick" }
    } else if i == 74 {
        Message { domain: Domain::Default, context: Some("media-type"), msgid: "SmartMedia" }
    } else if i == 75 {
        Message { domain: Domain::Default, context: Some("media-type"), msgid: "CompactFlash" }
    } else if i == 76 {
        Message { domain: Domain::Default, context: Some("media-type"), msgid: "SD" }
    } else if i == 77 {
        Message { domain: Domain::Default, context: Some("media-type"), msgid: "CD" }
    } else if i == 78 {
        Message { domain: Domain::Default, context: Some("media-type"), msgid: "DVD" }
    } else if i == 79 {
        Message { domain: Domain::Default, context: Some("media-type"), msgid: "Blu-Ray" }
    } else if i == 80 {
        Message { domain: Domain::Default, context: Some("media-type"), msgid: "HDDVD" }
    } else if i == 81 {
        Message { domain: Domain::Package, context: Some("media-type"), msgid: "Thumb" }
    } else if i == 82 {
        Message { domain: Domain::Package, context: Some("media-type"), msgid: "Floppy" }
    } else if i == 83 {
        Message { domain: Domain::Package, context: Some("media-type"), msgid: "Zip" }
    } else if i == 84 {
        Message { domain: Domain::Package, context: Some("media-type"), msgid: "Jaz" }
    } else if i == 85 {
        Message { domain: Domain::Package, context: Some("media-type"), msgid: "Flash" }
    } else if i == 86 {
        Message { domain: Domain::Package, context: Some("media-type"), msgid: "MemoryStick" }
    } else if i == 87 {
        Message { domain: Domain::Package, context: Some("media-type"), msgid: "SmartMedia" }
    } else if i == 88 {
        Message { domain: Domain::Package, context: Some("media-type"), msgid: "CompactFlash" }
    } else if i == 89 {
        Message { domain: Domain::Package, context: Some("media-type"), msgid: "MMC" }
    } else if i == 90 {
        Message { domain: Domain::Package, context: Some("media-type"), msgid: "SD" }
    } else if i == 91 {
        Message { domain: Domain::Package, context: Some("media-type"), msgid: "SDXC" }
    } else if i == 92 {
        Message { domain: Domain::Package, context: Some("media-type"), msgid: "SDHC" }
    } else if i == 93 {
        Message { domain: Domain::Package, context: Some("media-type"), msgid: "CD-ROM" }
    } else if i == 94 {
        Message { domain: Domain::Package, context: Some("media-type"), msgid: "CD-R" }
    } else if i == 95 {
        Message { domain: Domain::Package, context: Some("media-type"), msgid: "CD-RW" }
    } else if i == 96 {
        Message { domain: Domain::Package, context: Some("media-type"), msgid: "DVD" }
    } else if i == 97 {
        Message { domain: Domain::Package, context: Some("media-type"), msgid: "DVD-R" }
    } else if i == 98 {
        Message { domain: Domain::Package, context: Some("media-type"), msgid: "DVD-RW" }
    } else if i == 99 {
        Message { domain: Domain::Package, context: Some("media-type"), msgid: "DVD-RAM" }
    } else if i == 100 {
        Message { domain: Domain::Package, context: Some("media-type"), msgid: "DVD+R" }
    } else if i == 101 {
        Message { domain: Domain::Package, context: Some("media-type"), msgid: "DVD+RW" }
    } else if i == 102 {
        Message { domain: Domain::Package, context: Some("media-type"), msgid: "DVD+R DL" }
    } else if i == 103 {
        Message { domain: Domain::Package, context: Some("media-type"), msgid: "DVD+RW DL" }
    } else if i == 104 {
        Message { domain: Domain::Package, context: Some("media-type"), msgid: "BD-ROM" }
    } else if i == 105 {
        Message { domain: Domain::Package, context: Some("media-type"), msgid: "BD-R" }
    } else if i == 106 {
        Message { domain: Domain::Package, context: Some("media-type"), msgid: "BD-RE" }
    } else if i == 107 {
        Message { domain: Domain::Package, context: Some("media-type"), msgid: "HDDVD" }
    } else if i == 108 {
        Message { domain: Domain::Package, context: Some("media-type"), msgid: "HDDVD-R" }
    } else if i == 109 {
        Message { domain: Domain::Package, context: Some("media-type"), msgid: "HDDVD-RW" }
    } else if i == 110 {
        Message { domain: Domain::Package, context: Some("media-type"), msgid: "MO" }
    } else if i == 111 {
        Message { domain: Domain::Package, context: Some("media-type"), msgid: "MRW" }
    } else if i == 112 {
        Message { domain: Domain::Package, context: Some("media-type"), msgid: "MRW-W" }
    } else if i == 113 {
        Message { domain: Domain::Default, context: Some("drive-with-size"), msgid: "%s Drive" }
    } else if i == 114 {
        Message { domain: Domain::Default, context: Some("generic-drive"), msgid: "Drive" }
    } else if i == 115 {
        Message { domain: Domain::Default, context: Some("disk-non-rotational"), msgid: "%s Disk" }
    } else if i == 116 {
        Message { domain: Domain::Default, context: Some("disk-non-rotational"), msgid: "Disk" }
    } else if i == 117 {
        Message { domain: Domain::Default, context: Some("disk-hdd"), msgid: "%s Hard Disk" }
    } else if i == 118 {
        Message { domain: Domain::Default, context: Some("disk-hdd"), msgid: "Hard Disk" }
    } else if i == 119 {
        Message { domain: Domain::Default, context: Some("drive-card-reader"), msgid: "%s Card Reader" }
    } else if i == 120 {
        Message { domain: Domain::Default, context: Some("drive-with-size-and-type"), msgid: "%s %s Drive" }
    } else if i == 121 {
        Message { domain: Domain::Default, context: Some("drive-with-type"), msgid: "%s Drive" }
    } else if i == 122 {
        Message { domain: Domain::Default, context: Some("drive-with-fixed-media"), msgid: "%s Drive" }
    } else if i == 123 {
        Message { domain: Domain::Default, context: Some("drive-with-generic-media"), msgid: "%s Disk" }
    } else if i == 124 {
        Message { domain: Domain::Default, context: Some("flash-media"), msgid: "%s Card" }
    } else if i == 125 {
        Message { domain: Domain::Default, context: Some("optical-media"), msgid: "%s Disc" }
    } else if i == 126 {
        Message { domain: Domain::Default, context: Some("optical-media"), msgid: "Blank %s" }
    } else if i == 127 {
        Message { domain: Domain::Default, context: Some("optical-media"), msgid: "Mixed %s" }
    } else if i == 128 {
        Message { domain: Domain::Default, context: Some("optical-media"), msgid: "Audio %s" }
    } else if i == 129 {
        Message { domain: Domain::Default, context: Some("media"), msgid: "CompactFlash" }
    } else if i == 130 {
        Message { domain: Domain::Default, context: Some("media"), msgid: "MemoryStick" }
    } else if i == 131 {
        Message { domain: Domain::Default, context: Some("media"), msgid: "SmartMedia" }
    } else if i == 132 {
        Message { domain: Domain::Default, context: Some("media"), msgid: "SecureDigital" }
    } else if i == 133 {
        Message { domain: Domain::Default, context: Some("media"), msgid: "SD High Capacity" }
    } else if i == 134 {
        Message { domain: Domain::Default, context: Some("media"), msgid: "Floppy" }
    } else if i == 135 {
        Message { domain: Domain::Default, context: Some("media"), msgid: "Zip" }
    } else if i == 136 {
        Message { domain: Domain::Default, context: Some("media"), msgid: "Jaz" }
    } else if i == 137 {
        Message { domain: Domain::Default, context: Some("media"), msgid: "Flash" }
    } else if i == 138 {
        Message { domain: Domain::Default, context: Some("disc-type"), msgid: "CD" }
    } else if i == 139 {
        Message { domain: Domain::Default, context: Some("disc-type"), msgid: "DVD" }
    } else if i == 140 {
        Message { domain: Domain::Default, context: Some("disc-type"), msgid: "Blu-Ray" }
    } else if i == 141 {
        Message { domain: Domain::Default, context: Some("disc-type"), msgid: "HDDVD" }
    } else if i == 142 {
        Message { domain: Domain::Default, context: Some("partition-info"), msgid: "%s (%s)" }
    } else if i == 143 {
        Message { domain: Domain::Default, context: Some("partition-info"), msgid: "Unknown" }
    } else if i == 144 {
        Message { domain: Domain::Default, context: Some("dos-part-flag"), msgid: "Bootable" }
    } else if i == 145 {
        Message { domain: Domain::Default, context: Some("gpt-part-flag"), msgid: "System" }
    } else if i == 146 {
        Message { domain: Domain::Default, context: Some("gpt-part-flag"), msgid: "Legacy BIOS Bootable" }
    } else if i == 147 {
        Message { domain: Domain::Default, context: Some("gpt-part-flag"), msgid: "Read-only" }
    } else if i == 148 {
        Message { domain: Domain::Default, context: Some("gpt-part-flag"), msgid: "Hidden" }
    } else if i == 149 {
        Message { domain: Domain::Default, context: Some("gpt-part-flag"), msgid: "No Automount" }
    } else if i == 150 {
        Message { domain: Domain::Default, context: Some("fs-type"), msgid: "Unknown (%s %s)" }
    } else if i == 151 {
        Message { domain: Domain::Default, context: Some("fs-type"), msgid: "Unknown (%s)" }
    } else if i == 152 {
        Message { domain: Domain::Default, context: Some("fs-type"), msgid: "Unknown" }
    } else if i == 153 {
        Message { domain: Domain::Default, context: Some("dos"), msgid: "Master Boot Record" }
    } else if i == 154 {
        Message { domain: Domain::Default, context: Some("gpt"), msgid: "GUID Partition Table" }
    } else if i == 155 {
        Message { domain: Domain::Default, context: Some("apm"), msgid: "Apple Partition Map" }
    } else if i == 156 {
        Message { domain: Domain::Package, context: Some("partition-subtype"), msgid: "Generic" }
    } else if i == 157 {
        Message { domain: Domain::Package, context: Some("partition-subtype"), msgid: "Linux" }
    } else if i == 158 {
        Message { domain: Domain::Package, context: Some("partition-subtype"), msgid: "Windows" }
    } else if i == 159 {
        Message { domain: Domain::Package, context: Some("partition-subtype"), msgid: "Other" }
    } else if i == 160 {
        Message { domain: Domain::Package, context: Some("partition-subtype"), msgid: "Mac OS X" }
    } else if i == 161 {
        Message { domain: Domain::Package, context: Some("part-type"), msgid: "MBR Partition Scheme" }
    } else if i == 162 {
        Message { domain: Domain::Package, context: Some("part-type"), msgid: "EFI System" }
    } else if i == 163 {
        Message { domain: Domain::Package, context: Some("part-type"), msgid: "BIOS Boot" }
    } else if i == 164 {
        Message { domain: Domain::Package, context: Some("part-type"), msgid: "Linux Filesystem" }
    } else if i == 165 {
        Message { domain: Domain::Package, context: Some("part-type"), msgid: "Linux RAID" }
    } else if i == 166 {
        Message { domain: Domain::Package, context: Some("part-type"), msgid: "Linux Swap" }
    } else if i == 167 {
        Message { domain: Domain::Package, context: Some("part-type"), msgid: "Linux LVM" }
    } else if i == 168 {
        Message { domain: Domain::Package, context: Some("part-type"), msgid: "Linux Reserved" }
    } else if i == 169 {
        Message { domain: Domain::Package, context: Some("part-type"), msgid: "Microsoft Reserved" }
    } else if i == 170 {
        Message { domain: Domain::Package, context: Some("part-type"), msgid: "Microsoft Basic Data" }
    } else if i == 171 {
        Message { domain: Domain::Package, context: Some("part-type"), msgid: "Microsoft LDM metadata" }
    } else if i == 172 {
        Message { domain: Domain::Package, context: Some("part-type"), msgid: "Microsoft LDM data" }
    } else if i == 173 {
        Message {
            domain: Domain::Package,
            context: Some("part-type"),
            msgid: "Microsoft Windows Recovery Environment",
        }
    } else if i == 174 {
        Message { domain: Domain::Package, context: Some("part-type"), msgid: "Apple HFS/HFS+" }
    } else if i == 175 {
        Message { domain: Domain::Package, context: Some("part-type"), msgid: "Apple UFS" }
    } else if i == 176 {
        Message { domain: Domain::Package, context: Some("part-type"), msgid: "Apple RAID" }
    } else if i == 177 {
        Message { domain: Domain::Package, context: Some("part-type"), msgid: "Apple Boot" }
    } else if i == 178 {
        Message { domain: Domain::Package, context: Some("part-type"), msgid: "Apple Label" }
    } else if i == 179 {
        Message { domain: Domain::Package, context: Some("part-type"), msgid: "Extended" }
    } else if i == 180 {
        Message { domain: Domain::Package, context: Some("part-type"), msgid: "EFI GPT" }
    } else if i == 181 {
        Message { domain: Domain::Package, context: Some("part-type"), msgid: "EFI (FAT-12/16/32)" }
    } else if i == 182 {
        Message { domain: Domain::Package, context: Some("part-type"), msgid: "Linux swap" }
    } else if i == 183 {
        Message { domain: Domain::Package, context: Some("part-type"), msgid: "Linux" }
    } else if i == 184 {
        Message { domain: Domain::Package, context: Some("part-type"), msgid: "Linux Extended" }
    } else if i == 185 {
        Message { domain: Domain::Package, context: Some("part-type"), msgid: "Linux RAID auto" }
    } else if i == 186 {
        Message { domain: Domain::Package, context: Some("part-type"), msgid: "FAT12" }
    } else if i == 187 {
        Message { domain: Domain::Package, context: Some("part-type"), msgid: "FAT16 <32M" }
    } else if i == 188 {
        Message { domain: Domain::Package, context: Some("part-type"), msgid: "FAT16" }
    } else if i == 189 {
        Message { domain: Domain::Package, context: Some("part-type"), msgid: "NTFS/exFAT/HPFS" }
    } else if i == 190 {
        Message { domain: Domain::Package, context: Some("part-type"), msgid: "W95 FAT32" }
    } else if i == 191 {
        Message { domain: Domain::Package, context: Some("part-type"), msgid: "W95 FAT32 (LBA)" }
    } else if i == 192 {
        Message { domain: Domain::Package, context: Some("part-type"), msgid: "W95 FAT16 (LBA)" }
    } else if i == 193 {
        Message { domain: Domain::Package, context: Some("part-type"), msgid: "W95 Ext d (LBA)" }
    } else if i == 194 {
        Message { domain: Domain::Package, context: Some("part-type"), msgid: "Hidden FAT12" }
    } else if i == 195 {
        Message { domain: Domain::Package, context: Some("part-type"), msgid: "Hidden FAT16 <32M" }
    } else if i == 196 {
        Message { domain: Domain::Package, context: Some("part-type"), msgid: "Hidden FAT16" }
    } else if i == 197 {
        Message { domain: Domain::Package, context: Some("part-type"), msgid: "Hidden HPFS/NTFS" }
    } else if i == 198 {
        Message { domain: Domain::Package, context: Some("part-type"), msgid: "Hidden W95 FAT32" }
    } else if i == 199 {
        Message { domain: Domain::Package, context: Some("part-type"), msgid: "Hidden W95 FAT32 (LBA)" }
    } else if i == 200 {
        Message { domain: Domain::Package, context: Some("part-type"), msgid: "Hidden W95 FAT16 (LBA)" }
    } else if i == 201 {
        Message { domain: Domain::Package, context: Some("part-type"), msgid: "FreeBSD" }
    } else if i == 202 {
        Message { domain: Domain::Package, context: Some("part-type"), msgid: "OpenBSD" }
    } else if i == 203 {
        Message { domain: Domain::Package, context: Some("part-type"), msgid: "NetBSD" }
    } else if i == 204 {
        Message { domain: Domain::Package, context: Some("part-type"), msgid: "Darwin UFS" }
    } else if i == 205 {
        Message { domain: Domain::Package, context: Some("part-type"), msgid: "Mac OS X" }
    } else if i == 206 {
        Message { domain: Domain::Package, context: Some("part-type"), msgid: "Apple HFS/HFS" }
    } else if i == 207 {
        Message { domain: Domain::Package, context: Some("part-type"), msgid: "Apple Partition Map" }
    } else if i == 208 {
        Message { domain: Domain::Package, context: Some("part-type"), msgid: "Unused" }
    } else if i == 209 {
        Message { domain: Domain::Package, context: Some("part-type"), msgid: "Empty" }
    } else if i == 210 {
        Message { domain: Domain::Package, context: Some("part-type"), msgid: "Driver" }
    } else if i == 211 {
        Message { domain: Domain::Package, context: Some("part-type"), msgid: "Driver 4.3" }
    } else if i == 212 {
        Message { domain: Domain::Package, context: Some("part-type"), msgid: "ProDOS file system" }
    } else if i == 213 {
        Message { domain: Domain::Package, context: Some("part-type"), msgid: "FAT 12" }
    } else if i == 214 {
        Message { domain: Domain::Package, context: Some("part-type"), msgid: "FAT 16" }
    } else if i == 215 {
        Message { domain: Domain::Package, context: Some("part-type"), msgid: "FAT 32" }
    } else if i == 216 {
        Message { domain: Domain::Package, context: Some("part-type"), msgid: "FAT 16 (Windows)" }
    } else if i == 217 {
        Message { domain: Domain::Package, context: Some("part-type"), msgid: "FAT 32 (Windows)" }
    } else if i == 218 {
        Message { domain: Domain::Package, context: Some("fs-type"), msgid: "FAT (12-bit version)" }
    } else if i == 219 {
        Message { domain: Domain::Package, context: Some("fs-type"), msgid: "FAT" }
    } else if i == 220 {
        Message { domain: Domain::Package, context: Some("fs-type"), msgid: "FAT (16-bit version)" }
    } else if i == 221 {
        Message { domain: Domain::Package, context: Some("fs-type"), msgid: "FAT (32-bit version)" }
    } else if i == 222 {
        Message { domain: Domain::Package, context: Some("fs-type"), msgid: "NTFS (version %s)" }
    } else if i == 223 {
        Message { domain: Domain::Package, context: Some("fs-type"), msgid: "NTFS" }
    } else if i == 224 {
        Message { domain: Domain::Package, context: Some("fs-type"), msgid: "FAT (version %s)" }
    } else if i == 225 {
        Message { domain: Domain::Package, context: Some("fs-type"), msgid: "HFS" }
    } else if i == 226 {
        Message { domain: Domain::Package, context: Some("fs-type"), msgid: "HFS+" }
    } else if i == 227 {
        Message { domain: Domain::Package, context: Some("fs-type"), msgid: "Ext2 (version %s)" }
    } else if i == 228 {
        Message { domain: Domain::Package, context: Some("fs-type"), msgid: "Ext2" }
    } else if i == 229 {
        Message { domain: Domain::Package, context: Some("fs-type"), msgid: "Ext3 (version %s)" }
    } else if i == 230 {
        Message { domain: Domain::Package, context: Some("fs-type"), msgid: "Ext3" }
    } else if i == 231 {
        Message { domain: Domain::Package, context: Some("fs-type"), msgid: "Ext4 (version %s)" }
    } else if i == 232 {
        Message { domain: Domain::Package, context: Some("fs-type"), msgid: "Ext4" }
    } else if i == 233 {
        Message { domain: Domain::Package, context: Some("fs-type"), msgid: "XFS (version %s)" }
    } else if i == 234 {
        Message { domain: Domain::Package, context: Some("fs-type"), msgid: "XFS" }
    } else if i == 235 {
        Message { domain: Domain::Package, context: Some("fs-type"), msgid: "ISO 9660 (version %s)" }
    } else if i == 236 {
        Message { domain: Domain::Package, context: Some("fs-type"), msgid: "ISO9660" }
    } else if i == 237 {
        Message { domain: Domain::Package, context: Some("fs-type"), msgid: "ISO 9660" }
    } else if i == 238 {
        Message { domain: Domain::Package, context: Some("fs-type"), msgid: "UDF (version %s)" }
    } else if i == 239 {
        Message { domain: Domain::Package, context: Some("fs-type"), msgid: "UDF" }
    } else if i == 240 {
        Message { domain: Domain::Package, context: Some("fs-type"), msgid: "exFAT (version %s)" }
    } else if i == 241 {
        Message { domain: Domain::Package, context: Some("fs-type"), msgid: "exFAT" }
    } else if i == 242 {
        Message { domain: Domain::Package, context: Some("fs-type"), msgid: "Btrfs (version %s)" }
    } else if i == 243 {
        Message { domain: Domain::Package, context: Some("fs-type"), msgid: "Btrfs" }
    } else if i == 244 {
        Message { domain: Domain::Package, context: Some("fs-type"), msgid: "Swap (version %s)" }
    } else if i == 245 {
        Message { domain: Domain::Package, context: Some("fs-type"), msgid: "Swap" }
    } else if i == 246 {
        Message { domain: Domain::Package, context: Some("fs-type"), msgid: "LVM2 Physical Volume (%s)" }
    } else if i == 247 {
        Message { domain: Domain::Package, context: Some("fs-type"), msgid: "LVM2 PV" }
    } else if i == 248 {
        Message { domain: Domain::Package, context: Some("fs-type"), msgid: "LVM2 Physical Volume" }
    } else if i == 249 {
        Message { domain: Domain::Package, context: Some("fs-type"), msgid: "Linux RAID Member (version %s)" }
    } else if i == 250 {
        Message { domain: Domain::Package, context: Some("fs-type"), msgid: "Linux RAID Member" }
    } else if i == 251 {
        Message { domain: Domain::Package, context: Some("fs-type"), msgid: "LUKS Encryption (version %s)" }
    } else if i == 252 {
        Message { domain: Domain::Package, context: Some("fs-type"), msgid: "LUKS" }
    } else {
        Message { domain: Domain::Package, context: Some("fs-type"), msgid: "LUKS Encryption" }
    }
}

/// Reads message `i` of the list of all messages; the last one where `i` is beyond the end.
pub fn message_at(i: usize) -> (r: Message)
    ensures
        r == message(i as int),
{
    if i == 0 {
        Message { domain: Domain::Default, context: Some("byte-size-pow10"), msgid: "B" }
    } else if i == 1 {
        Message { domain: Domain::Default, context: Some("byte-size-pow10"), msgid: "kB" }
    } else if i == 2 {
        Message { domain: Domain::Default, context: Some("byte-size-pow10"), msgid: "MB" }
    } else if i == 3 {
        Message { domain: Domain::Default, context: Some("byte-size-pow10"), msgid: "GB" }
    } else if i == 4 {
        Message { domain: Domain::Default, context: Some("byte-size-pow10"), msgid: "TB" }
    } else if i == 5 {
        Message { domain: Domain::Default, context: Some("byte-size-pow10"), msgid: "%s (%s bytes)" }
    } else if i == 6 {
        Message { domain: Domain::Default, context: Some("byte-size-pow2"), msgid: "B" }
    } else if i == 7 {
        Message { domain: Domain::Default, context: Some("byte-size-pow2"), msgid: "KiB" }
    } else if i == 8 {
        Message { domain: Domain::Default, context: Some("byte-size-pow2"), msgid: "MiB" }
    } else if i == 9 {
        Message { domain: Domain::Default, context: Some("byte-size-pow2"), msgid: "GiB" }
    } else if i == 10 {
        Message { domain: Domain::Default, context: Some("byte-size-pow2"), msgid: "TiB" }
    } else if i == 11 {
        Message { domain: Domain::Default, context: Some("byte-size-pow2"), msgid: "%s (%s bytes)" }
    } else if i == 12 {
        Message { domain: Domain::Default, context: Some("job"), msgid: "SMART self-test" }
    } else if i == 13 {
        Message { domain: Domain::Default, context: Some("job"), msgid: "Ejecting Medium" }
    } else if i == 14 {
        Message { domain: Domain::Default, context: Some("job"), msgid: "Unlocking Device" }
    } else if i == 15 {
        Message { domain: Domain::Default, context: Some("job"), msgid: "Locking Device" }
    } else if i == 16 {
        Message { domain: Domain::Default, context: Some("job"), msgid: "Modifying Encrypted Device" }
    } else if i == 17 {
        Message { domain: Domain::Default, context: Some("job"), msgid: "Resizing Encrypted Device" }
    } else if i == 18 {
        Message { domain: Domain::Default, context: Some("job"), msgid: "Starting Swap Device" }
    } else if i == 19 {
        Message { domain: Domain::Default, context: Some("job"), msgid: "Stopping Swap Device" }
    } else if i == 20 {
        Message { domain: Domain::Default, context: Some("job"), msgid: "Modifying Swap Device" }
    } else if i == 21 {
        Message { domain: Domain::Default, context: Some("job"), msgid: "Checking Filesystem" }
    } else if i == 22 {
        Message { domain: Domain::Default, context: Some("job"), msgid: "Mounting Filesystem" }
    } else if i == 23 {
        Message { domain: Domain::Default, context: Some("job"), msgid: "Unmounting Filesystem" }
    } else if i == 24 {
        Message { domain: Domain::Default, context: Some("job"), msgid: "Modifying Filesystem" }
    } else if i == 25 {
        Message { domain: Domain::Default, context: Some("job"), msgid: "Repairing Filesystem" }
    } else if i == 26 {
        Message { domain: Domain::Default, context: Some("job"), msgid: "Resizing Filesystem" }
    } else if i == 27 {
        Message { domain: Domain::Default, context: Some("job"), msgid: "Erasing Device" }
    } else if i == 28 {
        Message { domain: Domain::Default, context: Some("job"), msgid: "Creating Filesystem" }
    } else if i == 29 {
        Message { domain: Domain::Default, context: Some("job"), msgid: "Setting Up Loop Device" }
    } else if i == 30 {
        Message { domain: Domain::Default, context: Some("job"), msgid: "Modifying Partition" }
    } else if i == 31 {
        Message { domain: Domain::Default, context: Some("job"), msgid: "Deleting Partition" }
    } else if i == 32 {
        Message { domain: Domain::Default, context: Some("job"), msgid: "Creating Partition" }
    } else if i == 33 {
        Message { domain: Domain::Default, context: Some("job"), msgid: "Cleaning Up" }
    } else if i == 34 {
        Message { domain: Domain::Default, context: Some("job"), msgid: "ATA Secure Erase" }
    } else if i == 35 {
        Message { domain: Domain::Default, context: Some("job"), msgid: "ATA Enhanced Secure Erase" }
    } else if i == 36 {
        Message { domain: Domain::Default, context: Some("job"), msgid: "Stopping RAID Array" }
    } else if i == 37 {
        Message { domain: Domain::Default, context: Some("job"), msgid: "Starting RAID Array" }
    } else if i == 38 {
        Message { domain: Domain::Default, context: Some("job"), msgid: "Marking Device as Faulty" }
    } else if i == 39 {
        Message { domain: Domain::Default, context: Some("job"), msgid: "Removing Device from Array" }
    } else if i == 40 {
        Message { domain: Domain::Default, context: Some("job"), msgid: "Adding Device to Array" }
    } else if i == 41 {
        Message { domain: Domain::Default, context: Some("job"), msgid: "Setting Write-Intent Bitmap" }
    } else if i == 42 {
        Message { domain: Domain::Default, context: Some("job"), msgid: "Creating RAID Array" }
    } else if i == 43 {
        Message { domain: Domain::Default, context: Some("unknown-job"), msgid: "Unknown (%s)" }
    } else if i == 44 {
        Message { domain: Domain::Default, context: None, msgid: "%s Block Device" }
    } else if i == 45 {
        Message { domain: Domain::Default, context: None, msgid: "Block Device" }
    } else if i == 46 {
        Message { domain: Domain::Default, context: None, msgid: "%s Loop Device" }
    } else if i == 47 {
        Message { domain: Domain::Default, context: None, msgid: "Loop Device" }
    } else if i == 48 {
        Message { domain: Domain::Default, context: Some("part-block"), msgid: "Partition %u of %s" }
    } else if i == 49 {
        Message { domain: Domain::Default, context: Some("part-loop"), msgid: "Partition %u of %s" }
    } else if i == 50 {
        Message { domain: Domain::Default, context: Some("part-raid"), msgid: "Partition %u of %s" }
    } else if i == 51 {
        Message { domain: Domain::Default, context: Some("part-drive"), msgid: "Partition %u of %s" }
    } else if i == 52 {
        Message { domain: Domain::Default, context: Some("one-liner-block"), msgid: "%s (%s)" }
    } else if i == 53 {
        Message { domain: Domain::Default, context: Some("one-liner-loop"), msgid: "%s \u{2014} %s (%s)" }
    } else if i == 54 {
        Message { domain: Domain::Default, context: Some("one-liner-mdraid-running"), msgid: "%s \u{2014} %s (%s)" }
    } else if i == 55 {
        Message { domain: Domain::Default, context: Some("one-liner-mdraid-not-running"), msgid: "%s \u{2014} %s" }
    } else if i == 56 {
        Message {
            domain: Domain::Default,
            context: Some("one-liner-mdraid-no-name-running"),
            msgid: "%s \u{2014} %s",
        }
    } else if i == 57 {
        Message { domain: Domain::Default, context: Some("one-liner-mdraid-no-name-not-running"), msgid: "%s" }
    } else if i == 58 {
        Message { domain: Domain::Default, context: Some("one-liner-drive"), msgid: "%s \u{2014} %s [%s] (%s)" }
    } else if i == 59 {
        Message { domain: Domain::Default, context: Some("one-liner-drive"), msgid: "%s \u{2014} %s (%s)" }
    } else if i == 60 {
        Message { domain: Domain::Default, context: Some("mdraid-desc"), msgid: "%s %s" }
    } else if i == 61 {
        Message { domain: Domain::Default, context: Some("mdraid-desc"), msgid: "RAID-0 Array" }
    } else if i == 62 {
        Message { domain: Domain::Default, context: Some("mdraid-desc"), msgid: "RAID-1 Array" }
    } else if i == 63 {
        Message { domain: Domain::Default, context: Some("mdraid-desc"), msgid: "RAID-4 Array" }
    } else if i == 64 {
        Message { domain: Domain::Default, context: Some("mdraid-desc"), msgid: "RAID-5 Array" }
    } else if i == 65 {
        Message { domain: Domain::Default, context: Some("mdraid-desc"), msgid: "RAID-6 Array" }
    } else if i == 66 {
        Message { domain: Domain::Default, context: Some("mdraid-desc"), msgid: "RAID-10 Array" }
    } else if i == 67 {
        Message { domain: Domain::Default, context: Some("mdraid-desc"), msgid: "RAID Array" }
    } else if i == 68 {
        Message { domain: Domain::Default, context: Some("media-type"), msgid: "Thumb" }
    } else if i == 69 {
        Message { domain: Domain::Default, context: Some("media-type"), msgid: "Floppy" }
    } else if i == 70 {
        Message { domain: Domain::Default, context: Some("media-type"), msgid: "Zip" }
    } else if i == 71 {
        Message { domain: Domain::Default, context: Some("media-type"), msgid: "Jaz" }
    } else if i == 72 {
        Message { domain: Domain::Default, context: Some("media-type"), msgid: "Flash" }
    } else if i == 73 {
        Message { domain: Domain::Default, context: Some("media-type"), msgid: "MemoryStick" }
    } else if i == 74 {
        Message { domain: Domain::Default, context: Some("media-type"), msgid: "SmartMedia" }
    } else if i == 75 {
        Message { domain: Domain::Default, context: Some("media-type"), msgid: "CompactFlash" }
    } else if i == 76 {
        Message { domain: Domain::Default, context: Some("media-type"), msgid: "SD" }
    } else if i == 77 {
        Message { domain: Domain::Default, context: Some("media-type"), msgid: "CD" }
    } else if i == 78 {
        Message { domain: Domain::Default, context: Some("media-type"), msgid: "DVD" }
    } else if i == 79 {
        Message { domain: Domain::Default, context: Some("media-type"), msgid: "Blu-Ray" }
    } else if i == 80 {
        Message { domain: Domain::Default, context: Some("media-type"), msgid: "HDDVD" }
    } else if i == 81 {
        Message { domain: Domain::Package, context: Some("media-type"), msgid: "Thumb" }
    } else if i == 82 {
        Message { domain: Domain::Package, context: Some("media-type"), msgid: "Floppy" }
    } else if i == 83 {
        Message { domain: Domain::Package, context: Some("media-type"), msgid: "Zip" }
    } else if i == 84 {
        Message { domain: Domain::Package, context: Some("media-type"), msgid: "Jaz" }
    } else if i == 85 {
        Message { domain: Domain::Package, context: Some("media-type"), msgid: "Flash" }
    } else if i == 86 {
        Message { domain: Domain::Package, context: Some("media-type"), msgid: "MemoryStick" }
    } else if i == 87 {
        Message { domain: Domain::Package, context: Some("media-type"), msgid: "SmartMedia" }
    } else if i == 88 {
        Message { domain: Domain::Package, context: Some("media-type"), msgid: "CompactFlash" }
    } else if i == 89 {
        Message { domain: Domain::Package, context: Some("media-type"), msgid: "MMC" }
    } else if i == 90 {
        Message { domain: Domain::Package, context: Some("media-type"), msgid: "SD" }
    } else if i == 91 {
        Message { domain: Domain::Package, context: Some("media-type"), msgid: "SDXC" }
    } else if i == 92 {
        Message { domain: Domain::Package, context: Some("media-type"), msgid: "SDHC" }
    } else if i == 93 {
        Message { domain: Domain::Package, context: Some("media-type"), msgid: "CD-ROM" }
    } else if i == 94 {
        Message { domain: Domain::Package, context: Some("media-type"), msgid: "CD-R" }
    } else if i == 95 {
        Message { domain: Domain::Package, context: Some("media-type"), msgid: "CD-RW" }
    } else if i == 96 {
        Message { domain: Domain::Package, context: Some("media-type"), msgid: "DVD" }
    } else if i == 97 {
        Message { domain: Domain::Package, context: Some("media-type"), msgid: "DVD-R" }
    } else if i == 98 {
        Message { domain: Domain::Package, context: Some("media-type"), msgid: "DVD-RW" }
    } else if i == 99 {
        Message { domain: Domain::Package, context: Some("media-type"), msgid: "DVD-RAM" }
    } else if i == 100 {
        Message { domain: Domain::Package, context: Some("media-type"), msgid: "DVD+R" }
    } else if i == 101 {
        Message { domain: Domain::Package, context: Some("media-type"), msgid: "DVD+RW" }
    } else if i == 102 {
        Message { domain: Domain::Package, context: Some("media-type"), msgid: "DVD+R DL" }
    } else if i == 103 {
        Message { domain: Domain::Package, context: Some("media-type"), msgid: "DVD+RW DL" }
    } else if i == 104 {
        Message { domain: Domain::Package, context: Some("media-type"), msgid: "BD-ROM" }
    } else if i == 105 {
        Message { domain: Domain::Package, context: Some("media-type"), msgid: "BD-R" }
    } else if i == 106 {
        Message { domain: Domain::Package, context: Some("media-type"), msgid: "BD-RE" }
    } else if i == 107 {
        Message { domain: Domain::Package, context: Some("media-type"), msgid: "HDDVD" }
    } else if i == 108 {
        Message { domain: Domain::Package, context: Some("media-type"), msgid: "HDDVD-R" }
    } else if i == 109 {
        Message { domain: Domain::Package, context: Some("media-type"), msgid: "HDDVD-RW" }
    } else if i == 110 {
        Message { domain: Domain::Package, context: Some("media-type"), msgid: "MO" }
    } else if i == 111 {
        Message { domain: Domain::Package, context: Some("media-type"), msgid: "MRW" }
    } else if i == 112 {
        Message { domain: Domain::Package, context: Some("media-type"), msgid: "MRW-W" }
    } else if i == 113 {
        Message { domain: Domain::Default, context: Some("drive-with-size"), msgid: "%s Drive" }
    } else if i == 114 {
        Message { domain: Domain::Default, context: Some("generic-drive"), msgid: "Drive" }
    } else if i == 115 {
        Message { domain: Domain::Default, context: Some("disk-non-rotational"), msgid: "%s Disk" }
    } else if i == 116 {
        Message { domain: Domain::Default, context: Some("disk-non-rotational"), msgid: "Disk" }
    } else if i == 117 {
        Message { domain: Domain::Default, context: Some("disk-hdd"), msgid: "%s Hard Disk" }
    } else if i == 118 {
        Message { domain: Domain::Default, context: Some("disk-hdd"), msgid: "Hard Disk" }
    } else if i == 119 {
        Message { domain: Domain::Default, context: Some("drive-card-reader"), msgid: "%s Card Reader" }
    } else if i == 120 {
        Message { domain: Domain::Default, context: Some("drive-with-size-and-type"), msgid: "%s %s Drive" }
    } else if i == 121 {
        Message { domain: Domain::Default, context: Some("drive-with-type"), msgid: "%s Drive" }
    } else if i == 122 {
        Message { domain: Domain::Default, context: Some("drive-with-fixed-media"), msgid: "%s Drive" }
    } else if i == 123 {
        Message { domain: Domain::Default, context: Some("drive-with-generic-media"), msgid: "%s Disk" }
    } else if i == 124 {
        Message { domain: Domain::Default, context: Some("flash-media"), msgid: "%s Card" }
    } else if i == 125 {
        Message { domain: Domain::Default, context: Some("optical-media"), msgid: "%s Disc" }
    } else if i == 126 {
        Message { domain: Domain::Default, context: Some("optical-media"), msgid: "Blank %s" }
    } else if i == 127 {
        Message { domain: Domain::Default, context: Some("optical-media"), msgid: "Mixed %s" }
    } else if i == 128 {
        Message { domain: Domain::Default, context: Some("optical-media"), msgid: "Audio %s" }
    } else if i == 129 {
        Message { domain: Domain::Default, context: Some("media"), msgid: "CompactFlash" }
    } else if i == 130 {
        Message { domain: Domain::Default, context: Some("media"), msgid: "MemoryStick" }
    } else if i == 131 {
        Message { domain: Domain::Default, context: Some("media"), msgid: "SmartMedia" }
    } else if i == 132 {
        Message { domain: Domain::Default, context: Some("media"), msgid: "SecureDigital" }
    } else if i == 133 {
        Message { domain: Domain::Default, context: Some("media"), msgid: "SD High Capacity" }
    } else if i == 134 {
        Message { domain: Domain::Default, context: Some("media"), msgid: "Floppy" }
    } else if i == 135 {
        Message { domain: Domain::Default, context: Some("media"), msgid: "Zip" }
    } else if i == 136 {
        Message { domain: Domain::Default, context: Some("media"), msgid: "Jaz" }
    } else if i == 137 {
        Message { domain: Domain::Default, context: Some("media"), msgid: "Flash" }
    } else if i == 138 {
        Message { domain: Domain::Default, context: Some("disc-type"), msgid: "CD" }
    } else if i == 139 {
        Message { domain: Domain::Default, context: Some("disc-type"), msgid: "DVD" }
    } else if i == 140 {
        Message { domain: Domain::Default, context: Some("disc-type"), msgid: "Blu-Ray" }
    } else if i == 141 {
        Message { domain: Domain::Default, context: Some("disc-type"), msgid: "HDDVD" }
    } else if i == 142 {
        Message { domain: Domain::Default, context: Some("partition-info"), msgid: "%s (%s)" }
    } else if i == 143 {
        Message { domain: Domain::Default, context: Some("partition-info"), msgid: "Unknown" }
    } else if i == 144 {
        Message { domain: Domain::Default, context: Some("dos-part-flag"), msgid: "Bootable" }
    } else if i == 145 {
        Message { domain: Domain::Default, context: Some("gpt-part-flag"), msgid: "System" }
    } else if i == 146 {
        Message { domain: Domain::Default, context: Some("gpt-part-flag"), msgid: "Legacy BIOS Bootable" }
    } else if i == 147 {
        Message { domain: Domain::Default, context: Some("gpt-part-flag"), msgid: "Read-only" }
    } else if i == 148 {
        Message { domain: Domain::Default, context: Some("gpt-part-flag"), msgid: "Hidden" }
    } else if i == 149 {
        Message { domain: Domain::Default, context: Some("gpt-part-flag"), msgid: "No Automount" }
    } else if i == 150 {
        Message { domain: Domain::Default, context: Some("fs-type"), msgid: "Unknown (%s %s)" }
    } else if i == 151 {
        Message { domain: Domain::Default, context: Some("fs-type"), msgid: "Unknown (%s)" }
    } else if i == 152 {
        Message { domain: Domain::Default, context: Some("fs-type"), msgid: "Unknown" }
    } else if i == 153 {
        Message { domain: Domain::Default, context: Some("dos"), msgid: "Master Boot Record" }
    } else if i == 154 {
        Message { domain: Domain::Default, context: Some("gpt"), msgid: "GUID Partition Table" }
    } else if i == 155 {
        Message { domain: Domain::Default, context: Some("apm"), msgid: "Apple Partition Map" }
    } else if i == 156 {
        Message { domain: Domain::Package, context: Some("partition-subtype"), msgid: "Generic" }
    } else if i == 157 {
        Message { domain: Domain::Package, context: Some("partition-subtype"), msgid: "Linux" }
    } else if i == 158 {
        Message { domain: Domain::Package, context: Some("partition-subtype"), msgid: "Windows" }
    } else if i == 159 {
        Message { domain: Domain::Package, context: Some("partition-subtype"), msgid: "Other" }
    } else if i == 160 {
        Message { domain: Domain::Package, context: Some("partition-subtype"), msgid: "Mac OS X" }
    } else if i == 161 {
        Message { domain: Domain::Package, context: Some("part-type"), msgid: "MBR Partition Scheme" }
    } else if i == 162 {
        Message { domain: Domain::Package, context: Some("part-type"), msgid: "EFI System" }
    } else if i == 163 {
        Message { domain: Domain::Package, context: Some("part-type"), msgid: "BIOS Boot" }
    } else if i == 164 {
        Message { domain: Domain::Package, context: Some("part-type"), msgid: "Linux Filesystem" }
    } else if i == 165 {
        Message { domain: Domain::Package, context: Some("part-type"), msgid: "Linux RAID" }
    } else if i == 166 {
        Message { domain: Domain::Package, context: Some("part-type"), msgid: "Linux Swap" }
    } else if i == 167 {
        Message { domain: Domain::Package, context: Some("part-type"), msgid: "Linux LVM" }
    } else if i == 168 {
        Message { domain: Domain::Package, context: Some("part-type"), msgid: "Linux Reserved" }
    } else if i == 169 {
        Message { domain: Domain::Package, context: Some("part-type"), msgid: "Microsoft Reserved" }
    } else if i == 170 {
        Message { domain: Domain::Package, context: Some("part-type"), msgid: "Microsoft Basic Data" }
    } else if i == 171 {
        Message { domain: Domain::Package, context: Some("part-type"), msgid: "Microsoft LDM metadata" }
    } else if i == 172 {
        Message { domain: Domain::Package, context: Some("part-type"), msgid: "Microsoft LDM data" }
    } else if i == 173 {
        Message {
            domain: Domain::Package,
            context: Some("part-type"),
            msgid: "Microsoft Windows Recovery Environment",
        }
    } else if i == 174 {
        Message { domain: Domain::Package, context: Some("part-type"), msgid: "Apple HFS/HFS+" }
    } else if i == 175 {
        Message { domain: Domain::Package, context: Some("part-type"), msgid: "Apple UFS" }
    } else if i == 176 {
        Message { domain: Domain::Package, context: Some("part-type"), msgid: "Apple RAID" }
    } else if i == 177 {
        Message { domain: Domain::Package, context: Some("part-type"), msgid: "Apple Boot" }
    } else if i == 178 {
        Message { domain: Domain::Package, context: Some("part-type"), msgid: "Apple Label" }
    } else if i == 179 {
        Message { domain: Domain::Package, context: Some("part-type"), msgid: "Extended" }
    } else if i == 180 {
        Message { domain: Domain::Package, context: Some("part-type"), msgid: "EFI GPT" }
    } else if i == 181 {
        Message { domain: Domain::Package, context: Some("part-type"), msgid: "EFI (FAT-12/16/32)" }
    } else if i == 182 {
        Message { domain: Domain::Package, context: Some("part-type"), msgid: "Linux swap" }
    } else if i == 183 {
        Message { domain: Domain::Package, context: Some("part-type"), msgid: "Linux" }
    } else if i == 184 {
        Message { domain: Domain::Package, context: Some("part-type"), msgid: "Linux Extended" }
    } else if i == 185 {
        Message { domain: Domain::Package, context: Some("part-type"), msgid: "Linux RAID auto" }
    } else if i == 186 {
        Message { domain: Domain::Package, context: Some("part-type"), msgid: "FAT12" }
    } else if i == 187 {
        Message { domain: Domain::Package, context: Some("part-type"), msgid: "FAT16 <32M" }
    } else if i == 188 {
        Message { domain: Domain::Package, context: Some("part-type"), msgid: "FAT16" }
    } else if i == 189 {
        Message { domain: Domain::Package, context: Some("part-type"), msgid: "NTFS/exFAT/HPFS" }
    } else if i == 190 {
        Message { domain: Domain::Package, context: Some("part-type"), msgid: "W95 FAT32" }
    } else if i == 191 {
        Message { domain: Domain::Package, context: Some("part-type"), msgid: "W95 FAT32 (LBA)" }
    } else if i == 192 {
        Message { domain: Domain::Package, context: Some("part-type"), msgid: "W95 FAT16 (LBA)" }
    } else if i == 193 {
        Message { domain: Domain::Package, context: Some("part-type"), msgid: "W95 Ext d (LBA)" }
    } else if i == 194 {
        Message { domain: Domain::Package, context: Some("part-type"), msgid: "Hidden FAT12" }
    } else if i == 195 {
        Message { domain: Domain::Package, context: Some("part-type"), msgid: "Hidden FAT16 <32M" }
    } else if i == 196 {
        Message { domain: Domain::Package, context: Some("part-type"), msgid: "Hidden FAT16" }
    } else if i == 197 {
        Message { domain: Domain::Package, context: Some("part-type"), msgid: "Hidden HPFS/NTFS" }
    } else if i == 198 {
        Message { domain: Domain::Package, context: Some("part-type"), msgid: "Hidden W95 FAT32" }
    } else if i == 199 {
        Message { domain: Domain::Package, context: Some("part-type"), msgid: "Hidden W95 FAT32 (LBA)" }
    } else if i == 200 {
        Message { domain: Domain::Package, context: Some("part-type"), msgid: "Hidden W95 FAT16 (LBA)" }
    } else if i == 201 {
        Message { domain: Domain::Package, context: Some("part-type"), msgid: "FreeBSD" }
    } else if i == 202 {
        Message { domain: Domain::Package, context: Some("part-type"), msgid: "OpenBSD" }
    } else if i == 203 {
        Message { domain: Domain::Package, context: Some("part-type"), msgid: "NetBSD" }
    } else if i == 204 {
        Message { domain: Domain::Package, context: Some("part-type"), msgid: "Darwin UFS" }
    } else if i == 205 {
        Message { domain: Domain::Package, context: Some("part-type"), msgid: "Mac OS X" }
    } else if i == 206 {
        Message { domain: Domain::Package, context: Some("part-type"), msgid: "Apple HFS/HFS" }
    } else if i == 207 {
        Message { domain: Domain::Package, context: Some("part-type"), msgid: "Apple Partition Map" }
    } else if i == 208 {
        Message { domain: Domain::Package, context: Some("part-type"), msgid: "Unused" }
    } else if i == 209 {
        Message { domain: Domain::Package, context: Some("part-type"), msgid: "Empty" }
    } else if i == 210 {
        Message { domain: Domain::Package, context: Some("part-type"), msgid: "Driver" }
    } else if i == 211 {
        Message { domain: Domain::Package, context: Some("part-type"), msgid: "Driver 4.3" }
    } else if i == 212 {
        Message { domain: Domain::Package, context: Some("part-type"), msgid: "ProDOS file system" }
    } else if i == 213 {
        Message { domain: Domain::Package, context: Some("part-type"), msgid: "FAT 12" }
    } else if i == 214 {
        Message { domain: Domain::Package, context: Some("part-type"), msgid: "FAT 16" }
    } else if i == 215 {
        Message { domain: Domain::Package, context: Some("part-type"), msgid: "FAT 32" }
    } else if i == 216 {
        Message { domain: Domain::Package, context: Some("part-type"), msgid: "FAT 16 (Windows)" }
    } else if i == 217 {
        Message { domain: Domain::Package, context: Some("part-type"), msgid: "FAT 32 (Windows)" }
    } else if i == 218 {
        Message { domain: Domain::Package, context: Some("fs-type"), msgid: "FAT (12-bit version)" }
    } else if i == 219 {
        Message { domain: Domain::Package, context: Some("fs-type"), msgid: "FAT" }
    } else if i == 220 {
        Message { domain: Domain::Package, context: Some("fs-type"), msgid: "FAT (16-bit version)" }
    } else if i == 221 {
        Message { domain: Domain::Package, context: Some("fs-type"), msgid: "FAT (32-bit version)" }
    } else if i == 222 {
        Message { domain: Domain::Package, context: Some("fs-type"), msgid: "NTFS (version %s)" }
    } else if i == 223 {
        Message { domain: Domain::Package, context: Some("fs-type"), msgid: "NTFS" }
    } else if i == 224 {
        Message { domain: Domain::Package, context: Some("fs-type"), msgid: "FAT (version %s)" }
    } else if i == 225 {
        Message { domain: Domain::Package, context: Some("fs-type"), msgid: "HFS" }
    } else if i == 226 {
        Message { domain: Domain::Package, context: Some("fs-type"), msgid: "HFS+" }
    } else if i == 227 {
        Message { domain: Domain::Package, context: Some("fs-type"), msgid: "Ext2 (version %s)" }
    } else if i == 228 {
        Message { domain: Domain::Package, context: Some("fs-type"), msgid: "Ext2" }
    } else if i == 229 {
        Message { domain: Domain::Package, context: Some("fs-type"), msgid: "Ext3 (version %s)" }
    } else if i == 230 {
        Message { domain: Domain::Package, context: Some("fs-type"), msgid: "Ext3" }
    } else if i == 231 {
        Message { domain: Domain::Package, context: Some("fs-type"), msgid: "Ext4 (version %s)" }
    } else if i == 232 {
        Message { domain: Domain::Package, context: Some("fs-type"), msgid: "Ext4" }
    } else if i == 233 {
        Message { domain: Domain::Package, context: Some("fs-type"), msgid: "XFS (version %s)" }
    } else if i == 234 {
        Message { domain: Domain::Package, context: Some("fs-type"), msgid: "XFS" }
    } else if i == 235 {
        Message { domain: Domain::Package, context: Some("fs-type"), msgid: "ISO 9660 (version %s)" }
    } else if i == 236 {
        Message { domain: Domain::Package, context: Some("fs-type"), msgid: "ISO9660" }
    } else if i == 237 {
        Message { domain: Domain::Package, context: Some("fs-type"), msgid: "ISO 9660" }
    } else if i == 238 {
        Message { domain: Domain::Package, context: Some("fs-type"), msgid: "UDF (version %s)" }
    } else if i == 239 {
        Message { domain: Domain::Package, context: Some("fs-type"), msgid: "UDF" }
    } else if i == 240 {
        Message { domain: Domain::Package, context: Some("fs-type"), msgid: "exFAT (version %s)" }
    } else if i == 241 {
        Message { domain: Domain::Package, context: Some("fs-type"), msgid: "exFAT" }
    } else if i == 242 {
        Message { domain: Domain::Package, context: Some("fs-type"), msgid: "Btrfs (version %s)" }
    } else if i == 243 {
        Message { domain: Domain::Package, context: Some("fs-type"), msgid: "Btrfs" }
    } else if i == 244 {
        Message { domain: Domain::Package, context: Some("fs-type"), msgid: "Swap (version %s)" }
    } else if i == 245 {
        Message { domain: Domain::Package, context: Some("fs-type"), msgid: "Swap" }
    } else if i == 246 {
        Message { domain: Domain::Package, context: Some("fs-type"), msgid: "LVM2 Physical Volume (%s)" }
    } else if i == 247 {
        Message { domain: Domain::Package, context: Some("fs-type"), msgid: "LVM2 PV" }
    } else if i == 248 {
        Message { domain: Domain::Package, context: Some("fs-type"), msgid: "LVM2 Physical Volume" }
    } else if i == 249 {
        Message { domain: Domain::Package, context: Some("fs-type"), msgid: "Linux RAID Member (version %s)" }
    } else if i == 250 {
        Message { domain: Domain::Package, context: Some("fs-type"), msgid: "Linux RAID Member" }
    } else if i == 251 {
        Message { domain: Domain::Package, context: Some("fs-type"), msgid: "LUKS Encryption (version %s)" }
    } else if i == 252 {
        Message { domain: Domain::Package, context: Some("fs-type"), msgid: "LUKS" }
    } else {
        Message { domain: Domain::Package, context: Some("fs-type"), msgid: "LUKS Encryption" }
    }
}

} // verus!
