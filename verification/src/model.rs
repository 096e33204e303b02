//! The installer's data: selections made on the pages, the block devices and
//! partitions found on the machine, and the mount and crypttab tables built
//! from them. Sizes are whole numbers of bytes.
use vstd::prelude::*;

verus! {

/// Smallest EFI system partition the installer accepts, in bytes.
pub const MINIMUM_EFI_BYTE_SIZE: u64 = 500000000;

/// Smallest `/boot` partition the installer accepts, in bytes.
pub const MINIMUM_BOOT_BYTE_SIZE: u64 = 1000000000;

/// Smallest root filesystem the installer accepts, in bytes.
pub const MINIMUM_ROOT_BYTE_SIZE: u64 = 39000000000;

/// A locale offered on the language page.
pub struct PikaLocale {
    /// The locale code, such as `en_US`.
    pub name: String,
    /// The human readable language name.
    pub pretty_name: String,
}

/// The console keymap and the X keyboard layout and variant that belong together.
pub struct KBDMap {
    pub console: String,
    pub layout: String,
    /// Empty when the layout has no variant.
    pub variant: String,
}

/// A keyboard layout offered on the keyboard page.
pub struct PikaKeymap {
    pub kbdmap: KBDMap,
    pub pretty_name: String,
}

/// A whole disk that automatic partitioning can install onto.
pub struct BlockDevice {
    pub block_name: String,
    pub block_model: String,
    pub block_size: u64,
    pub block_size_pretty: String,
}

/// A partition found on the machine.
pub struct Partition {
    pub part_name: String,
    pub part_fs: String,
    pub part_uuid: String,
    pub has_encryption: bool,
    pub need_mapper: bool,
    pub part_size: u64,
    pub part_size_pretty: String,
}

/// A partition chosen for a mountpoint on the manual partitioning page.
pub struct FstabEntry {
    pub partition: Partition,
    pub mountpoint: String,
    pub mountopts: String,
    /// The id of the mount row that chose the partition.
    pub used_by: i32,
}

/// An encrypted partition to be listed in the target's crypttab.
pub struct CrypttabEntry {
    pub partition: String,
    pub map: String,
    pub uuid: String,
    /// The passphrase when the volume is to be unlocked by a key file.
    pub password: Option<String>,
}

/// A mount row whose mount options select a btrfs subvolume, so that the
/// same partition may be chosen by other rows too.
pub struct SubvolDeclaration {
    pub part_name: String,
    pub made_by: i32,
}

impl Clone for KBDMap {
    fn clone(&self) -> (r: Self)
        ensures
            r == *self,
    {
        KBDMap {
            console: self.console.clone(),
            layout: self.layout.clone(),
            variant: self.variant.clone(),
        }
    }
}

impl Clone for PikaLocale {
    fn clone(&self) -> (r: Self)
        ensures
            r == *self,
    {
        PikaLocale { name: self.name.clone(), pretty_name: self.pretty_name.clone() }
    }
}

impl Clone for PikaKeymap {
    fn clone(&self) -> (r: Self)
        ensures
            r == *self,
    {
        PikaKeymap { kbdmap: self.kbdmap.clone(), pretty_name: self.pretty_name.clone() }
    }
}

impl Clone for BlockDevice {
    fn clone(&self) -> (r: Self)
        ensures
            r == *self,
    {
        BlockDevice {
            block_name: self.block_name.clone(),
            block_model: self.block_model.clone(),
            block_size: self.block_size,
            block_size_pretty: self.block_size_pretty.clone(),
        }
    }
}

impl Clone for Partition {
    fn clone(&self) -> (r: Self)
        ensures
            r == *self,
    {
        Partition {
            part_name: self.part_name.clone(),
            part_fs: self.part_fs.clone(),
            part_uuid: self.part_uuid.clone(),
            has_encryption: self.has_encryption,
            need_mapper: self.need_mapper,
            part_size: self.part_size,
            part_size_pretty: self.part_size_pretty.clone(),
        }
    }
}

impl Clone for FstabEntry {
    fn clone(&self) -> (r: Self)
        ensures
            r == *self,
    {
        FstabEntry {
            partition: self.partition.clone(),
            mountpoint: self.mountpoint.clone(),
            mountopts: self.mountopts.clone(),
            used_by: self.used_by,
        }
    }
}

impl Clone for CrypttabEntry {
    fn clone(&self) -> (r: Self)
        ensures
            r == *self,
    {
        let password = match &self.password {
            Some(p) => Some(p.clone()),
            None => None,
        };
        CrypttabEntry {
            partition: self.partition.clone(),
            map: self.map.clone(),
            uuid: self.uuid.clone(),
            password,
        }
    }
}

impl Clone for SubvolDeclaration {
    fn clone(&self) -> (r: Self)
        ensures
            r == *self,
    {
        SubvolDeclaration { part_name: self.part_name.clone(), made_by: self.made_by }
    }
}

} // verus!
