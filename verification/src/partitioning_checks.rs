//! The decisions of the partitioning page that installs either onto a disk
//! chosen from a list or into a directory under which the user mounted the
//! target system by hand; for the latter the partition utility looks at what
//! is mounted there.
use vstd::prelude::*;

use crate::text::{contains_seq, contains_str};

verus! {

/// The disk chosen from the list must be larger than this many bytes.
pub const DISK_CHOICE_MINIMUM_BYTES: u64 = 39000000000;

/// The error lines and the "next" button of the method that installs onto
/// a disk chosen from a list.
#[derive(Clone, Copy, Debug, PartialEq, Eq, Structural)]
pub struct DiskChoiceFlags {
    pub disk_error: bool,
    pub luks_enabled: bool,
    pub luks_error: bool,
    pub next: bool,
}

/// The flags after a disk's button was toggled: an activated disk of more
/// than `DISK_CHOICE_MINIMUM_BYTES` hides the size error and enables "next"
/// unless the passphrase error is shown; a smaller one shows the size error
/// and disables "next".
pub open spec fn spec_device_toggled(s: DiskChoiceFlags, active: bool, size: u64) -> DiskChoiceFlags {
    if !active {
        s
    } else if size > DISK_CHOICE_MINIMUM_BYTES {
        DiskChoiceFlags {
            disk_error: false,
            next: if s.luks_enabled && s.luks_error { s.next } else { true },
            ..s
        }
    } else {
        DiskChoiceFlags { disk_error: true, next: false, ..s }
    }
}

/// The flags after the encryption box was toggled or the passphrase edited:
/// with encryption an empty passphrase shows its error and disables "next";
/// otherwise the passphrase error goes and "next" is enabled unless the size
/// error is shown, in which case "next" stays as it was.
pub open spec fn spec_luks_changed(s: DiskChoiceFlags, luks_enabled: bool, password_empty: bool) -> DiskChoiceFlags {
    if luks_enabled && password_empty {
        DiskChoiceFlags { luks_enabled, luks_error: true, next: false, ..s }
    } else {
        DiskChoiceFlags {
            luks_enabled,
            luks_error: false,
            next: if s.disk_error { s.next } else { true },
            ..s
        }
    }
}

/// A disk toggle records the disk and the passphrase field as the choice:
/// an activated disk that is large enough, while encryption is off.
pub open spec fn device_toggle_records(s: DiskChoiceFlags, active: bool, size: u64) -> bool {
    active && size > DISK_CHOICE_MINIMUM_BYTES && !s.luks_enabled
}

/// A passphrase edit records the passphrase: it raises no passphrase error
/// and the size error is not shown.
pub open spec fn password_edit_records(s: DiskChoiceFlags, luks_enabled: bool, password_empty: bool) -> bool {
    !(luks_enabled && password_empty) && !s.disk_error
}

/// The method that installs onto a disk chosen from a list: its flags, and
/// the disk and passphrase recorded as the choice.
pub struct DiskChoicePage {
    pub flags: DiskChoiceFlags,
    pub target: String,
    pub luks_password: String,
}

impl DiskChoicePage {
    /// The page as it opens: no error shown, "next" disabled, nothing recorded.
    pub fn new() -> (r: Self)
        ensures
            r.flags == (DiskChoiceFlags { disk_error: false, luks_enabled: false, luks_error: false, next: false }),
            r.target@.len() == 0,
            r.luks_password@.len() == 0,
    {
        DiskChoicePage {
            flags: DiskChoiceFlags { disk_error: false, luks_enabled: false, luks_error: false, next: false },
            target: String::new(),
            luks_password: String::new(),
        }
    }

    /// The button of disk `device` of `size` bytes was toggled while the
    /// passphrase field held `password`.
    pub fn on_device_toggled(&mut self, active: bool, device: &str, size: u64, password: &str)
        ensures
            final(self).flags == spec_device_toggled(old(self).flags, active, size),
            device_toggle_records(old(self).flags, active, size) ==> final(self).target@ == device@
                && final(self).luks_password@ == password@,
            !device_toggle_records(old(self).flags, active, size) ==> final(self).target == old(self).target
                && final(self).luks_password == old(self).luks_password,
    {
        if active {
            if size > DISK_CHOICE_MINIMUM_BYTES {
                self.flags.disk_error = false;
                if self.flags.luks_enabled {
                    if !self.flags.luks_error {
                        self.flags.next = true;
                    }
                } else {
                    self.target = device.to_owned();
                    self.luks_password = password.to_owned();
                    self.flags.next = true;
                }
            } else {
                self.flags.disk_error = true;
                self.flags.next = false;
            }
        }
    }

    /// The encryption box was toggled while the passphrase field held `password`.
    pub fn on_luks_toggled(&mut self, luks_enabled: bool, password: &str)
        ensures
            final(self).flags == spec_luks_changed(old(self).flags, luks_enabled, password@.len() == 0),
            final(self).target == old(self).target,
            final(self).luks_password == old(self).luks_password,
    {
        self.flags = luks_flags(self.flags, luks_enabled, password);
    }

    /// The passphrase field now holds `password`.
    pub fn on_password_changed(&mut self, luks_enabled: bool, password: &str)
        ensures
            final(self).flags == spec_luks_changed(old(self).flags, luks_enabled, password@.len() == 0),
            password_edit_records(old(self).flags, luks_enabled, password@.len() == 0)
                ==> final(self).luks_password@ == password@,
            !password_edit_records(old(self).flags, luks_enabled, password@.len() == 0)
                ==> final(self).luks_password == old(self).luks_password,
            final(self).target == old(self).target,
    {
        let records = !(luks_enabled && password.unicode_len() == 0) && !self.flags.disk_error;
        self.flags = luks_flags(self.flags, luks_enabled, password);
        if records {
            self.luks_password = password.to_owned();
        }
    }
}

fn luks_flags(s: DiskChoiceFlags, luks_enabled: bool, password: &str) -> (r: DiskChoiceFlags)
    ensures
        r == spec_luks_changed(s, luks_enabled, password@.len() == 0),
{
    let mut r = s;
    r.luks_enabled = luks_enabled;
    if luks_enabled && password.unicode_len() == 0 {
        r.luks_error = true;
        r.next = false;
    } else {
        r.luks_error = false;
        if !r.disk_error {
            r.next = true;
        }
    }
    r
}

/// The message of the size error line.
pub fn disk_error_text() -> (r: &'static str)
    ensures
        r@ == "Disk Size too small, PikaOS needs 40GB Disk"@,
{
    "Disk Size too small, PikaOS needs 40GB Disk"
}

/// "Next" is enabled only while no error line is shown, and the passphrase
/// error only shows with encryption.
pub open spec fn disk_choice_sound(s: DiskChoiceFlags) -> bool {
    &&& s.next ==> !s.disk_error && !s.luks_error
    &&& s.luks_error ==> s.luks_enabled
}

/// Law: the page opens sound and every event keeps it sound: "next" is never
/// enabled while the size or the passphrase error is shown. (It can be enabled
/// before any disk is chosen, by a passphrase event.)
pub proof fn lemma_disk_choice_sound(s: DiskChoiceFlags, active: bool, size: u64, luks_enabled: bool, password_empty: bool)
    requires
        disk_choice_sound(s),
    ensures
        disk_choice_sound(DiskChoiceFlags { disk_error: false, luks_enabled: false, luks_error: false, next: false }),
        disk_choice_sound(spec_device_toggled(s, active, size)),
        disk_choice_sound(spec_luks_changed(s, luks_enabled, password_empty)),
{
}

/// Why the directory the target is mounted under cannot be used.
#[derive(Clone, Copy, Debug, PartialEq, Eq, Structural)]
pub enum ChrootError {
    /// No directory was given.
    Empty,
    /// A device was given where a directory is wanted.
    Device,
}

/// The error about the directory `mp`, if any.
pub open spec fn spec_chroot_error(mp: Seq<char>) -> Option<ChrootError> {
    if mp.len() == 0 {
        Some(ChrootError::Empty)
    } else if contains_seq(mp, "/dev"@) {
        Some(ChrootError::Device)
    } else {
        None
    }
}

/// The error about the directory the target is mounted under.
pub fn chroot_error(mp: &str) -> (r: Option<ChrootError>)
    ensures
        r == spec_chroot_error(mp@),
{
    if mp.unicode_len() == 0 {
        Some(ChrootError::Empty)
    } else if contains_str(mp, "/dev") {
        Some(ChrootError::Device)
    } else {
        None
    }
}

/// The message the error line shows for a directory error.
pub fn chroot_error_text(e: ChrootError) -> (r: &'static str)
    ensures
        e == ChrootError::Empty ==> r@ == "No mountpoint specified."@,
        e == ChrootError::Device ==> r@ == "This Installer Takes mountpoints not devices."@,
{
    match e {
        ChrootError::Empty => "No mountpoint specified.",
        ChrootError::Device => "This Installer Takes mountpoints not devices.",
    }
}

/// What the partition utility answered about the directory: each field is
/// whether the named check succeeded.
#[derive(Clone, Copy, Debug, PartialEq, Eq, Structural)]
pub struct MountVerdicts {
    pub home_not_root: bool,
    pub home_not_boot: bool,
    pub root_not_boot: bool,
    pub boot_not_efi: bool,
    pub root_not_efi: bool,
}

/// What the boot error line reports.
#[derive(Clone, Copy, Debug, PartialEq, Eq, Structural)]
pub enum BootError {
    /// `/home` and `/boot` are the same partition.
    HomeIsBoot,
    /// `/boot/efi` and `/boot` are the same partition.
    EfiIsBoot,
    /// No boot partition is mounted under the directory.
    NoBoot,
}

/// The boot error line after the checks. The page sets the line for the
/// `/home`, the EFI and the root check in turn, each failure showing its
/// message and each pass hiding the line, so the root check decides: only a
/// missing boot partition stays reported, and a `/home` or EFI partition
/// that is the boot partition is not reported once a boot partition is found.
pub open spec fn spec_boot_error(v: MountVerdicts) -> Option<BootError> {
    if v.root_not_boot {
        None
    } else {
        Some(BootError::NoBoot)
    }
}

/// The boot error line after the checks.
pub fn boot_error(v: MountVerdicts) -> (r: Option<BootError>)
    ensures
        r == spec_boot_error(v),
{
    if v.home_not_boot && v.root_not_boot && v.boot_not_efi {
        return None;
    }
    let mut line: Option<BootError> = if v.home_not_boot { None } else { Some(BootError::HomeIsBoot) };
    if v.boot_not_efi {
        line = None;
    } else {
        line = Some(BootError::EfiIsBoot);
    }
    if v.root_not_boot {
        line = None;
    } else {
        line = Some(BootError::NoBoot);
    }
    line
}

/// The message the boot error line shows.
pub fn boot_error_text(e: BootError) -> (r: &'static str)
    ensures
        e == BootError::HomeIsBoot ==> r@ == "the /home and /boot partitions are the same."@,
        e == BootError::EfiIsBoot ==> r@ == "the /boot/efi and /boot partitions are the same."@,
        e == BootError::NoBoot ==> r@ == "No boot partition found in chroot, mount (CUSTOM_ROOT)/boot."@,
{
    match e {
        BootError::HomeIsBoot => "the /home and /boot partitions are the same.",
        BootError::EfiIsBoot => "the /boot/efi and /boot partitions are the same.",
        BootError::NoBoot => "No boot partition found in chroot, mount (CUSTOM_ROOT)/boot.",
    }
}

/// The message of the EFI error line.
pub fn efi_error_text() -> (r: &'static str)
    ensures
        r@ == "No EFI partition found in chroot, mount (CUSTOM_ROOT)/boot/efi."@,
{
    "No EFI partition found in chroot, mount (CUSTOM_ROOT)/boot/efi."
}

/// The error lines, the passphrase field and the "next" button of the
/// method that installs into a directory, and the directory it will install
/// into.
pub struct ChrootChecks {
    pub chroot_error: Option<ChrootError>,
    pub luks_error: bool,
    pub boot_error: Option<BootError>,
    pub efi_error: bool,
    /// The passphrase field is enabled: `/home` is encrypted.
    pub luks_entry_sensitive: bool,
    pub next: bool,
    /// The directory handed on once the checks pass.
    pub target: String,
}

impl ChrootChecks {
    /// The page as it opens.
    pub fn new() -> (r: Self)
        ensures
            r.chroot_error is None && !r.luks_error && r.boot_error is None && !r.efi_error,
            !r.luks_entry_sensitive && !r.next && r.target@.len() == 0,
    {
        ChrootChecks {
            chroot_error: None,
            luks_error: false,
            boot_error: None,
            efi_error: false,
            luks_entry_sensitive: false,
            next: false,
            target: String::new(),
        }
    }

    /// The directory or the passphrase was edited and the partition utility
    /// answered `v` about the directory `mp`: the error lines are redone,
    /// and "next" is enabled, with `mp` as the target, only when none of them
    /// shows. Returns whether the checks of an encrypted `/home` are started
    /// (when `/home` is a partition of its own); their answers come later.
    pub fn on_directory_checked(&mut self, mp: &str, v: MountVerdicts) -> (check_home: bool)
        ensures
            final(self).chroot_error == spec_chroot_error(mp@),
            final(self).boot_error == spec_boot_error(v),
            final(self).efi_error == !v.root_not_efi,
            final(self).luks_error == old(self).luks_error,
            final(self).luks_entry_sensitive == old(self).luks_entry_sensitive,
            final(self).next == (spec_chroot_error(mp@) is None && !old(self).luks_error
                && spec_boot_error(v) is None && v.root_not_efi),
            final(self).next ==> final(self).target@ == mp@,
            !final(self).next ==> final(self).target == old(self).target,
            check_home == v.home_not_root,
    {
        self.next = false;
        self.chroot_error = chroot_error(mp);
        self.boot_error = boot_error(v);
        self.efi_error = !v.root_not_efi;
        if self.chroot_error.is_none() && !self.luks_error && self.boot_error.is_none() && !self.efi_error {
            self.target = mp.to_owned();
            self.next = true;
        }
        v.home_not_root
    }

    /// The utility answered whether `/home` is encrypted.
    pub fn on_home_encryption(&mut self, encrypted: bool)
        ensures
            final(self).luks_entry_sensitive == encrypted,
            final(self).chroot_error == old(self).chroot_error,
            final(self).luks_error == old(self).luks_error,
            final(self).boot_error == old(self).boot_error,
            final(self).efi_error == old(self).efi_error,
            final(self).next == old(self).next,
            final(self).target == old(self).target,
    {
        self.luks_entry_sensitive = encrypted;
    }

    /// The utility answered whether the passphrase unlocks `/home`: the
    /// passphrase error follows the answer, and so does "next", whatever
    /// the other lines show.
    pub fn on_home_passphrase(&mut self, unlocks: bool)
        ensures
            final(self).luks_error == !unlocks,
            final(self).next == unlocks,
            final(self).chroot_error == old(self).chroot_error,
            final(self).boot_error == old(self).boot_error,
            final(self).efi_error == old(self).efi_error,
            final(self).luks_entry_sensitive == old(self).luks_entry_sensitive,
            final(self).target == old(self).target,
    {
        self.luks_error = !unlocks;
        self.next = unlocks;
    }
}

} // verus!
