//! How a partition is offered in the chooser of a mount row on the manual
//! partitioning page, and how that offer changes when the row's mountpoint
//! changes or when another row takes or frees a partition.
use vstd::prelude::*;

use crate::model::{FstabEntry, Partition, SubvolDeclaration, MINIMUM_BOOT_BYTE_SIZE,
    MINIMUM_EFI_BYTE_SIZE, MINIMUM_ROOT_BYTE_SIZE};
use crate::probe::{create_parition_struct, spec_needs_mapper, PartitionProbe};
use crate::text::{str_eq, trim, trimmed};

verus! {

/// The kinds of mount rows: the three fixed rows and the rows the user adds.
#[derive(Clone, Copy, Debug, PartialEq, Eq, Structural)]
pub enum RowKind {
    Efi,
    Boot,
    Root,
    Extra,
}

/// What the chooser shows under a partition's name.
#[derive(Clone, Copy, Debug, PartialEq, Eq, Structural)]
pub enum RowSubtitle {
    /// The partition must be opened through a device mapper first.
    NeedsMapper,
    /// The partition's filesystem and size.
    FsAndSize,
    EfiFsBad,
    EfiFsSmall,
    BootFsBad,
    BootFsSmall,
    RootFsBad,
    RootFsSmall,
}

/// Whether another row holds the partition.
#[derive(Clone, Copy, Debug, PartialEq, Eq, Structural)]
pub enum Usage {
    Free,
    /// Held by another row.
    Taken,
    /// Held by another row that declared a btrfs subvolume on it.
    Shared,
}

/// The state of one partition in one row's chooser.
#[derive(Clone, Copy, Debug, PartialEq, Eq, Structural)]
pub struct PartitionRowState {
    /// The partition can be picked.
    pub sensitive: bool,
    pub subtitle: RowSubtitle,
    /// The row is a swap row and the partition is not a swap partition.
    pub swap_fs_error: bool,
    /// The partition's filesystem or size does not suit the fixed row.
    pub hardcode_fs_error: bool,
    pub usage: Usage,
    /// The partition can never be picked in this row.
    pub never: bool,
}

/// The mountpoint that marks a swap row.
pub open spec fn swap_mountpoint() -> Seq<char> {
    "[SWAP]"@
}

/// Filesystem names that identify a swap partition.
pub open spec fn is_swap_fs(fs: Seq<char>) -> bool {
    fs == "linux-swap"@ || fs == "swap"@
}

/// Some row other than the one showing the chooser holds a partition named `name`.
pub open spec fn taken_elsewhere(used: Seq<FstabEntry>, name: Seq<char>, row_partition: Seq<char>) -> bool {
    name != row_partition && exists|i: int| 0 <= i < used.len() && #[trigger] used[i].partition.part_name@ == name
}

/// Some row declared a btrfs subvolume on the partition named `name`.
pub open spec fn declared_subvol(subvols: Seq<SubvolDeclaration>, name: Seq<char>) -> bool {
    exists|i: int| 0 <= i < subvols.len() && #[trigger] subvols[i].part_name@ == name
}

/// A row other than `row_id` holds the partition named `name`.
pub open spec fn held_by_other_row(used: Seq<FstabEntry>, name: Seq<char>, row_id: i32) -> bool {
    exists|i: int|
        0 <= i < used.len() && #[trigger] used[i].partition.part_name@ == name && used[i].used_by
            != row_id
}

/// Why a partition does not suit one of the fixed rows, if it does not.
pub open spec fn slot_problem(kind: RowKind, p: Partition) -> Option<RowSubtitle> {
    match kind {
        RowKind::Efi => if p.part_fs@ != "vfat"@ {
            Some(RowSubtitle::EfiFsBad)
        } else if p.part_size < MINIMUM_EFI_BYTE_SIZE {
            Some(RowSubtitle::EfiFsSmall)
        } else {
            None
        },
        RowKind::Boot => if p.part_fs@ != "ext4"@ {
            Some(RowSubtitle::BootFsBad)
        } else if p.part_size < MINIMUM_BOOT_BYTE_SIZE {
            Some(RowSubtitle::BootFsSmall)
        } else {
            None
        },
        RowKind::Root => if p.part_fs@ == "vfat"@ || p.part_fs@ == "ntfs"@ || p.part_fs@ == "swap"@
            || p.part_fs@ == "exfat"@ || p.part_fs@ == "BitLocker"@ {
            Some(RowSubtitle::RootFsBad)
        } else if p.part_size < MINIMUM_ROOT_BYTE_SIZE {
            Some(RowSubtitle::RootFsSmall)
        } else {
            None
        },
        RowKind::Extra => None,
    }
}

pub open spec fn row_state(
    sensitive: bool,
    subtitle: RowSubtitle,
    hardcode_fs_error: bool,
    usage: Usage,
    never: bool,
) -> PartitionRowState {
    PartitionRowState { sensitive, subtitle, swap_fs_error: false, hardcode_fs_error, usage, never }
}

/// How partition `p` first appears in the chooser of a row of kind `kind`
/// that currently holds `row_partition`.
pub open spec fn spec_classify(
    kind: RowKind,
    p: Partition,
    used: Seq<FstabEntry>,
    subvols: Seq<SubvolDeclaration>,
    row_partition: Seq<char>,
) -> PartitionRowState {
    let name = p.part_name@;
    if p.need_mapper {
        row_state(false, RowSubtitle::NeedsMapper, false, Usage::Free, true)
    } else if taken_elsewhere(used, name, row_partition) && declared_subvol(subvols, name) {
        row_state(true, RowSubtitle::FsAndSize, false, Usage::Shared, false)
    } else if taken_elsewhere(used, name, row_partition) {
        row_state(false, RowSubtitle::FsAndSize, false, Usage::Taken, false)
    } else if slot_problem(kind, p) is Some {
        row_state(false, slot_problem(kind, p)->0, true, Usage::Free, true)
    } else {
        row_state(true, RowSubtitle::FsAndSize, false, Usage::Free, false)
    }
}

/// The partition may be offered as far as its own checks go.
pub open spec fn eligible(s: PartitionRowState) -> bool {
    !s.never && !s.swap_fs_error && !s.hardcode_fs_error
}

/// The new state after the row's mountpoint became `mountpoint`, and whether
/// the row has to give up its partition.
pub open spec fn spec_mountpoint_changed(
    s: PartitionRowState,
    mountpoint: Seq<char>,
    part_fs: Seq<char>,
) -> (PartitionRowState, bool) {
    if mountpoint == swap_mountpoint() {
        if is_swap_fs(part_fs) {
            let s1 = PartitionRowState { swap_fs_error: false, ..s };
            if eligible(s1) {
                (PartitionRowState { sensitive: true, ..s1 }, false)
            } else {
                (s1, false)
            }
        } else {
            (PartitionRowState { swap_fs_error: true, sensitive: false, ..s }, true)
        }
    } else if s.usage != Usage::Taken && !s.never && !s.hardcode_fs_error {
        (PartitionRowState { swap_fs_error: false, sensitive: true, ..s }, false)
    } else {
        (s, false)
    }
}

/// The new state after some row took or freed a partition, and whether the
/// row showing the chooser has to give up its partition.
pub open spec fn spec_partition_changed(
    s: PartitionRowState,
    part_name: Seq<char>,
    row_partition: Seq<char>,
    row_id: i32,
    used: Seq<FstabEntry>,
    subvols: Seq<SubvolDeclaration>,
) -> (PartitionRowState, bool) {
    if taken_elsewhere(used, part_name, row_partition) && declared_subvol(subvols, part_name) {
        let s1 = if eligible(s) {
            PartitionRowState { sensitive: true, ..s }
        } else {
            s
        };
        (PartitionRowState { usage: Usage::Shared, ..s1 }, false)
    } else if held_by_other_row(used, part_name, row_id) && !declared_subvol(subvols, part_name) {
        (
            PartitionRowState { sensitive: false, usage: Usage::Taken, ..s },
            row_partition == part_name,
        )
    } else {
        let s1 = if eligible(s) {
            PartitionRowState { sensitive: true, ..s }
        } else {
            s
        };
        (PartitionRowState { usage: Usage::Free, ..s1 }, false)
    }
}

fn is_taken_elsewhere(used: &Vec<FstabEntry>, name: &String, row_partition: &String) -> (r: bool)
    ensures
        r == taken_elsewhere(used@, name@, row_partition@),
{
    if *name == *row_partition {
        return false;
    }
    let mut i: usize = 0;
    while i < used.len()
        invariant
            name@ != row_partition@,
            i <= used.len(),
            forall|j: int| 0 <= j < i ==> used@[j].partition.part_name@ != name@,
        decreases used.len() - i,
    {
        if used[i].partition.part_name == *name {
            return true;
        }
        i = i + 1;
    }
    false
}

fn is_declared_subvol(subvols: &Vec<SubvolDeclaration>, name: &String) -> (r: bool)
    ensures
        r == declared_subvol(subvols@, name@),
{
    let mut i: usize = 0;
    while i < subvols.len()
        invariant
            i <= subvols.len(),
            forall|j: int| 0 <= j < i ==> subvols@[j].part_name@ != name@,
        decreases subvols.len() - i,
    {
        if subvols[i].part_name == *name {
            return true;
        }
        i = i + 1;
    }
    false
}

fn is_held_by_other_row(used: &Vec<FstabEntry>, name: &String, row_id: i32) -> (r: bool)
    ensures
        r == held_by_other_row(used@, name@, row_id),
{
    let mut i: usize = 0;
    while i < used.len()
        invariant
            i <= used.len(),
            forall|j: int|
                0 <= j < i ==> !(used@[j].partition.part_name@ == name@ && used@[j].used_by
                    != row_id),
        decreases used.len() - i,
    {
        if used[i].partition.part_name == *name && used[i].used_by != row_id {
            return true;
        }
        i = i + 1;
    }
    false
}

fn find_slot_problem(kind: RowKind, p: &Partition) -> (r: Option<RowSubtitle>)
    ensures
        r == slot_problem(kind, *p),
{
    let fs = p.part_fs.as_str();
    match kind {
        RowKind::Efi => {
            if !str_eq(fs, "vfat") {
                Some(RowSubtitle::EfiFsBad)
            } else if p.part_size < MINIMUM_EFI_BYTE_SIZE {
                Some(RowSubtitle::EfiFsSmall)
            } else {
                None
            }
        },
        RowKind::Boot => {
            if !str_eq(fs, "ext4") {
                Some(RowSubtitle::BootFsBad)
            } else if p.part_size < MINIMUM_BOOT_BYTE_SIZE {
                Some(RowSubtitle::BootFsSmall)
            } else {
                None
            }
        },
        RowKind::Root => {
            if str_eq(fs, "vfat") || str_eq(fs, "ntfs") || str_eq(fs, "swap") || str_eq(fs, "exfat")
                || str_eq(fs, "BitLocker") {
                Some(RowSubtitle::RootFsBad)
            } else if p.part_size < MINIMUM_ROOT_BYTE_SIZE {
                Some(RowSubtitle::RootFsSmall)
            } else {
                None
            }
        },
        RowKind::Extra => None,
    }
}

/// How partition `partition` first appears in the chooser of a row of kind
/// `kind`, given the partitions the rows hold (`used`), the declared btrfs
/// subvolumes and the partition the row itself holds.
pub fn classify_partition_row(
    kind: RowKind,
    partition: &Partition,
    used: &Vec<FstabEntry>,
    subvols: &Vec<SubvolDeclaration>,
    row_partition: &String,
) -> (r: PartitionRowState)
    ensures
        r == spec_classify(kind, *partition, used@, subvols@, row_partition@),
{
    let name = &partition.part_name;
    if partition.need_mapper {
        return PartitionRowState {
            sensitive: false,
            subtitle: RowSubtitle::NeedsMapper,
            swap_fs_error: false,
            hardcode_fs_error: false,
            usage: Usage::Free,
            never: true,
        };
    }
    let taken = is_taken_elsewhere(used, name, row_partition);
    if taken && is_declared_subvol(subvols, name) {
        return PartitionRowState {
            sensitive: true,
            subtitle: RowSubtitle::FsAndSize,
            swap_fs_error: false,
            hardcode_fs_error: false,
            usage: Usage::Shared,
            never: false,
        };
    }
    if taken {
        return PartitionRowState {
            sensitive: false,
            subtitle: RowSubtitle::FsAndSize,
            swap_fs_error: false,
            hardcode_fs_error: false,
            usage: Usage::Taken,
            never: false,
        };
    }
    match find_slot_problem(kind, partition) {
        Some(subtitle) => PartitionRowState {
            sensitive: false,
            subtitle,
            swap_fs_error: false,
            hardcode_fs_error: true,
            usage: Usage::Free,
            never: true,
        },
        None => PartitionRowState {
            sensitive: true,
            subtitle: RowSubtitle::FsAndSize,
            swap_fs_error: false,
            hardcode_fs_error: false,
            usage: Usage::Free,
            never: false,
        },
    }
}

/// Updates the state of a partition in a row's chooser after the row's
/// mountpoint became `mountpoint`; returns whether the row must give up the
/// partition it holds (a swap row offered a partition that is not swap).
pub fn on_mountpoint_changed(state: &mut PartitionRowState, mountpoint: &str, part_fs: &str) -> (release: bool)
    ensures
        (*final(state), release) == spec_mountpoint_changed(*old(state), mountpoint@, part_fs@),
{
    if str_eq(mountpoint, "[SWAP]") {
        if str_eq(part_fs, "linux-swap") || str_eq(part_fs, "swap") {
            state.swap_fs_error = false;
            if !state.never && !state.swap_fs_error && !state.hardcode_fs_error {
                state.sensitive = true;
            }
            false
        } else {
            state.swap_fs_error = true;
            state.sensitive = false;
            true
        }
    } else {
        if state.usage != Usage::Taken && !state.never && !state.hardcode_fs_error {
            state.swap_fs_error = false;
            state.sensitive = true;
        }
        false
    }
}

/// Updates the state of partition `part_name` in the chooser of row `row_id`
/// (which holds `row_partition`) after the rows' holdings changed; returns
/// whether the row must give up its partition.
pub fn on_partition_changed(
    state: &mut PartitionRowState,
    part_name: &String,
    row_partition: &String,
    row_id: i32,
    used: &Vec<FstabEntry>,
    subvols: &Vec<SubvolDeclaration>,
) -> (clear_row: bool)
    ensures
        (*final(state), clear_row) == spec_partition_changed(
            *old(state),
            part_name@,
            row_partition@,
            row_id,
            used@,
            subvols@,
        ),
{
    let declared = is_declared_subvol(subvols, part_name);
    if is_taken_elsewhere(used, part_name, row_partition) && declared {
        if !state.never && !state.swap_fs_error && !state.hardcode_fs_error {
            state.sensitive = true;
        }
        state.usage = Usage::Shared;
        false
    } else if is_held_by_other_row(used, part_name, row_id) && !declared {
        state.sensitive = false;
        state.usage = Usage::Taken;
        *row_partition == *part_name
    } else {
        if !state.never && !state.swap_fs_error && !state.hardcode_fs_error {
            state.sensitive = true;
        }
        state.usage = Usage::Free;
        false
    }
}

/// The data of a mount row on the manual partitioning page.
pub struct DriveMountRow {
    pub partition: String,
    pub mountpoint: String,
    pub mountopts: String,
    /// The user added the row and may delete it.
    pub deletable: bool,
    pub id: i32,
}

impl DriveMountRow {
    /// A row with no partition, mountpoint or options, id 0, that cannot
    /// be deleted.
    pub fn new() -> (r: Self)
        ensures
            r.partition@.len() == 0,
            r.mountpoint@.len() == 0,
            r.mountopts@.len() == 0,
            !r.deletable,
            r.id == 0,
    {
        DriveMountRow {
            partition: String::new(),
            mountpoint: String::new(),
            mountopts: String::new(),
            deletable: false,
            id: 0,
        }
    }

    /// The mount entry of the row, with what the partition utility reported
    /// about its partition.
    pub fn get_fstab_entry(&self, probe: PartitionProbe) -> (r: FstabEntry)
        ensures
            r.partition.part_name@ == self.partition@,
            r.partition.part_fs == probe.part_fs,
            r.partition.part_uuid == probe.part_uuid,
            r.partition.has_encryption == probe.has_encryption,
            r.partition.need_mapper == spec_needs_mapper(probe.part_fs@),
            r.partition.part_size == probe.part_size,
            r.partition.part_size_pretty == probe.part_size_pretty,
            r.mountpoint == self.mountpoint,
            r.mountopts == self.mountopts,
            r.used_by == self.id,
    {
        FstabEntry {
            partition: create_parition_struct(self.partition.as_str(), probe),
            mountpoint: self.mountpoint.clone(),
            mountopts: self.mountopts.clone(),
            used_by: self.id,
        }
    }

    /// Whether the row holds a partition (a name that is not just
    /// whitespace); otherwise it shows "none selected".
    pub fn has_partition(&self) -> (r: bool)
        ensures
            r == (trimmed(self.partition@).len() > 0),
    {
        let t = trim(self.partition.as_str());
        t.as_str().unicode_len() > 0
    }

    /// The subtitle of the row's partition button: the partition when the
    /// row holds one, otherwise `None`, shown as "none selected".
    pub fn partition_subtitle(&self) -> (r: Option<String>)
        ensures
            r is None <==> trimmed(self.partition@).len() == 0,
            r matches Some(t) ==> t@ == self.partition@,
    {
        if self.has_partition() {
            Some(self.partition.clone())
        } else {
            None
        }
    }
}

/// The id of the first row the user adds; the fixed rows have ids 0 to 2.
pub const FIRST_EXTRA_ROW_ID: i32 = 3;

fn fixed_row(mountpoint: &str, id: i32) -> (r: DriveMountRow)
    ensures
        r.partition@.len() == 0,
        r.mountpoint@ == mountpoint@,
        r.mountopts@.len() == 0,
        !r.deletable,
        r.id == id,
{
    DriveMountRow {
        partition: String::new(),
        mountpoint: mountpoint.to_owned(),
        mountopts: String::new(),
        deletable: false,
        id,
    }
}

/// The fixed rows every mount table starts with: the EFI partition, `/boot`
/// and `/`, with ids 0, 1 and 2; they cannot be deleted.
pub fn hardcoded_rows() -> (r: Vec<(RowKind, DriveMountRow)>)
    ensures
        r@.len() == 3,
        r@[0].0 == RowKind::Efi && r@[0].1.mountpoint@ == "/boot/efi"@ && r@[0].1.id == 0,
        r@[1].0 == RowKind::Boot && r@[1].1.mountpoint@ == "/boot"@ && r@[1].1.id == 1,
        r@[2].0 == RowKind::Root && r@[2].1.mountpoint@ == "/"@ && r@[2].1.id == 2,
        forall|i: int| 0 <= i < 3 ==> !(#[trigger] r@[i]).1.deletable && r@[i].1.partition@.len() == 0
            && r@[i].1.mountopts@.len() == 0,
{
    let mut r = Vec::new();
    r.push((RowKind::Efi, fixed_row("/boot/efi", 0)));
    r.push((RowKind::Boot, fixed_row("/boot", 1)));
    r.push((RowKind::Root, fixed_row("/", 2)));
    r
}

/// A new, empty row the user added, taking the next free id.
pub fn new_extra_row(next_id: &mut i32) -> (r: DriveMountRow)
    requires
        *old(next_id) < i32::MAX,
    ensures
        r.id == *old(next_id),
        *final(next_id) == *old(next_id) + 1,
        r.deletable,
        r.partition@.len() == 0,
        r.mountpoint@.len() == 0,
        r.mountopts@.len() == 0,
{
    let id = *next_id;
    *next_id = id + 1;
    DriveMountRow {
        partition: String::new(),
        mountpoint: String::new(),
        mountopts: String::new(),
        deletable: true,
        id,
    }
}

/// A partition is offered only when nothing about it or the row forbids it.
pub open spec fn offer_is_sound(s: PartitionRowState) -> bool {
    s.sensitive ==> eligible(s)
}

/// Law: a partition that needs a device mapper, or whose filesystem or size
/// does not suit a fixed row, or that is not swap for a swap row, is never
/// offered. This holds when the chooser is built and is kept by every change
/// of mountpoint and of the rows' holdings; and neither change alters the
/// partition's permanent verdicts (`never`, `hardcode_fs_error`).
pub proof fn lemma_offer_soundness_invariant(
    kind: RowKind,
    p: Partition,
    used: Seq<FstabEntry>,
    subvols: Seq<SubvolDeclaration>,
    row_partition: Seq<char>,
    s: PartitionRowState,
    mountpoint: Seq<char>,
    part_fs: Seq<char>,
    part_name: Seq<char>,
    row_id: i32,
)
    ensures
        offer_is_sound(spec_classify(kind, p, used, subvols, row_partition)),
        offer_is_sound(s) ==> offer_is_sound(spec_mountpoint_changed(s, mountpoint, part_fs).0),
        offer_is_sound(s) ==> offer_is_sound(
            spec_partition_changed(s, part_name, row_partition, row_id, used, subvols).0,
        ),
        spec_mountpoint_changed(s, mountpoint, part_fs).0.never == s.never,
        spec_mountpoint_changed(s, mountpoint, part_fs).0.hardcode_fs_error == s.hardcode_fs_error,
        spec_partition_changed(s, part_name, row_partition, row_id, used, subvols).0.never
            == s.never,
        spec_partition_changed(
            s,
            part_name,
            row_partition,
            row_id,
            used,
            subvols,
        ).0.hardcode_fs_error == s.hardcode_fs_error,
{
}

/// The partition suits the fixed row (or any added row): the EFI row takes
/// a vfat partition of at least `MINIMUM_EFI_BYTE_SIZE`, the `/boot` row an
/// ext4 one of at least `MINIMUM_BOOT_BYTE_SIZE`, and the root row one of at
/// least `MINIMUM_ROOT_BYTE_SIZE` whose filesystem is none of vfat, ntfs,
/// swap, exfat and BitLocker.
pub open spec fn suits_row(kind: RowKind, p: Partition) -> bool {
    let fs = p.part_fs@;
    match kind {
        RowKind::Efi => fs == "vfat"@ && p.part_size >= MINIMUM_EFI_BYTE_SIZE,
        RowKind::Boot => fs == "ext4"@ && p.part_size >= MINIMUM_BOOT_BYTE_SIZE,
        RowKind::Root => p.part_size >= MINIMUM_ROOT_BYTE_SIZE && fs != "vfat"@ && fs != "ntfs"@ && fs
            != "swap"@ && fs != "exfat"@ && fs != "BitLocker"@,
        RowKind::Extra => true,
    }
}

/// Law: a partition that needs no mapper and that no other row holds is
/// offered in a row's chooser, with its filesystem and size, exactly when it
/// suits the row; otherwise it is never offered there, marked as unfit.
pub proof fn lemma_free_partition_offered_when_suitable(
    kind: RowKind,
    p: Partition,
    used: Seq<FstabEntry>,
    subvols: Seq<SubvolDeclaration>,
    row_partition: Seq<char>,
)
    requires
        !p.need_mapper,
        p.part_name@ == row_partition || forall|i: int|
            0 <= i < used.len() ==> #[trigger] used[i].partition.part_name@ != p.part_name@,
    ensures
        suits_row(kind, p) ==> spec_classify(kind, p, used, subvols, row_partition) == (PartitionRowState {
            sensitive: true,
            subtitle: RowSubtitle::FsAndSize,
            swap_fs_error: false,
            hardcode_fs_error: false,
            usage: Usage::Free,
            never: false,
        }),
        !suits_row(kind, p) ==> ({
            let s = spec_classify(kind, p, used, subvols, row_partition);
            &&& !s.sensitive
            &&& s.never
            &&& s.hardcode_fs_error
            &&& s.usage == Usage::Free
            &&& s.subtitle != RowSubtitle::FsAndSize
        }),
{
    assert(!taken_elsewhere(used, p.part_name@, row_partition));
}

/// Law: a partition that must first be opened through a device mapper is
/// never offered in any row, and says so.
pub proof fn lemma_mapper_partition_never_offered(
    kind: RowKind,
    p: Partition,
    used: Seq<FstabEntry>,
    subvols: Seq<SubvolDeclaration>,
    row_partition: Seq<char>,
)
    requires
        p.need_mapper,
    ensures
        ({
            let s = spec_classify(kind, p, used, subvols, row_partition);
            &&& !s.sensitive
            &&& s.never
            &&& s.subtitle == RowSubtitle::NeedsMapper
        }),
{
}

/// Law: the root row never offers a free partition whose filesystem is vfat,
/// ntfs, swap, exfat or BitLocker, whatever its size.
pub proof fn lemma_root_refuses_unfit_filesystems(
    p: Partition,
    used: Seq<FstabEntry>,
    subvols: Seq<SubvolDeclaration>,
    row_partition: Seq<char>,
)
    requires
        !p.need_mapper,
        p.part_name@ == row_partition || forall|i: int|
            0 <= i < used.len() ==> #[trigger] used[i].partition.part_name@ != p.part_name@,
        p.part_fs@ == "vfat"@ || p.part_fs@ == "ntfs"@ || p.part_fs@ == "swap"@ || p.part_fs@ == "exfat"@
            || p.part_fs@ == "BitLocker"@,
    ensures
        spec_classify(RowKind::Root, p, used, subvols, row_partition) == (PartitionRowState {
            sensitive: false,
            subtitle: RowSubtitle::RootFsBad,
            swap_fs_error: false,
            hardcode_fs_error: true,
            usage: Usage::Free,
            never: true,
        }),
{
    assert(!taken_elsewhere(used, p.part_name@, row_partition));
}

/// Law: once another row holds a partition without a btrfs subvolume on it,
/// the partition is no longer offered, and a row holding that same partition
/// is told to give it up.
pub proof fn lemma_exclusive_partition_not_offered(
    s: PartitionRowState,
    part_name: Seq<char>,
    row_partition: Seq<char>,
    row_id: i32,
    used: Seq<FstabEntry>,
    subvols: Seq<SubvolDeclaration>,
)
    requires
        held_by_other_row(used, part_name, row_id),
        !declared_subvol(subvols, part_name),
    ensures
        !spec_partition_changed(s, part_name, row_partition, row_id, used, subvols).0.sensitive,
        spec_partition_changed(s, part_name, row_partition, row_id, used, subvols).0.usage
            == Usage::Taken,
        spec_partition_changed(s, part_name, row_partition, row_id, used, subvols).1 == (
        row_partition == part_name),
{
}

} // verus!
