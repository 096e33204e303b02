//! The steps of the install page that confirms a layout before it starts
//! the installer: asking once for each encrypted partition how it is to be
//! unlocked, the files in which the chosen mounts are handed to the installer
//! scripts, and the lines that tell the user what is about to happen.
use vstd::prelude::*;

use crate::mount_check::DriveMount;
use crate::script::{decimal, decimal_string};
use crate::text::{contains_seq, contains_str, str_eq};

verus! {

/// The texts of a list of strings.
pub open spec fn names(v: Seq<String>) -> Seq<Seq<char>> {
    v.map_values(|s: String| s@)
}

/// Whether the encryption of the partition of `m` is looked at: it is not
/// the root mount and the user was not asked about the partition before.
pub open spec fn spec_should_probe(m: DriveMount, unlocked: Seq<Seq<char>>) -> bool {
    m.mountpoint@ != "/"@ && !unlocked.contains(m.partition@)
}

/// Whether `name` is in `v`.
fn contains_name(v: &Vec<String>, name: &str) -> (r: bool)
    ensures
        r == names(v@).contains(name@),
{
    let mut i: usize = 0;
    while i < v.len()
        invariant
            i <= v.len(),
            forall|j: int| 0 <= j < i ==> v@[j]@ != name@,
        decreases v.len() - i,
    {
        if str_eq(v[i].as_str(), name) {
            assert(names(v@)[i as int] == name@);
            return true;
        }
        i = i + 1;
    }
    assert(!names(v@).contains(name@)) by {
        if names(v@).contains(name@) {
            let w = choose|w: int| 0 <= w < names(v@).len() && names(v@)[w] == name@;
            assert(v@[w]@ == name@);
        }
    }
    false
}

/// Whether the partition utility is to be asked if the partition of `m` is
/// encrypted, given the partitions the user was already asked about.
pub fn should_probe_encryption(m: &DriveMount, unlocked: &Vec<String>) -> (r: bool)
    ensures
        r == spec_should_probe(*m, names(unlocked@)),
{
    proof {
        reveal_strlit("/");
    }
    if str_eq(m.mountpoint.as_str(), "/") {
        return false;
    }
    !contains_name(unlocked, m.partition.as_str())
}

/// Takes in the answer of the partition utility for a mount whose partition
/// was probed: an encrypted partition gets a prompt and is remembered, so
/// that no later mount of it is asked about again.
pub fn record_probe(m: &DriveMount, unlocked: &mut Vec<String>, encrypted: bool) -> (prompt: bool)
    ensures
        prompt == encrypted,
        encrypted ==> final(unlocked)@ == old(unlocked)@.push(m.partition),
        !encrypted ==> final(unlocked)@ == old(unlocked)@,
{
    if encrypted {
        unlocked.push(m.partition.clone());
    }
    encrypted
}

/// No partition occurs twice.
pub open spec fn no_repeats(s: Seq<Seq<char>>) -> bool {
    forall|i: int, j: int| 0 <= i < j < s.len() ==> s[i] != s[j]
}

/// Law: a partition is asked about at most once: when only partitions that pass
/// the probe check are remembered, the remembered list never holds one
/// partition twice, and the root mount never adds one.
pub proof fn lemma_prompt_at_most_once(unlocked: Seq<String>, m: DriveMount)
    requires
        no_repeats(names(unlocked)),
        spec_should_probe(m, names(unlocked)),
    ensures
        no_repeats(names(unlocked.push(m.partition))),
        m.mountpoint@ != "/"@,
{
    let after = names(unlocked.push(m.partition));
    assert(after =~= names(unlocked).push(m.partition@));
    assert forall|i: int, j: int| 0 <= i < j < after.len() implies after[i] != after[j] by {
        if j == after.len() - 1 {
            assert(names(unlocked)[i] == after[i]);
        }
    }
}

/// The file in which the mount at position `index` of the sorted list is
/// handed to the installer.
pub open spec fn spec_manual_mount_file(index: nat) -> Seq<char> {
    "/tmp/pika-installer-gtk4-target-manual-p"@ + decimal(index) + ".json"@
}

/// The file in which the unlock choice for the mount at position `index` is
/// handed to the installer.
pub open spec fn spec_manual_luks_file(index: nat) -> Seq<char> {
    "/tmp/pika-installer-gtk4-target-manual-luks-p"@ + decimal(index) + ".json"@
}

/// The path of the mount file at position `index`.
pub fn manual_mount_file(index: u64) -> (r: String)
    ensures
        r@ == spec_manual_mount_file(index as nat),
{
    let mut r = "/tmp/pika-installer-gtk4-target-manual-p".to_owned();
    let n = decimal_string(index);
    r.append(n.as_str());
    r.append(".json");
    r
}

/// The path of the unlock file at position `index`.
pub fn manual_luks_file(index: u64) -> (r: String)
    ensures
        r@ == spec_manual_luks_file(index as nat),
{
    let mut r = "/tmp/pika-installer-gtk4-target-manual-luks-p".to_owned();
    let n = decimal_string(index);
    r.append(n.as_str());
    r.append(".json");
    r
}

/// The device of partition `number` of the disk `block`: NVMe disks put a
/// `p` between the disk and the number.
pub open spec fn spec_partition_device(block: Seq<char>, number: nat) -> Seq<char> {
    if contains_seq(block, "nvme"@) {
        block + "p"@ + decimal(number)
    } else {
        block + decimal(number)
    }
}

/// The device name of partition `number` on the disk `block`.
pub fn partition_device(block: &str, number: u64) -> (r: String)
    ensures
        r@ == spec_partition_device(block@, number as nat),
{
    let mut r = block.to_owned();
    if contains_str(block, "nvme") {
        r.append("p");
    }
    let n = decimal_string(number);
    r.append(n.as_str());
    r
}

/// The confirmation line for one chosen mount: the partition's device, the
/// localized joining words, and the mountpoint.
pub fn manual_confirm_title(m: &DriveMount, mounted_on: &str) -> (r: String)
    ensures
        r@ == "/dev/"@ + m.partition@ + mounted_on@ + m.mountpoint@,
{
    let mut r = "/dev/".to_owned();
    r.append(m.partition.as_str());
    r.append(mounted_on);
    r.append(m.mountpoint.as_str());
    r
}

/// The four confirmation lines of an automatic installation onto `block`:
/// the EFI, boot, root and home partitions, with the shown sizes of the last
/// two.
pub open spec fn spec_auto_confirm_lines(block: Seq<char>, root_pretty: Seq<char>, home_pretty: Seq<char>) -> Seq<Seq<char>> {
    seq![
        "512 MB "@ + spec_partition_device(block, 1) + " as fat32"@ + " on /boot/efi"@,
        "1 GB "@ + spec_partition_device(block, 2) + " as ext4"@ + " on /boot"@,
        root_pretty + " "@ + spec_partition_device(block, 3) + " as btrfs"@ + " on /"@,
        home_pretty + " "@ + spec_partition_device(block, 4) + " as btrfs"@ + " on /home"@,
    ]
}

/// The confirmation lines of an automatic installation.
pub fn auto_confirm_lines(block: &str, root_pretty: &str, home_pretty: &str) -> (r: Vec<String>)
    ensures
        names(r@) == spec_auto_confirm_lines(block@, root_pretty@, home_pretty@),
{
    let mut p1 = "512 MB ".to_owned();
    let d1 = partition_device(block, 1);
    p1.append(d1.as_str());
    p1.append(" as fat32");
    p1.append(" on /boot/efi");

    let mut p2 = "1 GB ".to_owned();
    let d2 = partition_device(block, 2);
    p2.append(d2.as_str());
    p2.append(" as ext4");
    p2.append(" on /boot");

    let mut p3 = root_pretty.to_owned();
    p3.append(" ");
    let d3 = partition_device(block, 3);
    p3.append(d3.as_str());
    p3.append(" as btrfs");
    p3.append(" on /");

    let mut p4 = home_pretty.to_owned();
    p4.append(" ");
    let d4 = partition_device(block, 4);
    p4.append(d4.as_str());
    p4.append(" as btrfs");
    p4.append(" on /home");

    let mut r: Vec<String> = Vec::new();
    r.push(p1);
    r.push(p2);
    r.push(p3);
    r.push(p4);
    assert(names(r@) =~= spec_auto_confirm_lines(block@, root_pretty@, home_pretty@));
    r
}

/// The root partition of an automatic install: 40% of the disk, but at
/// least 36507222016 and at most 150000000000 bytes (whole bytes, rounded
/// down).
pub open spec fn spec_auto_root_size(target_size: int) -> int {
    if target_size * 40 >= 150000000000 * 100 {
        150000000000
    } else if target_size * 40 <= 36507222016 * 100 {
        36507222016
    } else {
        (target_size * 40) / 100
    }
}

/// The sizes of an automatic install on a disk of `target_size` bytes.
pub struct AutoInstallSizes {
    /// The root partition.
    pub root_size: u64,
    /// The home partition: the rest of the disk less 1536 bytes (negative
    /// when the disk is smaller than the root partition).
    pub home_size: i128,
    /// Where the root partition ends, as handed to the partitioning script.
    pub root_end: u64,
}

/// The sizes of an automatic install on a disk of `target_size` bytes.
pub fn auto_install_sizes(target_size: u64) -> (r: AutoInstallSizes)
    ensures
        r.root_size == spec_auto_root_size(target_size as int),
        r.home_size == target_size - (spec_auto_root_size(target_size as int) + 1536),
        r.root_end == spec_auto_root_size(target_size as int) + 1537,
{
    let t = target_size as u128;
    let root: u64 = if t * 40 >= 150000000000 * 100 {
        150000000000
    } else if t * 40 <= 36507222016 * 100 {
        36507222016
    } else {
        (t * 40 / 100) as u64
    };
    AutoInstallSizes {
        root_size: root,
        home_size: target_size as i128 - (root as i128 + 1536),
        root_end: root + 1537,
    }
}

} // verus!
